use vstd::prelude::*;

use crate::domain::{ModelVersions, MonitorId, RiskCategory, RiskObservation};
use crate::text::str_eq;
use crate::word_pack::OcrMatchSummary;

verus! {

/// What the image model concluded about a frame.
pub struct ImageInference {
    pub score_millis: u16,
    pub categories: Vec<RiskCategory>,
}

/// Everything an observation is assembled from.
pub struct ObservationInput {
    pub monitor_id: MonitorId,
    pub captured_at_ms: i64,
    pub image: ImageInference,
    pub ocr: OcrMatchSummary,
    pub image_model_version: String,
    pub ocr_model_version: String,
    pub word_pack_version: String,
}

/// Turns model outputs into a privacy-preserving observation.
pub struct ObservationAssembler;

/// Some matched category is named `name`.
pub open spec fn names_category(categories: Seq<String>, name: Seq<char>) -> bool {
    exists|i: int| 0 <= i < categories.len() && #[trigger] categories[i]@ == name
}

/// The observation categories that a word-pack summary maps to, in their fixed order:
/// explicit terms, then adult services, then an exemption context; each at most once.
pub open spec fn ocr_categories_of(categories: Seq<String>, exemption: bool) -> Seq<RiskCategory> {
    (if names_category(categories, "explicit_term"@) {
        seq![RiskCategory::ExplicitTerm]
    } else {
        Seq::empty()
    }) + (if names_category(categories, "adult_service"@) {
        seq![RiskCategory::AdultService]
    } else {
        Seq::empty()
    }) + (if exemption {
        seq![RiskCategory::ExemptionContext]
    } else {
        Seq::empty()
    })
}

impl ObservationAssembler {
    /// Copies the image result, the OCR risk and the model versions, and maps the OCR
    /// categories; no recognised text reaches the observation.
    pub fn assemble(input: ObservationInput) -> (observation: RiskObservation)
        ensures
            observation.monitor_id == input.monitor_id,
            observation.captured_at_ms == input.captured_at_ms,
            observation.image_score_millis == input.image.score_millis,
            observation.image_labels == input.image.categories,
            observation.ocr_risk == input.ocr.risk,
            observation.ocr_categories@ == ocr_categories_of(
                input.ocr.categories@,
                input.ocr.exemption_context,
            ),
            observation.source_identity.is_none(),
            observation.model_versions.image == input.image_model_version,
            observation.model_versions.ocr == input.ocr_model_version,
            observation.model_versions.word_pack == input.word_pack_version,
    {
        let mut explicit = false;
        let mut adult = false;
        let categories = &input.ocr.categories;
        let mut i: usize = 0;
        while i < categories.len()
            invariant
                i <= categories@.len(),
                explicit == exists|k: int| 0 <= k < i && #[trigger] categories@[k]@ == "explicit_term"@,
                adult == exists|k: int| 0 <= k < i && #[trigger] categories@[k]@ == "adult_service"@,
            decreases categories@.len() - i,
        {
            if str_eq(categories[i].as_str(), "explicit_term") {
                explicit = true;
            }
            if str_eq(categories[i].as_str(), "adult_service") {
                adult = true;
            }
            i = i + 1;
        }
        let mut ocr_categories: Vec<RiskCategory> = Vec::new();
        if explicit {
            ocr_categories.push(RiskCategory::ExplicitTerm);
        }
        if adult {
            ocr_categories.push(RiskCategory::AdultService);
        }
        if input.ocr.exemption_context {
            ocr_categories.push(RiskCategory::ExemptionContext);
        }
        assert(ocr_categories@ =~= ocr_categories_of(
            input.ocr.categories@,
            input.ocr.exemption_context,
        ));
        RiskObservation {
            monitor_id: input.monitor_id,
            captured_at_ms: input.captured_at_ms,
            image_score_millis: input.image.score_millis,
            image_labels: input.image.categories,
            ocr_risk: input.ocr.risk,
            ocr_categories,
            source_identity: None,
            model_versions: ModelVersions {
                image: input.image_model_version,
                ocr: input.ocr_model_version,
                word_pack: input.word_pack_version,
            },
        }
    }
}

} // verus!
