use karma::domain::{MonitorId, OcrRisk, RiskCategory};
use karma::observation::{ImageInference, ObservationAssembler, ObservationInput};
use karma::word_pack::OcrMatchSummary;

fn input(categories: Vec<String>, exemption_context: bool) -> ObservationInput {
    ObservationInput {
        monitor_id: MonitorId("display-1".into()),
        captured_at_ms: 42,
        image: ImageInference {
            score_millis: 700,
            categories: vec![RiskCategory::Suggestive],
        },
        ocr: OcrMatchSummary {
            risk: OcrRisk::HighRiskPhrase,
            categories,
            exemption_context,
        },
        image_model_version: "i1".into(),
        ocr_model_version: "o1".into(),
        word_pack_version: "w1".into(),
    }
}

#[test]
fn exemption_context_is_preserved_as_category() {
    let value = ObservationAssembler::assemble(ObservationInput {
        monitor_id: MonitorId("display-1".into()),
        captured_at_ms: 42,
        image: ImageInference {
            score_millis: 0,
            categories: vec![],
        },
        ocr: OcrMatchSummary {
            risk: OcrRisk::NoRisk,
            categories: vec!["medical".into()],
            exemption_context: true,
        },
        image_model_version: "i1".into(),
        ocr_model_version: "o1".into(),
        word_pack_version: "w1".into(),
    });
    assert!(value.ocr_categories.contains(&RiskCategory::ExemptionContext));
}

#[test]
fn assembly_maps_categories_without_text() {
    let value = ObservationAssembler::assemble(input(vec!["explicit_term".into()], false));
    assert_eq!(value.ocr_categories, vec![RiskCategory::ExplicitTerm]);
    assert_eq!(value.image_score_millis, 700);
    assert_eq!(value.image_labels, vec![RiskCategory::Suggestive]);
    assert_eq!(value.ocr_risk, OcrRisk::HighRiskPhrase);
    assert!(value.source_identity.is_none());
    assert_eq!(value.model_versions.word_pack, "w1");
}

#[test]
fn observation_categories_come_in_rank_order_once_each() {
    let value = ObservationAssembler::assemble(input(
        vec![
            "adult_service".into(),
            "unknown".into(),
            "explicit_term".into(),
            "adult_service".into(),
        ],
        true,
    ));
    assert_eq!(
        value.ocr_categories,
        vec![
            RiskCategory::ExplicitTerm,
            RiskCategory::AdultService,
            RiskCategory::ExemptionContext
        ]
    );
}
