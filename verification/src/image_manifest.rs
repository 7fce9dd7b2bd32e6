use vstd::prelude::*;

use crate::engines::{
    ColorOrder, ImageManifestError, ModelLabel, TensorLayout, VIDDEXA_LABELS, VIDDEXA_REPOSITORY,
    VIDDEXA_REVISION,
};
use crate::manifest::{asset_verdict, AssetKind, AssetManifest};
use crate::text::{is_blank, is_blank_spec, str_eq};

verus! {

/// The bits of the `f32` scale the image model divides pixel values by: `1.0 / 255.0`.
pub const VIDDEXA_SCALE_BITS: u32 = 0x3b80_8081;

/// The bits of the `f32` channel means of the image model: 0.485, 0.456, 0.406.
pub const VIDDEXA_MEAN_BITS: [u32; 3] = [0x3ef8_51ec, 0x3ee9_78d5, 0x3ecf_df3b];

/// The bits of the `f32` channel deviations of the image model: 0.47853944, 0.4732864,
/// 0.47434163.
pub const VIDDEXA_STD_BITS: [u32; 3] = [0x3ef5_031f, 0x3ef2_5298, 0x3ef2_dce8];

/// The opset the image model is exported with.
pub const IMAGE_MODEL_OPSET: u16 = 18;

/// The input tensor of the image model. The normalization values are `f32`, held by their
/// bits: for the model's values, none of them zero or NaN, two `f32` are equal exactly when
/// their bits are.
#[derive(Debug, Clone, PartialEq, Eq)]
pub struct ImageInputContract {
    pub name: String,
    pub shape: [usize; 4],
    pub layout: TensorLayout,
    pub color_order: ColorOrder,
    pub scale_bits: u32,
    pub mean_bits: [u32; 3],
    pub std_bits: [u32; 3],
}

/// The provenance and the interface of the image model.
#[derive(Debug, Clone, PartialEq, Eq)]
pub struct ImageModelManifest {
    pub asset: AssetManifest,
    pub source_repository: String,
    pub source_revision: String,
    pub file_name: String,
    pub file_bytes: u64,
    pub opset: u16,
    pub minimum_runtime_version: String,
    pub input: ImageInputContract,
    pub output_name: String,
    pub labels: Vec<ModelLabel>,
}

/// `name` is one of the image model's classes.
pub open spec fn is_model_class_spec(name: Seq<char>) -> bool {
    exists|k: int| 0 <= k < 5 && name == (#[trigger] VIDDEXA_LABELS@[k])@
}

/// Some label of `labels` is named `name`.
pub open spec fn has_label_spec(labels: Seq<ModelLabel>, name: Seq<char>) -> bool {
    exists|i: int| 0 <= i < labels.len() && (#[trigger] labels[i]).name@ == name
}

/// The labels are the image model's classes: five labels, each index below five and used
/// once, each name one of the classes, and every class named.
pub open spec fn labels_ok(labels: Seq<ModelLabel>) -> bool {
    &&& labels.len() == 5
    &&& forall|i: int| 0 <= i < labels.len() ==> (#[trigger] labels[i]).index < 5
    &&& forall|i: int, j: int|
        0 <= i < j < labels.len() ==> (#[trigger] labels[i]).index != (#[trigger] labels[j]).index
    &&& forall|i: int| 0 <= i < labels.len() ==> is_model_class_spec((#[trigger] labels[i]).name@)
    &&& forall|k: int| 0 <= k < 5 ==> has_label_spec(labels, (#[trigger] VIDDEXA_LABELS@[k])@)
}

/// The normalization is the image model's, compared by bits.
pub open spec fn normalization_ok(input: ImageInputContract) -> bool {
    &&& input.scale_bits == VIDDEXA_SCALE_BITS
    &&& input.mean_bits@ == VIDDEXA_MEAN_BITS@
    &&& input.std_bits@ == VIDDEXA_STD_BITS@
}

/// The verdict on an image model manifest whose file name is safe or not, in the order the
/// checks are made.
pub open spec fn image_manifest_verdict(m: ImageModelManifest, file_name_safe: bool) -> Result<
    (),
    ImageManifestError,
> {
    if asset_verdict(m.asset) is Err || m.asset.kind != AssetKind::ImageClassifier {
        Err(ImageManifestError::InvalidAsset)
    } else if m.source_repository@ != VIDDEXA_REPOSITORY@ || m.source_revision@
        != VIDDEXA_REVISION@ {
        Err(ImageManifestError::InvalidSource)
    } else if m.file_bytes == 0 || !file_name_safe {
        Err(ImageManifestError::InvalidFile)
    } else if m.opset != IMAGE_MODEL_OPSET {
        Err(ImageManifestError::InvalidOpset)
    } else if m.minimum_runtime_version@ != "1.22"@ {
        Err(ImageManifestError::InvalidRuntimeVersion)
    } else if m.input.shape@ != seq![1usize, 3, 224, 224] {
        Err(ImageManifestError::InvalidInputShape)
    } else if is_blank_spec(m.input.name@) || is_blank_spec(m.output_name@) {
        Err(ImageManifestError::InvalidTensorName)
    } else if !normalization_ok(m.input) {
        Err(ImageManifestError::InvalidNormalization)
    } else if !labels_ok(m.labels@) {
        Err(ImageManifestError::InvalidLabels)
    } else {
        Ok(())
    }
}

/// A name that is one plain path component on every platform: not empty, not `.` or `..`,
/// and without `/`, `\` or `:`.
pub open spec fn plain_file_name(name: Seq<char>) -> bool {
    &&& name.len() > 0
    &&& name != "."@
    &&& name != ".."@
    &&& forall|i: int| 0 <= i < name.len() ==> #[trigger] name[i] != '/' && name[i] != '\\' && name[i]
        != ':'
}

/// Whether `std::path::Path::new(value).components()` yields one normal component and
/// nothing else. What counts as a separator or a prefix depends on the platform, so only
/// what holds on every platform is stated: a plain name is one normal component, and the
/// empty name, `.` and `..` are not; other names are left open.
#[verifier::external_body]
fn is_single_normal_component(value: &str) -> (single: bool)
    ensures
        plain_file_name(value@) ==> single,
        value@.len() == 0 || value@ == "."@ || value@ == ".."@ ==> !single,
{
    let mut components = std::path::Path::new(value).components();
    matches!(components.next(), Some(std::path::Component::Normal(_))) && components.next().is_none()
}

fn is_model_class(name: &str) -> (b: bool)
    ensures
        b == is_model_class_spec(name@),
{
    let classes = VIDDEXA_LABELS;
    let mut k: usize = 0;
    while k < 5
        invariant
            k <= 5,
            classes == VIDDEXA_LABELS,
            forall|j: int| 0 <= j < k ==> name@ != (#[trigger] VIDDEXA_LABELS@[j])@,
        decreases 5 - k,
    {
        if str_eq(name, classes[k]) {
            return true;
        }
        k = k + 1;
    }
    false
}

fn has_label(labels: &Vec<ModelLabel>, name: &str) -> (b: bool)
    ensures
        b == has_label_spec(labels@, name@),
{
    let mut i: usize = 0;
    while i < labels.len()
        invariant
            i <= labels@.len(),
            forall|j: int| 0 <= j < i ==> (#[trigger] labels@[j]).name@ != name@,
        decreases labels@.len() - i,
    {
        if str_eq(labels[i].name.as_str(), name) {
            return true;
        }
        i = i + 1;
    }
    false
}

impl ImageModelManifest {
    /// Checks the manifest against the image model the library was built for.
    pub fn validate(&self) -> (r: Result<(), ImageManifestError>)
        ensures
            r == image_manifest_verdict(*self, true) || r == image_manifest_verdict(*self, false),
            plain_file_name(self.file_name@) ==> r == image_manifest_verdict(*self, true),
            self.file_name@.len() == 0 || self.file_name@ == "."@ || self.file_name@ == ".."@ ==> r
                == image_manifest_verdict(*self, false),
    {
        let safe = is_single_normal_component(self.file_name.as_str());
        self.validate_with_file_name(safe)
    }

    /// Checks the manifest, given whether its file name is one normal path component.
    pub fn validate_with_file_name(&self, file_name_safe: bool) -> (r: Result<
        (),
        ImageManifestError,
    >)
        ensures
            r == image_manifest_verdict(*self, file_name_safe),
    {
        if self.asset.validate().is_err() {
            return Err(ImageManifestError::InvalidAsset);
        }
        if self.asset.kind != AssetKind::ImageClassifier {
            return Err(ImageManifestError::InvalidAsset);
        }
        if !str_eq(self.source_repository.as_str(), VIDDEXA_REPOSITORY) || !str_eq(
            self.source_revision.as_str(),
            VIDDEXA_REVISION,
        ) {
            return Err(ImageManifestError::InvalidSource);
        }
        if self.file_bytes == 0 || !file_name_safe {
            return Err(ImageManifestError::InvalidFile);
        }
        if self.opset != IMAGE_MODEL_OPSET {
            return Err(ImageManifestError::InvalidOpset);
        }
        if !str_eq(self.minimum_runtime_version.as_str(), "1.22") {
            return Err(ImageManifestError::InvalidRuntimeVersion);
        }
        let shape = self.input.shape;
        if !(shape[0] == 1 && shape[1] == 3 && shape[2] == 224 && shape[3] == 224) {
            proof {
                if shape@ == seq![1usize, 3, 224, 224] {
                    assert(shape@[0] == 1 && shape@[1] == 3 && shape@[2] == 224 && shape@[3] == 224);
                }
            }
            return Err(ImageManifestError::InvalidInputShape);
        }
        assert(shape@ =~= seq![1usize, 3, 224, 224]);
        if is_blank(self.input.name.as_str()) || is_blank(self.output_name.as_str()) {
            return Err(ImageManifestError::InvalidTensorName);
        }
        let mean = self.input.mean_bits;
        let std = self.input.std_bits;
        let expected_mean = VIDDEXA_MEAN_BITS;
        let expected_std = VIDDEXA_STD_BITS;
        if self.input.scale_bits != VIDDEXA_SCALE_BITS || mean[0] != expected_mean[0] || mean[1]
            != expected_mean[1] || mean[2] != expected_mean[2] || std[0] != expected_std[0]
            || std[1] != expected_std[1] || std[2] != expected_std[2] {
            return Err(ImageManifestError::InvalidNormalization);
        }
        assert(mean@ =~= VIDDEXA_MEAN_BITS@);
        assert(std@ =~= VIDDEXA_STD_BITS@);
        self.validate_labels()
    }

    fn validate_labels(&self) -> (r: Result<(), ImageManifestError>)
        ensures
            r == (if labels_ok(self.labels@) {
                Ok(())
            } else {
                Err(ImageManifestError::InvalidLabels)
            }),
    {
        let labels = &self.labels;
        if labels.len() != 5 {
            return Err(ImageManifestError::InvalidLabels);
        }
        let mut seen: Vec<bool> = vec![false, false, false, false, false];
        let mut i: usize = 0;
        while i < 5
            invariant
                labels@ == self.labels@,
                labels@.len() == 5,
                i <= 5,
                seen@.len() == 5,
                forall|a: int| 0 <= a < i ==> (#[trigger] labels@[a]).index < 5,
                forall|a: int, b: int|
                    0 <= a < b < i ==> (#[trigger] labels@[a]).index != (#[trigger] labels@[b]).index,
                forall|a: int| 0 <= a < i ==> is_model_class_spec((#[trigger] labels@[a]).name@),
                forall|x: int|
                    0 <= x < 5 ==> (#[trigger] seen@[x] <==> exists|a: int|
                        0 <= a < i && labels@[a].index == x),
            decreases 5 - i,
        {
            let index = labels[i].index;
            if index >= 5 {
                return Err(ImageManifestError::InvalidLabels);
            }
            if seen[index] {
                let ghost a = choose|a: int| 0 <= a < i && labels@[a].index == index;
                assert(labels@[a].index == labels@[i as int].index);
                return Err(ImageManifestError::InvalidLabels);
            }
            if !is_model_class(labels[i].name.as_str()) {
                return Err(ImageManifestError::InvalidLabels);
            }
            seen.set(index, true);
            proof {
                assert forall|x: int| 0 <= x < 5 implies (#[trigger] seen@[x] <==> exists|a: int|
                    0 <= a < i + 1 && labels@[a].index == x) by {
                    if x == index {
                        assert(labels@[i as int].index == x);
                    }
                }
            }
            i = i + 1;
        }
        let classes = VIDDEXA_LABELS;
        let mut k: usize = 0;
        while k < 5
            invariant
                labels@ == self.labels@,
                k <= 5,
                classes == VIDDEXA_LABELS,
                forall|j: int| 0 <= j < k ==> has_label_spec(labels@, (#[trigger] VIDDEXA_LABELS@[j])@),
            decreases 5 - k,
        {
            if !has_label(labels, classes[k]) {
                assert(!has_label_spec(self.labels@, VIDDEXA_LABELS@[k as int]@));
                return Err(ImageManifestError::InvalidLabels);
            }
            k = k + 1;
        }
        Ok(())
    }
}

} // verus!
