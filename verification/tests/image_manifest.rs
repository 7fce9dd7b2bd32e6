use karma::assets::{VerifiedImageModel, MAX_MODEL_BYTES};
use karma::image_session::{check_image_session, TensorPort};
use karma::health::InferenceErrorKind;
use sha2::{Digest, Sha256};
use karma::engines::{ColorOrder, ImageManifestError, ModelLabel, TensorLayout, VIDDEXA_LABELS, VIDDEXA_REPOSITORY, VIDDEXA_REVISION};
use karma::image_manifest::{
    ImageInputContract, ImageModelManifest, VIDDEXA_MEAN_BITS, VIDDEXA_SCALE_BITS, VIDDEXA_STD_BITS,
};
use karma::manifest::{AssetKind, AssetManifest};

const VIDDEXA_SCALE: f32 = 1.0 / 255.0;
const VIDDEXA_MEAN: [f32; 3] = [0.485, 0.456, 0.406];
const VIDDEXA_STD: [f32; 3] = [0.47853944, 0.4732864, 0.47434163];

fn bits(values: [f32; 3]) -> [u32; 3] {
    [values[0].to_bits(), values[1].to_bits(), values[2].to_bits()]
}

fn valid_manifest() -> ImageModelManifest {
    ImageModelManifest {
        asset: AssetManifest {
            kind: AssetKind::ImageClassifier,
            version: "viddexa-nano-1".into(),
            license: "Apache-2.0".into(),
            sha256: "a".repeat(64),
        },
        source_repository: VIDDEXA_REPOSITORY.into(),
        source_revision: VIDDEXA_REVISION.into(),
        file_name: "model.onnx".into(),
        file_bytes: 1_024,
        opset: 18,
        minimum_runtime_version: "1.22".into(),
        input: ImageInputContract {
            name: "pixel_values".into(),
            shape: [1, 3, 224, 224],
            layout: TensorLayout::Nchw,
            color_order: ColorOrder::Rgb,
            scale_bits: VIDDEXA_SCALE.to_bits(),
            mean_bits: bits(VIDDEXA_MEAN),
            std_bits: bits(VIDDEXA_STD),
        },
        output_name: "logits".into(),
        labels: VIDDEXA_LABELS
            .iter()
            .enumerate()
            .map(|(index, name)| ModelLabel {
                index,
                name: (*name).into(),
            })
            .collect(),
    }
}

#[test]
fn normalization_bits_are_the_model_values() {
    assert_eq!(VIDDEXA_SCALE_BITS, VIDDEXA_SCALE.to_bits());
    assert_eq!(VIDDEXA_MEAN_BITS, bits(VIDDEXA_MEAN));
    assert_eq!(VIDDEXA_STD_BITS, bits(VIDDEXA_STD));
}

#[test]
fn image_manifest_valid_manifest_passes() {
    assert_eq!(valid_manifest().validate(), Ok(()));
}

#[test]
fn rejects_duplicate_or_missing_required_labels() {
    let mut value = valid_manifest();
    value.labels[4].name = "normal".into();

    assert_eq!(value.validate(), Err(ImageManifestError::InvalidLabels));
}

#[test]
fn rejects_repeated_or_out_of_range_label_indices() {
    let mut value = valid_manifest();
    value.labels[4].index = 0;
    assert_eq!(value.validate(), Err(ImageManifestError::InvalidLabels));

    let mut value = valid_manifest();
    value.labels[4].index = 5;
    assert_eq!(value.validate(), Err(ImageManifestError::InvalidLabels));

    let mut value = valid_manifest();
    value.labels.reverse();
    assert_eq!(value.validate(), Ok(()));

    let mut value = valid_manifest();
    value.labels.pop();
    assert_eq!(value.validate(), Err(ImageManifestError::InvalidLabels));
}

#[test]
fn rejects_non_static_nchw_shape() {
    let mut value = valid_manifest();
    value.input.shape = [2, 3, 224, 224];

    assert_eq!(value.validate(), Err(ImageManifestError::InvalidInputShape));
}

#[test]
fn rejects_invalid_normalization() {
    let mut value = valid_manifest();
    value.input.std_bits[1] = 0.473f32.to_bits();

    assert_eq!(
        value.validate(),
        Err(ImageManifestError::InvalidNormalization)
    );

    let mut value = valid_manifest();
    value.input.scale_bits = 1.0f32.to_bits();
    assert_eq!(
        value.validate(),
        Err(ImageManifestError::InvalidNormalization)
    );
}

#[test]
fn rejects_unpinned_source_or_unsafe_file() {
    let mut value = valid_manifest();
    value.source_revision = "main".into();
    assert_eq!(value.validate(), Err(ImageManifestError::InvalidSource));

    let mut value = valid_manifest();
    value.file_name = "../model.onnx".into();
    assert_eq!(value.validate(), Err(ImageManifestError::InvalidFile));
}

#[test]
fn rejects_zero_file_length_and_wrong_opset() {
    let mut value = valid_manifest();
    value.file_bytes = 0;
    assert_eq!(value.validate(), Err(ImageManifestError::InvalidFile));

    let mut value = valid_manifest();
    value.opset = 17;
    assert_eq!(value.validate(), Err(ImageManifestError::InvalidOpset));
}

#[test]
fn rejects_blank_tensor_names_wrong_runtime_and_foreign_assets() {
    let mut value = valid_manifest();
    value.output_name = " \t".into();
    assert_eq!(value.validate(), Err(ImageManifestError::InvalidTensorName));

    let mut value = valid_manifest();
    value.minimum_runtime_version = "1.21".into();
    assert_eq!(value.validate(), Err(ImageManifestError::InvalidRuntimeVersion));

    let mut value = valid_manifest();
    value.asset.kind = AssetKind::WordPack;
    assert_eq!(value.validate(), Err(ImageManifestError::InvalidAsset));

    let value = valid_manifest();
    assert_eq!(
        value.validate_with_file_name(false),
        Err(ImageManifestError::InvalidFile)
    );
}

fn model_manifest(model: &[u8]) -> ImageModelManifest {
    let mut value = valid_manifest();
    value.asset.sha256 = format!("{:x}", Sha256::digest(model));
    value.file_bytes = model.len() as u64;
    value
}

#[test]
fn verified_model_exposes_only_checked_bytes() {
    let verified = VerifiedImageModel::new(model_manifest(b"model"), b"model".to_vec()).unwrap();

    assert_eq!(verified.manifest().asset.version, "viddexa-nano-1");
    assert_eq!(verified.model_bytes(), b"model");
}

#[test]
fn verified_model_refuses_changed_length_or_hash() {
    assert_eq!(
        VerifiedImageModel::new(model_manifest(b"model"), b"changed".to_vec())
            .err()
            .map(|error| error.kind()),
        Some(InferenceErrorKind::ModelHashMismatch)
    );

    let mut wrong_hash = model_manifest(b"changed");
    wrong_hash.asset.sha256 = "b".repeat(64);
    assert_eq!(
        VerifiedImageModel::new(wrong_hash, b"changed".to_vec())
            .err()
            .map(|error| error.kind()),
        Some(InferenceErrorKind::ModelHashMismatch)
    );
}

#[test]
fn verified_model_refuses_an_oversized_declaration() {
    let mut value = model_manifest(b"model");
    value.file_bytes = MAX_MODEL_BYTES as u64 + 1;
    assert_eq!(
        VerifiedImageModel::new(value, b"model".to_vec())
            .err()
            .map(|error| error.kind()),
        Some(InferenceErrorKind::ModelHashMismatch)
    );
}

#[test]
fn invalid_manifest_is_rejected_before_the_bytes_are_checked() {
    let mut value = model_manifest(b"model");
    value.opset = 17;
    assert_eq!(
        VerifiedImageModel::new(value, b"changed".to_vec())
            .err()
            .map(|error| error.kind()),
        Some(InferenceErrorKind::ManifestInvalid)
    );
}

fn port(name: &str, shape: Option<Vec<i64>>) -> TensorPort {
    TensorPort {
        name: name.into(),
        is_f32_tensor: true,
        shape,
    }
}

#[test]
fn session_must_match_the_manifest_names_types_and_shapes() {
    let manifest = valid_manifest();
    let input = || port("pixel_values", Some(vec![1, 3, 224, 224]));
    let output = || port("logits", Some(vec![1, 5]));
    assert_eq!(check_image_session(&[input()], &[output()], &manifest), Ok(()));

    let mismatch = Some(InferenceErrorKind::ModelContractMismatch);
    let kind = |inputs: &[TensorPort], outputs: &[TensorPort]| {
        check_image_session(inputs, outputs, &manifest).err().map(|error| error.kind())
    };
    assert_eq!(kind(&[port("wrong_input", Some(vec![1, 3, 224, 224]))], &[output()]), mismatch);
    assert_eq!(kind(&[port("pixel_values", Some(vec![-1, 3, 224, 224]))], &[output()]), mismatch);
    assert_eq!(kind(&[port("pixel_values", None)], &[output()]), mismatch);
    assert_eq!(kind(&[input()], &[port("logits", Some(vec![1, 6]))]), mismatch);
    assert_eq!(kind(&[input(), input()], &[output()]), mismatch);
    let mut integer_output = output();
    integer_output.is_f32_tensor = false;
    assert_eq!(kind(&[input()], &[integer_output]), mismatch);
}

#[test]
fn class_names_follow_label_indices() {
    let mut manifest = model_manifest(b"model");
    manifest.labels.reverse();
    let verified = VerifiedImageModel::new(manifest, b"model".to_vec()).unwrap();
    assert_eq!(
        verified.labels_in_index_order(),
        vec!["normal", "hentai", "porn", "sexy", "drawing"]
    );
}
