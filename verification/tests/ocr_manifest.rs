use karma::engines::{ColorOrder, TensorLayout};
use karma::health::InferenceErrorKind;
use karma::manifest::{AssetKind, AssetManifest};
use karma::ocr_contract::{
    OcrLanguage, OcrManifestError, OcrModelProfile, OcrResourceLimits, OcrTensorElementType,
    OCR_MANIFEST_FORMAT_VERSION, OCR_SOURCE_REPOSITORY, OCR_UPSTREAM_MODEL_HOST,
};
use karma::ocr_manifest::{
    accept_ocr_bundle, OcrBundleFiles, OcrBundleManifest, OcrDictionaryManifest,
    OcrExportToolchain, OcrModelAsset, OcrReferenceArtifact, OcrReferenceArtifacts,
    OcrTensorContract, OcrThresholds, OcrUpstreamAsset, OCR_ACCURATE_DETECTOR_MODEL,
    OCR_ACCURATE_RECOGNIZER_MODEL, OCR_LIGHTWEIGHT_DETECTOR_MODEL,
    OCR_LIGHTWEIGHT_RECOGNIZER_MODEL, OCR_REFERENCE_DETECTOR_INPUT_PATH,
    OCR_REFERENCE_DETECTOR_OUTPUT_PATH, OCR_REFERENCE_RECOGNIZER_INPUT_PATH,
    OCR_REFERENCE_RECOGNIZER_OUTPUT_PATH,
};
use sha2::{Digest, Sha256};

fn asset(kind: AssetKind, version: &str, sha256: String) -> AssetManifest {
    AssetManifest {
        kind,
        version: version.into(),
        license: "Apache-2.0".into(),
        sha256,
    }
}

fn upstream(model: &str, sha: &str) -> OcrUpstreamAsset {
    OcrUpstreamAsset {
        download_url: format!("https://{OCR_UPSTREAM_MODEL_HOST}/ocr/{model}_infer.tar"),
        file_bytes: 1_024,
        sha256: sha.repeat(64),
    }
}

fn reference(path: &str, sha: &str) -> OcrReferenceArtifact {
    OcrReferenceArtifact {
        path: path.into(),
        file_bytes: 16,
        sha256: sha.repeat(64),
    }
}

fn bits3(values: [f32; 3]) -> [u32; 3] {
    [values[0].to_bits(), values[1].to_bits(), values[2].to_bits()]
}

fn detector_contract() -> OcrTensorContract {
    OcrTensorContract {
        input_name: "x".into(),
        output_name: "sigmoid_0.tmp_0".into(),
        layout: TensorLayout::Nchw,
        color_order: ColorOrder::Rgb,
        element_type: OcrTensorElementType::F32,
        channels: 3,
        minimum_height: 32,
        maximum_height: 640,
        minimum_width: 32,
        maximum_width: 640,
        dimension_multiple: 32,
        scale_bits: (1.0f32 / 255.0).to_bits(),
        mean_bits: bits3([0.485, 0.456, 0.406]),
        std_bits: bits3([0.229, 0.224, 0.225]),
    }
}

fn recognizer_contract() -> OcrTensorContract {
    OcrTensorContract {
        input_name: "x".into(),
        output_name: "softmax_0.tmp_0".into(),
        layout: TensorLayout::Nchw,
        color_order: ColorOrder::Rgb,
        element_type: OcrTensorElementType::F32,
        channels: 3,
        minimum_height: 48,
        maximum_height: 48,
        minimum_width: 1,
        maximum_width: 320,
        dimension_multiple: 1,
        scale_bits: (1.0f32 / 255.0).to_bits(),
        mean_bits: bits3([0.5, 0.5, 0.5]),
        std_bits: bits3([0.5, 0.5, 0.5]),
    }
}

fn valid_manifest() -> OcrBundleManifest {
    OcrBundleManifest {
        format_version: OCR_MANIFEST_FORMAT_VERSION,
        asset: asset(AssetKind::OcrBundle, "pp-ocrv5-mobile-1", "a".repeat(64)),
        profile: OcrModelProfile::Lightweight,
        source_repository: OCR_SOURCE_REPOSITORY.into(),
        source_revision: "0123456789abcdef0123456789abcdef01234567".into(),
        detector: OcrModelAsset {
            asset: asset(AssetKind::OcrDetector, "pp-ocrv5-mobile-det", "b".repeat(64)),
            model_name: OCR_LIGHTWEIGHT_DETECTOR_MODEL.into(),
            upstream: upstream("PP-OCRv5_mobile_det", "2"),
            file_name: "detector.onnx".into(),
            file_bytes: 1_024,
        },
        recognizer: OcrModelAsset {
            asset: asset(AssetKind::OcrRecognizer, "pp-ocrv5-mobile-rec", "c".repeat(64)),
            model_name: OCR_LIGHTWEIGHT_RECOGNIZER_MODEL.into(),
            upstream: upstream("PP-OCRv5_mobile_rec", "3"),
            file_name: "recognizer.onnx".into(),
            file_bytes: 1_024,
        },
        dictionary: OcrDictionaryManifest {
            asset: asset(AssetKind::OcrDictionary, "pp-ocrv5-mobile-dict", "d".repeat(64)),
            file_name: "dictionary.txt".into(),
            file_bytes: 64,
            entries: vec!["a".into(), "b".into()],
            blank_index: 0,
            languages: vec![
                OcrLanguage::English,
                OcrLanguage::ChineseSimplified,
                OcrLanguage::ChineseTraditional,
            ],
        },
        detector_contract: detector_contract(),
        recognizer_contract: recognizer_contract(),
        thresholds: OcrThresholds {
            probability_bits: 0.3f32.to_bits(),
            text_box_bits: 0.6f32.to_bits(),
            expansion_bits: 1.5f32.to_bits(),
            recognition_confidence_bits: 0.5f32.to_bits(),
        },
        resource_limits: OcrResourceLimits {
            maximum_text_boxes: 64,
            minimum_box_side_pixels: 6,
            minimum_box_area_pixels: 48,
            recognizer_height: 48,
            maximum_recognizer_width: 320,
            maximum_batch_size: 8,
            maximum_line_characters: 128,
            maximum_total_characters: 4_096,
        },
        reference_artifacts: OcrReferenceArtifacts {
            detector_input: reference(OCR_REFERENCE_DETECTOR_INPUT_PATH, "e"),
            detector_output: reference(OCR_REFERENCE_DETECTOR_OUTPUT_PATH, "f"),
            recognizer_input: reference(OCR_REFERENCE_RECOGNIZER_INPUT_PATH, "0"),
            recognizer_output: reference(OCR_REFERENCE_RECOGNIZER_OUTPUT_PATH, "1"),
        },
        export_toolchain: OcrExportToolchain {
            paddlepaddle_version: "3.0.0".into(),
            paddle2onnx_version: "1.2.11".into(),
            onnx_version: "1.17.0".into(),
            onnx_runtime_version: "1.22.0".into(),
        },
        opset: 18,
        minimum_runtime_version: "1.22".into(),
    }
}

#[test]
fn ocr_manifest_accepts_the_portable_contract() {
    assert_eq!(valid_manifest().validate(), Ok(()));
}

#[test]
fn ocr_manifest_rejects_untrusted_asset_and_source_metadata() {
    let mut manifest = valid_manifest();
    manifest.asset.license = "MIT".into();
    assert_eq!(manifest.validate(), Err(OcrManifestError::InvalidLicense));

    let mut manifest = valid_manifest();
    manifest.source_revision = "main".into();
    assert_eq!(manifest.validate(), Err(OcrManifestError::InvalidSource));

    let mut manifest = valid_manifest();
    manifest.detector.asset.sha256 = "A".repeat(64);
    assert_eq!(manifest.validate(), Err(OcrManifestError::InvalidAsset));

    let mut manifest = valid_manifest();
    manifest.recognizer.file_bytes = 0;
    assert_eq!(manifest.validate(), Err(OcrManifestError::InvalidAsset));
}

#[test]
fn ocr_manifest_rejects_wrong_file_names_and_paths() {
    let mut manifest = valid_manifest();
    manifest.detector.file_name = "detector-v2.onnx".into();
    assert_eq!(manifest.validate(), Err(OcrManifestError::InvalidAsset));

    let mut manifest = valid_manifest();
    manifest.recognizer.file_name = "../recognizer.onnx".into();
    assert_eq!(manifest.validate(), Err(OcrManifestError::InvalidAsset));

    let mut manifest = valid_manifest();
    manifest.dictionary.file_name = "nested/dictionary.txt".into();
    assert_eq!(manifest.validate(), Err(OcrManifestError::InvalidDictionary));
}

#[test]
fn ocr_manifest_rejects_invalid_runtime_and_tensor_contracts() {
    let mut manifest = valid_manifest();
    manifest.opset = 17;
    assert_eq!(manifest.validate(), Err(OcrManifestError::InvalidOpset));

    let mut manifest = valid_manifest();
    manifest.minimum_runtime_version = "1.21".into();
    assert_eq!(manifest.validate(), Err(OcrManifestError::InvalidRuntimeVersion));

    let mut manifest = valid_manifest();
    manifest.detector_contract.maximum_width = 639;
    assert_eq!(manifest.validate(), Err(OcrManifestError::InvalidDetectorContract));

    let mut manifest = valid_manifest();
    manifest.recognizer_contract.minimum_height = 47;
    assert_eq!(manifest.validate(), Err(OcrManifestError::InvalidRecognizerContract));

    let mut manifest = valid_manifest();
    manifest.recognizer_contract.std_bits[0] = f32::NAN.to_bits();
    assert_eq!(manifest.validate(), Err(OcrManifestError::InvalidRecognizerContract));
}

#[test]
fn ocr_manifest_rejects_invalid_dictionary_thresholds_and_limits() {
    let mut manifest = valid_manifest();
    manifest.dictionary.entries.push("a".into());
    assert_eq!(manifest.validate(), Err(OcrManifestError::InvalidDictionary));

    let mut manifest = valid_manifest();
    manifest.dictionary.languages = vec![OcrLanguage::English];
    assert_eq!(manifest.validate(), Err(OcrManifestError::InvalidDictionary));

    let mut manifest = valid_manifest();
    manifest.thresholds.probability_bits = 1.1f32.to_bits();
    assert_eq!(manifest.validate(), Err(OcrManifestError::InvalidThresholds));

    let mut manifest = valid_manifest();
    manifest.thresholds.expansion_bits = f32::INFINITY.to_bits();
    assert_eq!(manifest.validate(), Err(OcrManifestError::InvalidThresholds));

    let mut manifest = valid_manifest();
    manifest.resource_limits.maximum_batch_size = 9;
    assert_eq!(manifest.validate(), Err(OcrManifestError::InvalidResourceLimits));
}

#[test]
fn ocr_manifest_binds_each_profile_to_its_official_model_pair() {
    let mut manifest = valid_manifest();
    manifest.detector.model_name = OCR_ACCURATE_DETECTOR_MODEL.into();
    manifest.detector.upstream.download_url =
        format!("https://{OCR_UPSTREAM_MODEL_HOST}/ocr/{OCR_ACCURATE_DETECTOR_MODEL}_infer.tar");
    assert_eq!(manifest.validate(), Err(OcrManifestError::ModelProfileMismatch));

    let mut manifest = valid_manifest();
    manifest.profile = OcrModelProfile::Accurate;
    manifest.detector.model_name = OCR_ACCURATE_DETECTOR_MODEL.into();
    manifest.recognizer.model_name = OCR_ACCURATE_RECOGNIZER_MODEL.into();
    manifest.detector.upstream.download_url =
        format!("https://{OCR_UPSTREAM_MODEL_HOST}/ocr/{OCR_ACCURATE_DETECTOR_MODEL}_infer.tar");
    manifest.recognizer.upstream.download_url =
        format!("https://{OCR_UPSTREAM_MODEL_HOST}/ocr/{OCR_ACCURATE_RECOGNIZER_MODEL}_infer.tar");
    assert_eq!(manifest.validate(), Ok(()));
}

#[test]
fn ocr_manifest_rejects_invalid_reference_artifact_metadata() {
    let mut manifest = valid_manifest();
    manifest.reference_artifacts.detector_input.path = "reference/../detector-input.bin".into();
    assert_eq!(manifest.validate(), Err(OcrManifestError::InvalidReferenceArtifacts));

    let mut manifest = valid_manifest();
    manifest.reference_artifacts.detector_output.path = "reference/detector-output.bin".into();
    assert_eq!(manifest.validate(), Err(OcrManifestError::InvalidReferenceArtifacts));

    let mut manifest = valid_manifest();
    manifest.reference_artifacts.recognizer_input.file_bytes = 0;
    assert_eq!(manifest.validate(), Err(OcrManifestError::InvalidReferenceArtifacts));

    let mut manifest = valid_manifest();
    manifest.reference_artifacts.recognizer_output.sha256 = "A".repeat(64);
    assert_eq!(manifest.validate(), Err(OcrManifestError::InvalidReferenceArtifacts));
}

#[test]
fn ocr_manifest_rejects_wrong_format_version_or_source_repository() {
    let mut manifest = valid_manifest();
    manifest.format_version = 2;
    assert_eq!(manifest.validate(), Err(OcrManifestError::InvalidFormatVersion));

    let mut manifest = valid_manifest();
    manifest.source_repository = "https://example.invalid/PaddleOCR".into();
    assert_eq!(manifest.validate(), Err(OcrManifestError::InvalidSource));
}

#[test]
fn ocr_manifest_rejects_invalid_upstream_model_metadata() {
    let mut manifest = valid_manifest();
    manifest.detector.upstream.download_url =
        format!("http://{OCR_UPSTREAM_MODEL_HOST}/ocr/PP-OCRv5_mobile_det_infer.tar");
    assert_eq!(manifest.validate(), Err(OcrManifestError::InvalidUpstreamAsset));

    let mut manifest = valid_manifest();
    manifest.recognizer.upstream.download_url =
        "https://example.invalid/PP-OCRv5_mobile_rec_infer.tar".into();
    assert_eq!(manifest.validate(), Err(OcrManifestError::InvalidUpstreamAsset));

    let mut manifest = valid_manifest();
    manifest.detector.upstream.download_url =
        format!("https://user@{OCR_UPSTREAM_MODEL_HOST}/ocr/PP-OCRv5_mobile_det_infer.tar");
    assert_eq!(manifest.validate(), Err(OcrManifestError::InvalidUpstreamAsset));

    let mut manifest = valid_manifest();
    manifest.detector.upstream.download_url =
        format!("https://{OCR_UPSTREAM_MODEL_HOST}/ocr/PP-OCRv5_mobile_det_infer.tar?token=secret");
    assert_eq!(manifest.validate(), Err(OcrManifestError::InvalidUpstreamAsset));

    let mut manifest = valid_manifest();
    manifest.recognizer.upstream.download_url =
        format!("https://{OCR_UPSTREAM_MODEL_HOST}/ocr/PP-OCRv5_mobile_rec_infer.tar#fragment");
    assert_eq!(manifest.validate(), Err(OcrManifestError::InvalidUpstreamAsset));

    let mut manifest = valid_manifest();
    manifest.detector.upstream.file_bytes = 0;
    assert_eq!(manifest.validate(), Err(OcrManifestError::InvalidUpstreamAsset));

    let mut manifest = valid_manifest();
    manifest.recognizer.upstream.sha256 = "A".repeat(64);
    assert_eq!(manifest.validate(), Err(OcrManifestError::InvalidUpstreamAsset));
}

#[test]
fn ocr_manifest_rejects_upstream_archives_that_do_not_match_the_declared_model() {
    let mut manifest = valid_manifest();
    manifest.detector.upstream.download_url =
        format!("https://{OCR_UPSTREAM_MODEL_HOST}/ocr/{OCR_LIGHTWEIGHT_RECOGNIZER_MODEL}_infer.tar");
    assert_eq!(manifest.validate(), Err(OcrManifestError::InvalidUpstreamAsset));

    let mut manifest = valid_manifest();
    manifest.recognizer.upstream.download_url =
        format!("https://{OCR_UPSTREAM_MODEL_HOST}/ocr/{OCR_LIGHTWEIGHT_DETECTOR_MODEL}_infer.tar");
    assert_eq!(manifest.validate(), Err(OcrManifestError::InvalidUpstreamAsset));

    let mut manifest = valid_manifest();
    manifest.detector.upstream.download_url =
        format!("https://{OCR_UPSTREAM_MODEL_HOST}/ocr/unrelated_infer.tar");
    assert_eq!(manifest.validate(), Err(OcrManifestError::InvalidUpstreamAsset));
}

#[test]
fn ocr_manifest_rejects_missing_or_invalid_export_tool_versions() {
    let mut manifest = valid_manifest();
    manifest.export_toolchain.paddlepaddle_version.clear();
    assert_eq!(manifest.validate(), Err(OcrManifestError::InvalidExportToolchain));

    let mut manifest = valid_manifest();
    manifest.export_toolchain.paddle2onnx_version = "1.2.11 beta".into();
    assert_eq!(manifest.validate(), Err(OcrManifestError::InvalidExportToolchain));

    let mut manifest = valid_manifest();
    manifest.export_toolchain.onnx_version = "1".repeat(129);
    assert_eq!(manifest.validate(), Err(OcrManifestError::InvalidExportToolchain));

    let mut manifest = valid_manifest();
    manifest.export_toolchain.onnx_runtime_version = "1/22/0".into();
    assert_eq!(manifest.validate(), Err(OcrManifestError::InvalidExportToolchain));
}

#[test]
fn ocr_manifest_accepts_a_ctc_blank_after_dictionary_entries() {
    let mut manifest = valid_manifest();
    manifest.dictionary.blank_index = manifest.dictionary.entries.len();
    assert_eq!(manifest.validate(), Ok(()));
}

#[test]
fn ocr_manifest_rejects_a_ctc_blank_past_dictionary_entries() {
    let mut manifest = valid_manifest();
    manifest.dictionary.blank_index = manifest.dictionary.entries.len() + 1;
    assert_eq!(manifest.validate(), Err(OcrManifestError::InvalidDictionary));
}

const LICENSE: &[u8] = b"Apache License\nVersion 2.0\n";

fn digest(bytes: &[u8]) -> String {
    format!("{:x}", Sha256::digest(bytes))
}

fn bundle_files() -> OcrBundleFiles {
    OcrBundleFiles {
        license: LICENSE.to_vec(),
        detector: b"detector".to_vec(),
        recognizer: b"recognizer".to_vec(),
        dictionary: b"a\nb\n".to_vec(),
        detector_input: b"detector input".to_vec(),
        detector_output: b"detector output".to_vec(),
        recognizer_input: b"recognizer input".to_vec(),
        recognizer_output: b"recognizer output".to_vec(),
    }
}

fn bundle_manifest(files: &OcrBundleFiles) -> OcrBundleManifest {
    let mut manifest = valid_manifest();
    manifest.detector.asset.sha256 = digest(&files.detector);
    manifest.detector.file_bytes = files.detector.len() as u64;
    manifest.recognizer.asset.sha256 = digest(&files.recognizer);
    manifest.recognizer.file_bytes = files.recognizer.len() as u64;
    manifest.dictionary.asset.sha256 = digest(&files.dictionary);
    manifest.dictionary.file_bytes = files.dictionary.len() as u64;
    let references = &mut manifest.reference_artifacts;
    for (artifact, bytes) in [
        (&mut references.detector_input, &files.detector_input),
        (&mut references.detector_output, &files.detector_output),
        (&mut references.recognizer_input, &files.recognizer_input),
        (&mut references.recognizer_output, &files.recognizer_output),
    ] {
        artifact.sha256 = digest(bytes);
        artifact.file_bytes = bytes.len() as u64;
    }
    manifest
}

#[test]
fn verifies_and_retains_a_complete_bundle() {
    let files = bundle_files();
    let bundle = accept_ocr_bundle(bundle_manifest(&files), files).unwrap();
    assert_eq!(bundle.profile(), OcrModelProfile::Lightweight);
    assert_eq!(bundle.manifest().detector.file_name, "detector.onnx");
    assert_eq!(bundle.files().detector, b"detector".to_vec());
    assert_eq!(bundle.dictionary().entry_for_class(1), Some("a"));
}

#[test]
fn every_model_dictionary_and_reference_rejects_changed_bytes() {
    let cases: [(fn(&mut OcrBundleFiles), InferenceErrorKind); 7] = [
        (|f| f.detector = b"changed".to_vec(), InferenceErrorKind::OcrAssetHashMismatch),
        (|f| f.recognizer = b"changed".to_vec(), InferenceErrorKind::OcrAssetHashMismatch),
        (|f| f.dictionary = b"changed".to_vec(), InferenceErrorKind::OcrAssetHashMismatch),
        (|f| f.detector_input = b"changed".to_vec(), InferenceErrorKind::OcrReferenceInvalid),
        (|f| f.detector_output = b"changed".to_vec(), InferenceErrorKind::OcrReferenceInvalid),
        (|f| f.recognizer_input = b"changed".to_vec(), InferenceErrorKind::OcrReferenceInvalid),
        (|f| f.recognizer_output = b"changed".to_vec(), InferenceErrorKind::OcrReferenceInvalid),
    ];
    for (change, kind) in cases {
        let files = bundle_files();
        let manifest = bundle_manifest(&files);
        let mut changed = files;
        change(&mut changed);
        assert_eq!(accept_ocr_bundle(manifest, changed).err().map(|e| e.kind()), Some(kind));
    }
}

#[test]
fn a_bundle_needs_a_license_a_valid_manifest_and_its_dictionary_entries() {
    let files = bundle_files();
    let manifest = bundle_manifest(&files);
    let mut unlicensed = bundle_files();
    unlicensed.license = Vec::new();
    assert_eq!(
        accept_ocr_bundle(manifest.clone(), unlicensed).err().map(|e| e.kind()),
        Some(InferenceErrorKind::OcrLicenseInvalid)
    );

    let mut invalid = manifest.clone();
    invalid.opset = 17;
    assert_eq!(
        accept_ocr_bundle(invalid, bundle_files()).err().map(|e| e.kind()),
        Some(InferenceErrorKind::OcrContractInvalid)
    );

    let mut other_entries = bundle_files();
    other_entries.dictionary = b"a\nc\n".to_vec();
    let mut manifest = bundle_manifest(&other_entries);
    manifest.dictionary.entries = vec!["a".into(), "b".into()];
    assert_eq!(
        accept_ocr_bundle(manifest, other_entries).err().map(|e| e.kind()),
        Some(InferenceErrorKind::OcrDictionaryInvalid)
    );
}
