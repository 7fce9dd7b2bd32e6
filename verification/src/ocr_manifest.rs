use vstd::prelude::*;

use crate::assets::{bytes_match, bytes_match_manifest};
use crate::ctc::{dictionary_ok as ctc_dictionary_ok, lines_of, split_lines, CtcDictionary};
use crate::engines::{ColorOrder, TensorLayout};
use crate::health::{InferenceError, InferenceErrorKind};
use crate::manifest::{asset_verdict, sha256_hex_ok, AssetKind, AssetManifest};
use crate::ocr_contract::{
    exact_limits, OcrLanguage, OcrManifestError, OcrModelProfile, OcrResourceLimits, OcrTensorElementType,
    MAX_OCR_DICTIONARY_BYTES, MAX_OCR_EXPORT_TOOL_VERSION_LENGTH, MAX_OCR_MODEL_BYTES, OCR_MANIFEST_FORMAT_VERSION,
    OCR_SOURCE_REPOSITORY, OCR_UPSTREAM_MODEL_HOST,
};
use crate::text::{all_lower_hex_bytes, byte_len, is_ascii_alnum_byte, is_blank, is_blank_spec, lower_hex_bytes, str_eq, utf8};

verus! {

// ---------------------------------------------------------------------------
// Constants of the OCR bundle format.
// ---------------------------------------------------------------------------

/// The license every OCR bundle asset carries.
pub const APACHE_2_LICENSE: &'static str = "Apache-2.0";

/// The ONNX opset the OCR models are exported with.
pub const OCR_OPSET: u16 = 18;

/// The oldest ONNX Runtime the OCR models run on.
pub const OCR_RUNTIME_VERSION: &'static str = "1.22";

/// The upstream name of the lightweight detector model.
pub const OCR_LIGHTWEIGHT_DETECTOR_MODEL: &'static str = "PP-OCRv5_mobile_det";

/// The upstream name of the lightweight recognizer model.
pub const OCR_LIGHTWEIGHT_RECOGNIZER_MODEL: &'static str = "PP-OCRv5_mobile_rec";

/// The upstream name of the accurate detector model.
pub const OCR_ACCURATE_DETECTOR_MODEL: &'static str = "PP-OCRv5_server_det";

/// The upstream name of the accurate recognizer model.
pub const OCR_ACCURATE_RECOGNIZER_MODEL: &'static str = "PP-OCRv5_server_rec";

/// Where in a bundle the detector's reference input lies.
pub const OCR_REFERENCE_DETECTOR_INPUT_PATH: &'static str = "reference/detector-input.bin";

/// Where in a bundle the detector's reference output lies.
pub const OCR_REFERENCE_DETECTOR_OUTPUT_PATH: &'static str = "reference/detector-output.json";

/// Where in a bundle the recognizer's reference input lies.
pub const OCR_REFERENCE_RECOGNIZER_INPUT_PATH: &'static str = "reference/recognizer-input.bin";

/// Where in a bundle the recognizer's reference output lies.
pub const OCR_REFERENCE_RECOGNIZER_OUTPUT_PATH: &'static str = "reference/recognizer-output.json";

/// The largest reference file a bundle may declare.
pub const MAX_OCR_REFERENCE_BYTES: u64 = 268_435_456;

/// The largest license file that is read.
pub const MAX_OCR_LICENSE_BYTES: usize = 65_536;

/// The bits of the `f32` 1.0.
pub const F32_ONE_BITS: u32 = 0x3f80_0000;

/// The bits of the `f32` 3.0.
pub const F32_THREE_BITS: u32 = 0x4040_0000;

/// The bits of the `f32` -0.0.
pub const F32_NEGATIVE_ZERO_BITS: u32 = 0x8000_0000;

// ---------------------------------------------------------------------------
// The manifest.
// ---------------------------------------------------------------------------

/// The upstream archive a model was exported from.
#[derive(Debug, Clone, PartialEq, Eq)]
pub struct OcrUpstreamAsset {
    pub download_url: String,
    pub file_bytes: u64,
    pub sha256: String,
}

/// A model file of the bundle.
#[derive(Debug, Clone, PartialEq, Eq)]
pub struct OcrModelAsset {
    pub asset: AssetManifest,
    pub model_name: String,
    pub upstream: OcrUpstreamAsset,
    pub file_name: String,
    pub file_bytes: u64,
}

/// The dictionary file of the bundle and the entries it must hold.
#[derive(Debug, Clone, PartialEq, Eq)]
pub struct OcrDictionaryManifest {
    pub asset: AssetManifest,
    pub file_name: String,
    pub file_bytes: u64,
    pub entries: Vec<String>,
    pub blank_index: usize,
    pub languages: Vec<OcrLanguage>,
}

/// The input tensor a model takes. The normalization values are `f32`, held by their bits.
#[derive(Debug, Clone, PartialEq, Eq)]
pub struct OcrTensorContract {
    pub input_name: String,
    pub output_name: String,
    pub layout: TensorLayout,
    pub color_order: ColorOrder,
    pub element_type: OcrTensorElementType,
    pub channels: usize,
    pub minimum_height: usize,
    pub maximum_height: usize,
    pub minimum_width: usize,
    pub maximum_width: usize,
    pub dimension_multiple: usize,
    pub scale_bits: u32,
    pub mean_bits: [u32; 3],
    pub std_bits: [u32; 3],
}

/// The `f32` thresholds of detection and recognition, held by their bits.
#[derive(Debug, Clone, Copy, PartialEq, Eq, Structural)]
pub struct OcrThresholds {
    pub probability_bits: u32,
    pub text_box_bits: u32,
    pub expansion_bits: u32,
    pub recognition_confidence_bits: u32,
}

/// A reference file of the bundle.
#[derive(Debug, Clone, PartialEq, Eq)]
pub struct OcrReferenceArtifact {
    pub path: String,
    pub file_bytes: u64,
    pub sha256: String,
}

/// The reference inputs and outputs the models are checked against before use.
#[derive(Debug, Clone, PartialEq, Eq)]
pub struct OcrReferenceArtifacts {
    pub detector_input: OcrReferenceArtifact,
    pub detector_output: OcrReferenceArtifact,
    pub recognizer_input: OcrReferenceArtifact,
    pub recognizer_output: OcrReferenceArtifact,
}

/// The tool versions the models were exported with.
#[derive(Debug, Clone, PartialEq, Eq)]
pub struct OcrExportToolchain {
    pub paddlepaddle_version: String,
    pub paddle2onnx_version: String,
    pub onnx_version: String,
    pub onnx_runtime_version: String,
}

/// The manifest of an OCR bundle.
#[derive(Debug, Clone, PartialEq, Eq)]
pub struct OcrBundleManifest {
    pub format_version: u16,
    pub asset: AssetManifest,
    pub profile: OcrModelProfile,
    pub source_repository: String,
    pub source_revision: String,
    pub detector: OcrModelAsset,
    pub recognizer: OcrModelAsset,
    pub dictionary: OcrDictionaryManifest,
    pub detector_contract: OcrTensorContract,
    pub recognizer_contract: OcrTensorContract,
    pub thresholds: OcrThresholds,
    pub resource_limits: OcrResourceLimits,
    pub reference_artifacts: OcrReferenceArtifacts,
    pub export_toolchain: OcrExportToolchain,
    pub opset: u16,
    pub minimum_runtime_version: String,
}

// ---------------------------------------------------------------------------
// What a valid manifest is.
// ---------------------------------------------------------------------------

/// The asset's own metadata is valid, of the expected kind and Apache-2.0 licensed; a wrong
/// license is told apart from any other fault.
pub open spec fn asset_check(asset: AssetManifest, kind: AssetKind) -> Result<(), OcrManifestError> {
    if asset_verdict(asset) is Err {
        Err(OcrManifestError::InvalidAsset)
    } else if asset.license@ != APACHE_2_LICENSE@ {
        Err(OcrManifestError::InvalidLicense)
    } else if asset.kind != kind {
        Err(OcrManifestError::InvalidAsset)
    } else {
        Ok(())
    }
}

/// A pinned source revision: 40 lower-case hexadecimal digits.
pub open spec fn pinned_revision(value: Seq<char>) -> bool {
    utf8(value).len() == 40 && all_lower_hex_bytes(value)
}

/// The archive a model of this name is downloaded as.
pub open spec fn upstream_url(model_name: Seq<char>) -> Seq<char> {
    "https://"@ + OCR_UPSTREAM_MODEL_HOST@ + "/ocr/"@ + model_name + "_infer.tar"@
}

/// The upstream archive is the official archive of the declared model, with a length and a
/// lower-case SHA-256.
pub open spec fn upstream_ok(model: OcrModelAsset) -> bool {
    &&& model.upstream.download_url@ == upstream_url(model.model_name@)
    &&& model.upstream.file_bytes > 0
    &&& sha256_hex_ok(model.upstream.sha256@)
}

/// The verdict on a model file of the bundle: its asset, then its file, which has its fixed
/// name and a length within the limit, then its upstream archive.
pub open spec fn model_check(model: OcrModelAsset, kind: AssetKind, file_name: Seq<char>) -> Result<(), OcrManifestError> {
    if asset_check(model.asset, kind) is Err {
        asset_check(model.asset, kind)
    } else if model.file_bytes == 0 || model.file_bytes > MAX_OCR_MODEL_BYTES || model.file_name@ != file_name {
        Err(OcrManifestError::InvalidAsset)
    } else if !upstream_ok(model) {
        Err(OcrManifestError::InvalidUpstreamAsset)
    } else {
        Ok(())
    }
}

/// The dictionary covers exactly English, Simplified and Traditional Chinese.
pub open spec fn languages_ok(languages: Seq<OcrLanguage>) -> bool {
    &&& languages.len() == 3
    &&& languages.contains(OcrLanguage::English)
    &&& languages.contains(OcrLanguage::ChineseSimplified)
    &&& languages.contains(OcrLanguage::ChineseTraditional)
}

/// The dictionary entries: at least one, none empty, no two the same.
pub open spec fn entries_ok(entries: Seq<String>) -> bool {
    &&& entries.len() > 0
    &&& forall|i: int| 0 <= i < entries.len() ==> (#[trigger] entries[i])@.len() > 0
    &&& forall|i: int, j: int| 0 <= i < j < entries.len() ==> (#[trigger] entries[i])@ != (#[trigger] entries[j])@
}

/// The dictionary: a valid Apache-2.0 dictionary asset named `dictionary.txt` of a length
/// within the limit, with valid entries, a CTC blank at most one past the entries, and the
/// supported languages.
pub open spec fn dictionary_ok(d: OcrDictionaryManifest) -> bool {
    &&& asset_check(d.asset, AssetKind::OcrDictionary) is Ok
    &&& d.file_bytes > 0
    &&& d.file_bytes <= MAX_OCR_DICTIONARY_BYTES
    &&& d.file_name@ == "dictionary.txt"@
    &&& entries_ok(d.entries@)
    &&& d.blank_index <= d.entries@.len()
    &&& languages_ok(d.languages@)
}

/// The bits of a finite `f32`.
pub open spec fn finite_bits(bits: u32) -> bool {
    bits % 0x8000_0000 < 0x7f80_0000
}

/// The bits of a finite, non-zero `f32`.
pub open spec fn finite_nonzero_bits(bits: u32) -> bool {
    0 < bits % 0x8000_0000 < 0x7f80_0000
}

/// Finite normalization values, and no zero deviation.
pub open spec fn normalization_finite(c: OcrTensorContract) -> bool {
    &&& finite_bits(c.scale_bits)
    &&& forall|k: int| 0 <= k < 3 ==> finite_bits(#[trigger] c.mean_bits@[k])
    &&& forall|k: int| 0 <= k < 3 ==> finite_nonzero_bits(#[trigger] c.std_bits@[k])
}

/// The common part of both tensor contracts: tensor names that are not blank, and
/// three-channel NCHW `f32` RGB input with finite normalization.
pub open spec fn tensor_basics_ok(c: OcrTensorContract) -> bool {
    &&& !is_blank_spec(c.input_name@)
    &&& !is_blank_spec(c.output_name@)
    &&& c.layout == TensorLayout::Nchw
    &&& c.color_order == ColorOrder::Rgb
    &&& c.element_type == OcrTensorElementType::F32
    &&& c.channels == 3
    &&& normalization_finite(c)
}

/// The detector contract: sizes that are multiples of 32 between 32 and 640, minimum before
/// maximum.
pub open spec fn detector_contract_ok(c: OcrTensorContract) -> bool {
    &&& tensor_basics_ok(c)
    &&& c.dimension_multiple == 32
    &&& c.minimum_height >= 32
    &&& c.maximum_height <= 640
    &&& c.minimum_height <= c.maximum_height
    &&& c.minimum_width >= 32
    &&& c.maximum_width <= 640
    &&& c.minimum_width <= c.maximum_width
    &&& c.minimum_height % 32 == 0
    &&& c.maximum_height % 32 == 0
    &&& c.minimum_width % 32 == 0
    &&& c.maximum_width % 32 == 0
}

/// The recognizer contract: lines exactly 48 pixels high and 1 to 320 wide.
pub open spec fn recognizer_contract_ok(c: OcrTensorContract) -> bool {
    &&& tensor_basics_ok(c)
    &&& c.minimum_height == 48
    &&& c.maximum_height == 48
    &&& c.minimum_width == 1
    &&& c.maximum_width == 320
    &&& c.dimension_multiple == 1
}

/// The bits of an `f32` in `0.0 ..= 1.0`: a non-negative value's bits order as the values
/// do, and -0.0 lies in the range too.
pub open spec fn unit_interval_bits(bits: u32) -> bool {
    bits <= F32_ONE_BITS || bits == F32_NEGATIVE_ZERO_BITS
}

/// The thresholds: probability, text-box score and recognition confidence in `0.0 ..= 1.0`,
/// and the box expansion in `1.0 ..= 3.0`; all finite.
pub open spec fn thresholds_ok(t: OcrThresholds) -> bool {
    &&& unit_interval_bits(t.probability_bits)
    &&& unit_interval_bits(t.text_box_bits)
    &&& F32_ONE_BITS <= t.expansion_bits <= F32_THREE_BITS
    &&& unit_interval_bits(t.recognition_confidence_bits)
}

/// A reference file at its fixed path, with a length within the limit and a lower-case
/// SHA-256.
pub open spec fn reference_ok(r: OcrReferenceArtifact, path: Seq<char>) -> bool {
    &&& r.path@ == path
    &&& 0 < r.file_bytes <= MAX_OCR_REFERENCE_BYTES
    &&& sha256_hex_ok(r.sha256@)
}

/// The four reference files.
pub open spec fn references_ok(r: OcrReferenceArtifacts) -> bool {
    &&& reference_ok(r.detector_input, OCR_REFERENCE_DETECTOR_INPUT_PATH@)
    &&& reference_ok(r.detector_output, OCR_REFERENCE_DETECTOR_OUTPUT_PATH@)
    &&& reference_ok(r.recognizer_input, OCR_REFERENCE_RECOGNIZER_INPUT_PATH@)
    &&& reference_ok(r.recognizer_output, OCR_REFERENCE_RECOGNIZER_OUTPUT_PATH@)
}

/// A byte that may stand in a tool version: an ASCII letter or digit, `.`, `-` or `+`.
pub open spec fn version_byte(b: u8) -> bool {
    is_ascii_alnum_byte(b) || b == 46u8 || b == 45u8 || b == 43u8
}

/// A tool version: 1 to 128 bytes, each a version byte.
pub open spec fn tool_version_ok(value: Seq<char>) -> bool {
    &&& 0 < utf8(value).len() <= MAX_OCR_EXPORT_TOOL_VERSION_LENGTH
    &&& forall|i: int| 0 <= i < utf8(value).len() ==> version_byte(#[trigger] utf8(value)[i])
}

/// The four tool versions.
pub open spec fn toolchain_ok(t: OcrExportToolchain) -> bool {
    &&& tool_version_ok(t.paddlepaddle_version@)
    &&& tool_version_ok(t.paddle2onnx_version@)
    &&& tool_version_ok(t.onnx_version@)
    &&& tool_version_ok(t.onnx_runtime_version@)
}

/// The model pair of a profile.
pub open spec fn profile_models(profile: OcrModelProfile) -> (Seq<char>, Seq<char>) {
    match profile {
        OcrModelProfile::Lightweight => (OCR_LIGHTWEIGHT_DETECTOR_MODEL@, OCR_LIGHTWEIGHT_RECOGNIZER_MODEL@),
        OcrModelProfile::Accurate => (OCR_ACCURATE_DETECTOR_MODEL@, OCR_ACCURATE_RECOGNIZER_MODEL@),
    }
}

/// The verdict on an OCR bundle manifest, in the order the checks are made.
pub open spec fn ocr_manifest_verdict(m: OcrBundleManifest) -> Result<(), OcrManifestError> {
    if m.format_version != OCR_MANIFEST_FORMAT_VERSION {
        Err(OcrManifestError::InvalidFormatVersion)
    } else if asset_check(m.asset, AssetKind::OcrBundle) is Err {
        asset_check(m.asset, AssetKind::OcrBundle)
    } else if m.source_repository@ != OCR_SOURCE_REPOSITORY@ || !pinned_revision(m.source_revision@) {
        Err(OcrManifestError::InvalidSource)
    } else if model_check(m.detector, AssetKind::OcrDetector, "detector.onnx"@) is Err {
        model_check(m.detector, AssetKind::OcrDetector, "detector.onnx"@)
    } else if model_check(m.recognizer, AssetKind::OcrRecognizer, "recognizer.onnx"@) is Err {
        model_check(m.recognizer, AssetKind::OcrRecognizer, "recognizer.onnx"@)
    } else if !dictionary_ok(m.dictionary) {
        Err(OcrManifestError::InvalidDictionary)
    } else if m.opset != OCR_OPSET {
        Err(OcrManifestError::InvalidOpset)
    } else if m.minimum_runtime_version@ != OCR_RUNTIME_VERSION@ {
        Err(OcrManifestError::InvalidRuntimeVersion)
    } else if !detector_contract_ok(m.detector_contract) {
        Err(OcrManifestError::InvalidDetectorContract)
    } else if !recognizer_contract_ok(m.recognizer_contract) {
        Err(OcrManifestError::InvalidRecognizerContract)
    } else if !thresholds_ok(m.thresholds) {
        Err(OcrManifestError::InvalidThresholds)
    } else if !exact_limits(m.resource_limits) {
        Err(OcrManifestError::InvalidResourceLimits)
    } else if !references_ok(m.reference_artifacts) {
        Err(OcrManifestError::InvalidReferenceArtifacts)
    } else if !toolchain_ok(m.export_toolchain) {
        Err(OcrManifestError::InvalidExportToolchain)
    } else if (m.detector.model_name@, m.recognizer.model_name@) != profile_models(m.profile) {
        Err(OcrManifestError::ModelProfileMismatch)
    } else {
        Ok(())
    }
}

// ---------------------------------------------------------------------------
// Checking a manifest.
// ---------------------------------------------------------------------------

fn check_asset(asset: &AssetManifest, kind: AssetKind) -> (r: Result<(), OcrManifestError>)
    ensures
        r == asset_check(*asset, kind),
{
    if asset.validate().is_err() {
        return Err(OcrManifestError::InvalidAsset);
    }
    if !str_eq(asset.license.as_str(), APACHE_2_LICENSE) {
        return Err(OcrManifestError::InvalidLicense);
    }
    if asset.kind != kind {
        return Err(OcrManifestError::InvalidAsset);
    }
    Ok(())
}

fn is_lower_sha256(value: &str) -> (ok: bool)
    ensures
        ok == sha256_hex_ok(value@),
{
    byte_len(value) == 64 && lower_hex_bytes(value)
}

fn check_upstream(model: &OcrModelAsset) -> (ok: bool)
    ensures
        ok == upstream_ok(*model),
{
    let mut expected = String::from_str("https://");
    expected.append(OCR_UPSTREAM_MODEL_HOST);
    expected.append("/ocr/");
    expected.append(model.model_name.as_str());
    expected.append("_infer.tar");
    proof {
        assert(expected@ =~= upstream_url(model.model_name@));
    }
    str_eq(model.upstream.download_url.as_str(), expected.as_str()) && model.upstream.file_bytes > 0
        && is_lower_sha256(model.upstream.sha256.as_str())
}

fn check_model(model: &OcrModelAsset, kind: AssetKind, file_name: &str) -> (r: Result<(), OcrManifestError>)
    ensures
        r == model_check(*model, kind, file_name@),
{
    check_asset(&model.asset, kind)?;
    if model.file_bytes == 0 || model.file_bytes > MAX_OCR_MODEL_BYTES || !str_eq(model.file_name.as_str(), file_name) {
        return Err(OcrManifestError::InvalidAsset);
    }
    if !check_upstream(model) {
        return Err(OcrManifestError::InvalidUpstreamAsset);
    }
    Ok(())
}

fn languages_supported(languages: &[OcrLanguage]) -> (ok: bool)
    ensures
        ok == languages_ok(languages@),
{
    if languages.len() != 3 {
        return false;
    }
    let mut english = false;
    let mut simplified = false;
    let mut traditional = false;
    let mut i: usize = 0;
    while i < 3
        invariant
            languages@.len() == 3,
            i <= 3,
            english == exists|k: int| 0 <= k < i && languages@[k] == OcrLanguage::English,
            simplified == exists|k: int| 0 <= k < i && languages@[k] == OcrLanguage::ChineseSimplified,
            traditional == exists|k: int| 0 <= k < i && languages@[k] == OcrLanguage::ChineseTraditional,
        decreases 3 - i,
    {
        match languages[i] {
            OcrLanguage::English => english = true,
            OcrLanguage::ChineseSimplified => simplified = true,
            OcrLanguage::ChineseTraditional => traditional = true,
        }
        i = i + 1;
    }
    proof {
        if english {
            let k = choose|k: int| 0 <= k < 3 && languages@[k] == OcrLanguage::English;
            assert(languages@[k] == OcrLanguage::English);
        }
        if simplified {
            let k = choose|k: int| 0 <= k < 3 && languages@[k] == OcrLanguage::ChineseSimplified;
            assert(languages@[k] == OcrLanguage::ChineseSimplified);
        }
        if traditional {
            let k = choose|k: int| 0 <= k < 3 && languages@[k] == OcrLanguage::ChineseTraditional;
            assert(languages@[k] == OcrLanguage::ChineseTraditional);
        }
    }
    english && simplified && traditional
}

fn entries_valid(entries: &[String]) -> (ok: bool)
    ensures
        ok == entries_ok(entries@),
{
    if entries.len() == 0 {
        return false;
    }
    let mut i: usize = 0;
    while i < entries.len()
        invariant
            i <= entries@.len(),
            forall|a: int| 0 <= a < i ==> (#[trigger] entries@[a])@.len() > 0,
            forall|a: int, b: int| 0 <= a < b < i ==> (#[trigger] entries@[a])@ != (#[trigger] entries@[b])@,
        decreases entries@.len() - i,
    {
        if entries[i].as_str().unicode_len() == 0 {
            return false;
        }
        let mut j: usize = 0;
        while j < i
            invariant
                i < entries@.len(),
                j <= i,
                forall|a: int| 0 <= a < j ==> (#[trigger] entries@[a])@ != entries@[i as int]@,
            decreases i - j,
        {
            if str_eq(entries[j].as_str(), entries[i].as_str()) {
                return false;
            }
            j = j + 1;
        }
        i = i + 1;
    }
    true
}

fn dictionary_valid(d: &OcrDictionaryManifest) -> (ok: bool)
    ensures
        ok == dictionary_ok(*d),
{
    check_asset(&d.asset, AssetKind::OcrDictionary).is_ok() && d.file_bytes > 0 && d.file_bytes
        <= MAX_OCR_DICTIONARY_BYTES && str_eq(d.file_name.as_str(), "dictionary.txt") && entries_valid(
        d.entries.as_slice(),
    ) && d.blank_index <= d.entries.len() && languages_supported(d.languages.as_slice())
}

fn tensor_basics_valid(c: &OcrTensorContract) -> (ok: bool)
    ensures
        ok == tensor_basics_ok(*c),
{
    let finite = c.scale_bits % 0x8000_0000 < 0x7f80_0000 && c.mean_bits[0] % 0x8000_0000 < 0x7f80_0000
        && c.mean_bits[1] % 0x8000_0000 < 0x7f80_0000 && c.mean_bits[2] % 0x8000_0000 < 0x7f80_0000
        && 0 < c.std_bits[0] % 0x8000_0000 && c.std_bits[0] % 0x8000_0000 < 0x7f80_0000 && 0 < c.std_bits[1]
        % 0x8000_0000 && c.std_bits[1] % 0x8000_0000 < 0x7f80_0000 && 0 < c.std_bits[2] % 0x8000_0000
        && c.std_bits[2] % 0x8000_0000 < 0x7f80_0000;
    proof {
        if finite {
            assert forall|k: int| 0 <= k < 3 implies finite_bits(#[trigger] c.mean_bits@[k]) by {
                assert(k == 0 || k == 1 || k == 2);
            }
            assert forall|k: int| 0 <= k < 3 implies finite_nonzero_bits(#[trigger] c.std_bits@[k]) by {
                assert(k == 0 || k == 1 || k == 2);
            }
        } else {
            assert(!finite_bits(c.scale_bits) || !finite_bits(c.mean_bits@[0]) || !finite_bits(c.mean_bits@[1])
                || !finite_bits(c.mean_bits@[2]) || !finite_nonzero_bits(c.std_bits@[0])
                || !finite_nonzero_bits(c.std_bits@[1]) || !finite_nonzero_bits(c.std_bits@[2]));
        }
    }
    !is_blank(c.input_name.as_str()) && !is_blank(c.output_name.as_str()) && c.layout == TensorLayout::Nchw
        && c.color_order == ColorOrder::Rgb && c.element_type == OcrTensorElementType::F32 && c.channels == 3
        && finite
}

fn detector_contract_valid(c: &OcrTensorContract) -> (ok: bool)
    ensures
        ok == detector_contract_ok(*c),
{
    tensor_basics_valid(c) && c.dimension_multiple == 32 && c.minimum_height >= 32 && c.maximum_height <= 640
        && c.minimum_height <= c.maximum_height && c.minimum_width >= 32 && c.maximum_width <= 640
        && c.minimum_width <= c.maximum_width && c.minimum_height % 32 == 0 && c.maximum_height % 32 == 0
        && c.minimum_width % 32 == 0 && c.maximum_width % 32 == 0
}

fn recognizer_contract_valid(c: &OcrTensorContract) -> (ok: bool)
    ensures
        ok == recognizer_contract_ok(*c),
{
    tensor_basics_valid(c) && c.minimum_height == 48 && c.maximum_height == 48 && c.minimum_width == 1
        && c.maximum_width == 320 && c.dimension_multiple == 1
}

fn thresholds_valid(t: &OcrThresholds) -> (ok: bool)
    ensures
        ok == thresholds_ok(*t),
{
    (t.probability_bits <= F32_ONE_BITS || t.probability_bits == F32_NEGATIVE_ZERO_BITS) && (t.text_box_bits
        <= F32_ONE_BITS || t.text_box_bits == F32_NEGATIVE_ZERO_BITS) && F32_ONE_BITS <= t.expansion_bits
        && t.expansion_bits <= F32_THREE_BITS && (t.recognition_confidence_bits <= F32_ONE_BITS
        || t.recognition_confidence_bits == F32_NEGATIVE_ZERO_BITS)
}

fn reference_valid(r: &OcrReferenceArtifact, path: &str) -> (ok: bool)
    ensures
        ok == reference_ok(*r, path@),
{
    str_eq(r.path.as_str(), path) && r.file_bytes > 0 && r.file_bytes <= MAX_OCR_REFERENCE_BYTES
        && is_lower_sha256(r.sha256.as_str())
}

fn tool_version_valid(value: &str) -> (ok: bool)
    ensures
        ok == tool_version_ok(value@),
{
    let bytes = value.as_bytes();
    if bytes.len() == 0 || bytes.len() > MAX_OCR_EXPORT_TOOL_VERSION_LENGTH {
        return false;
    }
    let mut i: usize = 0;
    while i < bytes.len()
        invariant
            bytes@ == utf8(value@),
            i <= bytes@.len(),
            forall|k: int| 0 <= k < i ==> version_byte(#[trigger] bytes@[k]),
        decreases bytes@.len() - i,
    {
        let b = bytes[i];
        let alnum = (b >= 48 && b <= 57) || (b >= 65 && b <= 90) || (b >= 97 && b <= 122);
        if !(alnum || b == 46 || b == 45 || b == 43) {
            return false;
        }
        i = i + 1;
    }
    true
}

impl OcrBundleManifest {
    /// Checks the manifest, in this order: the format version; the bundle asset; the source
    /// repository and its pinned revision; the detector and the recognizer files with their
    /// upstream archives; the dictionary; the opset and the runtime version; the two tensor
    /// contracts; the thresholds; the resource limits; the reference files; the export tool
    /// versions; and that the model pair is the profile's.
    pub fn validate(&self) -> (r: Result<(), OcrManifestError>)
        ensures
            r == ocr_manifest_verdict(*self),
    {
        if self.format_version != OCR_MANIFEST_FORMAT_VERSION {
            return Err(OcrManifestError::InvalidFormatVersion);
        }
        check_asset(&self.asset, AssetKind::OcrBundle)?;
        if !str_eq(self.source_repository.as_str(), OCR_SOURCE_REPOSITORY) || !(byte_len(
            self.source_revision.as_str(),
        ) == 40 && lower_hex_bytes(self.source_revision.as_str())) {
            return Err(OcrManifestError::InvalidSource);
        }
        check_model(&self.detector, AssetKind::OcrDetector, "detector.onnx")?;
        check_model(&self.recognizer, AssetKind::OcrRecognizer, "recognizer.onnx")?;
        if !dictionary_valid(&self.dictionary) {
            return Err(OcrManifestError::InvalidDictionary);
        }
        if self.opset != OCR_OPSET {
            return Err(OcrManifestError::InvalidOpset);
        }
        if !str_eq(self.minimum_runtime_version.as_str(), OCR_RUNTIME_VERSION) {
            return Err(OcrManifestError::InvalidRuntimeVersion);
        }
        if !detector_contract_valid(&self.detector_contract) {
            return Err(OcrManifestError::InvalidDetectorContract);
        }
        if !recognizer_contract_valid(&self.recognizer_contract) {
            return Err(OcrManifestError::InvalidRecognizerContract);
        }
        if !thresholds_valid(&self.thresholds) {
            return Err(OcrManifestError::InvalidThresholds);
        }
        if !self.resource_limits.is_exact() {
            return Err(OcrManifestError::InvalidResourceLimits);
        }
        let references = &self.reference_artifacts;
        if !(reference_valid(&references.detector_input, OCR_REFERENCE_DETECTOR_INPUT_PATH) && reference_valid(
            &references.detector_output,
            OCR_REFERENCE_DETECTOR_OUTPUT_PATH,
        ) && reference_valid(&references.recognizer_input, OCR_REFERENCE_RECOGNIZER_INPUT_PATH)
            && reference_valid(&references.recognizer_output, OCR_REFERENCE_RECOGNIZER_OUTPUT_PATH)) {
            return Err(OcrManifestError::InvalidReferenceArtifacts);
        }
        let tools = &self.export_toolchain;
        if !(tool_version_valid(tools.paddlepaddle_version.as_str()) && tool_version_valid(
            tools.paddle2onnx_version.as_str(),
        ) && tool_version_valid(tools.onnx_version.as_str()) && tool_version_valid(
            tools.onnx_runtime_version.as_str(),
        )) {
            return Err(OcrManifestError::InvalidExportToolchain);
        }
        let (detector_model, recognizer_model) = match self.profile {
            OcrModelProfile::Lightweight => (OCR_LIGHTWEIGHT_DETECTOR_MODEL, OCR_LIGHTWEIGHT_RECOGNIZER_MODEL),
            OcrModelProfile::Accurate => (OCR_ACCURATE_DETECTOR_MODEL, OCR_ACCURATE_RECOGNIZER_MODEL),
        };
        if !(str_eq(self.detector.model_name.as_str(), detector_model) && str_eq(
            self.recognizer.model_name.as_str(),
            recognizer_model,
        )) {
            return Err(OcrManifestError::ModelProfileMismatch);
        }
        Ok(())
    }
}


// ---------------------------------------------------------------------------
// Accepting a bundle.
// ---------------------------------------------------------------------------

/// The text of `bytes` where they are valid UTF-8, with `std::str::from_utf8`: its
/// documentation promises `Ok` exactly for valid UTF-8, holding the characters the bytes
/// encode.
#[verifier::external_body]
fn utf8_text(bytes: &[u8]) -> (text: Option<String>)
    ensures
        text is Some <==> vstd::utf8::valid_utf8(bytes@),
        text matches Some(t) ==> t@ == vstd::utf8::decode_utf8(bytes@),
{
    std::str::from_utf8(bytes).ok().map(String::from)
}

/// The bytes of an OCR bundle's files, as read from the bundle's directory.
pub struct OcrBundleFiles {
    pub license: Vec<u8>,
    pub detector: Vec<u8>,
    pub recognizer: Vec<u8>,
    pub dictionary: Vec<u8>,
    pub detector_input: Vec<u8>,
    pub detector_output: Vec<u8>,
    pub recognizer_input: Vec<u8>,
    pub recognizer_output: Vec<u8>,
}

/// The dictionary file's text is valid UTF-8 whose lines are exactly the declared entries.
pub open spec fn dictionary_text_ok(bytes: Seq<u8>, entries: Seq<String>) -> bool {
    &&& vstd::utf8::valid_utf8(bytes)
    &&& lines_of(vstd::utf8::decode_utf8(bytes)) == entries.map_values(|e: String| e@)
}

/// A license text that is present and within the limit.
pub open spec fn license_ok(license: Seq<u8>) -> bool {
    0 < license.len() <= MAX_OCR_LICENSE_BYTES
}

/// The four reference files have their declared lengths and digests.
pub open spec fn reference_files_match(r: OcrReferenceArtifacts, files: OcrBundleFiles) -> bool {
    &&& bytes_match(files.detector_input@, r.detector_input.file_bytes, r.detector_input.sha256@)
    &&& bytes_match(files.detector_output@, r.detector_output.file_bytes, r.detector_output.sha256@)
    &&& bytes_match(files.recognizer_input@, r.recognizer_input.file_bytes, r.recognizer_input.sha256@)
    &&& bytes_match(files.recognizer_output@, r.recognizer_output.file_bytes, r.recognizer_output.sha256@)
}

/// The verdict on a bundle, in the order the checks are made: the manifest; the license;
/// the detector, recognizer and dictionary files against their declared lengths and
/// digests; the dictionary's text against its entries; the reference files.
pub open spec fn bundle_verdict(m: OcrBundleManifest, files: OcrBundleFiles) -> Result<(), InferenceErrorKind> {
    if ocr_manifest_verdict(m) is Err {
        Err(InferenceErrorKind::OcrContractInvalid)
    } else if !license_ok(files.license@) {
        Err(InferenceErrorKind::OcrLicenseInvalid)
    } else if !bytes_match(files.detector@, m.detector.file_bytes, m.detector.asset.sha256@) || !bytes_match(
        files.recognizer@,
        m.recognizer.file_bytes,
        m.recognizer.asset.sha256@,
    ) || !bytes_match(files.dictionary@, m.dictionary.file_bytes, m.dictionary.asset.sha256@) {
        Err(InferenceErrorKind::OcrAssetHashMismatch)
    } else if !dictionary_text_ok(files.dictionary@, m.dictionary.entries@) {
        Err(InferenceErrorKind::OcrDictionaryInvalid)
    } else if !reference_files_match(m.reference_artifacts, files) {
        Err(InferenceErrorKind::OcrReferenceInvalid)
    } else {
        Ok(())
    }
}

/// An OCR bundle whose manifest was accepted and whose files all have their declared
/// lengths and digests. Nothing else can make one.
pub struct VerifiedOcrBundle {
    manifest: OcrBundleManifest,
    files: OcrBundleFiles,
    dictionary: CtcDictionary,
}

impl VerifiedOcrBundle {
    #[verifier::type_invariant]
    spec fn checked(self) -> bool {
        &&& bundle_verdict(self.manifest, self.files) is Ok
        &&& self.dictionary.entries() == self.manifest.dictionary.entries@.map_values(|e: String| e@)
        &&& self.dictionary.spec_blank_index() == self.manifest.dictionary.blank_index
    }

    /// The manifest the bundle was accepted with.
    pub closed spec fn spec_manifest(self) -> OcrBundleManifest {
        self.manifest
    }

    /// The bundle's files.
    pub closed spec fn spec_files(self) -> OcrBundleFiles {
        self.files
    }

    /// The manifest, which is valid.
    pub fn manifest(&self) -> (m: &OcrBundleManifest)
        ensures
            *m == self.spec_manifest(),
            ocr_manifest_verdict(*m) is Ok,
    {
        proof {
            use_type_invariant(self);
        }
        &self.manifest
    }

    /// The profile of the bundle.
    pub fn profile(&self) -> (profile: OcrModelProfile)
        ensures
            profile == self.spec_manifest().profile,
    {
        self.manifest.profile
    }

    /// The bundle's files, which have their declared lengths and digests.
    pub fn files(&self) -> (files: &OcrBundleFiles)
        ensures
            *files == self.spec_files(),
            bundle_verdict(self.spec_manifest(), *files) is Ok,
    {
        proof {
            use_type_invariant(self);
        }
        &self.files
    }

    /// The dictionary, its entries the manifest's.
    pub fn dictionary(&self) -> (d: &CtcDictionary)
        ensures
            d.entries() == self.spec_manifest().dictionary.entries@.map_values(|e: String| e@),
            d.spec_blank_index() == self.spec_manifest().dictionary.blank_index,
    {
        proof {
            use_type_invariant(self);
        }
        &self.dictionary
    }
}

fn reference_files_valid(r: &OcrReferenceArtifacts, files: &OcrBundleFiles) -> (ok: bool)
    ensures
        ok == reference_files_match(*r, *files),
{
    bytes_match_manifest(files.detector_input.as_slice(), r.detector_input.file_bytes, r.detector_input.sha256.as_str())
        && bytes_match_manifest(
        files.detector_output.as_slice(),
        r.detector_output.file_bytes,
        r.detector_output.sha256.as_str(),
    ) && bytes_match_manifest(
        files.recognizer_input.as_slice(),
        r.recognizer_input.file_bytes,
        r.recognizer_input.sha256.as_str(),
    ) && bytes_match_manifest(
        files.recognizer_output.as_slice(),
        r.recognizer_output.file_bytes,
        r.recognizer_output.sha256.as_str(),
    )
}

fn lines_match(lines: &Vec<String>, entries: &Vec<String>) -> (ok: bool)
    ensures
        ok == (lines@.map_values(|l: String| l@) == entries@.map_values(|e: String| e@)),
{
    let ghost a = lines@.map_values(|l: String| l@);
    let ghost b = entries@.map_values(|e: String| e@);
    if lines.len() != entries.len() {
        assert(a.len() != b.len());
        return false;
    }
    let mut i: usize = 0;
    while i < lines.len()
        invariant
            a == lines@.map_values(|l: String| l@),
            b == entries@.map_values(|e: String| e@),
            lines@.len() == entries@.len(),
            i <= lines@.len(),
            forall|k: int| 0 <= k < i ==> a[k] == b[k],
        decreases lines@.len() - i,
    {
        if !str_eq(lines[i].as_str(), entries[i].as_str()) {
            assert(a[i as int] != b[i as int]);
            return false;
        }
        i = i + 1;
    }
    assert(a =~= b);
    true
}

/// Accepts an OCR bundle from its manifest and the bytes of its files: the manifest must be
/// valid, else the contract is invalid; the license present and within the limit; the
/// detector, recognizer and dictionary files of their declared lengths and digests, else
/// their hash does not match; the dictionary's text its declared entries; and the reference
/// files of their declared lengths and digests. Reading the files is the caller's; a file
/// that cannot be read is the caller's `OcrAssetMissing`.
pub fn accept_ocr_bundle(manifest: OcrBundleManifest, files: OcrBundleFiles) -> (r: Result<VerifiedOcrBundle, InferenceError>)
    ensures
        match r {
            Ok(bundle) => {
                &&& bundle.spec_manifest() == manifest
                &&& bundle.spec_files() == files
                &&& bundle_verdict(manifest, files) is Ok
            },
            Err(e) => bundle_verdict(manifest, files) == Err::<(), InferenceErrorKind>(e.spec_kind()),
        },
{
    if manifest.validate().is_err() {
        return Err(InferenceError::new(InferenceErrorKind::OcrContractInvalid));
    }
    if files.license.len() == 0 || files.license.len() > MAX_OCR_LICENSE_BYTES {
        return Err(InferenceError::new(InferenceErrorKind::OcrLicenseInvalid));
    }
    if !bytes_match_manifest(files.detector.as_slice(), manifest.detector.file_bytes, manifest.detector.asset.sha256.as_str())
        || !bytes_match_manifest(
        files.recognizer.as_slice(),
        manifest.recognizer.file_bytes,
        manifest.recognizer.asset.sha256.as_str(),
    ) || !bytes_match_manifest(
        files.dictionary.as_slice(),
        manifest.dictionary.file_bytes,
        manifest.dictionary.asset.sha256.as_str(),
    ) {
        return Err(InferenceError::new(InferenceErrorKind::OcrAssetHashMismatch));
    }
    let text = match utf8_text(files.dictionary.as_slice()) {
        Some(t) => t,
        None => return Err(InferenceError::new(InferenceErrorKind::OcrDictionaryInvalid)),
    };
    let lines = split_lines(text.as_str());
    if !lines_match(&lines, &manifest.dictionary.entries) {
        return Err(InferenceError::new(InferenceErrorKind::OcrDictionaryInvalid));
    }
    let ghost entries = manifest.dictionary.entries@.map_values(|e: String| e@);
    assert(entries_ok(manifest.dictionary.entries@));
    assert(ctc_dictionary_ok(entries, manifest.dictionary.blank_index)) by {
        assert forall|i: int| 0 <= i < entries.len() implies (#[trigger] entries[i]).len() > 0 by {
            assert(entries[i] == manifest.dictionary.entries@[i]@);
        }
        assert forall|i: int, j: int| 0 <= i < j < entries.len() implies #[trigger] entries[i] != #[trigger] entries[j] by {
            assert(entries[i] == manifest.dictionary.entries@[i]@);
            assert(entries[j] == manifest.dictionary.entries@[j]@);
        }
    }
    let dictionary = match CtcDictionary::parse(text.as_str(), manifest.dictionary.blank_index) {
        Ok(d) => d,
        Err(_) => return Err(InferenceError::new(InferenceErrorKind::OcrDictionaryInvalid)),
    };
    if !reference_files_valid(&manifest.reference_artifacts, &files) {
        return Err(InferenceError::new(InferenceErrorKind::OcrReferenceInvalid));
    }
    Ok(VerifiedOcrBundle { manifest, files, dictionary })
}

} // verus!
