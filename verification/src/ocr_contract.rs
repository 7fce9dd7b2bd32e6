use vstd::prelude::*;

use crate::engines::{ColorOrder, TensorLayout};

verus! {

/// The largest OCR model file a bundle may declare.
pub const MAX_OCR_MODEL_BYTES: u64 = 268_435_456;

/// The largest OCR dictionary file a bundle may declare.
pub const MAX_OCR_DICTIONARY_BYTES: u64 = 4_194_304;

/// The longest export tool version a bundle may name.
pub const MAX_OCR_EXPORT_TOOL_VERSION_LENGTH: usize = 128;

/// The OCR bundle manifest format this library reads.
pub const OCR_MANIFEST_FORMAT_VERSION: u16 = 1;

/// Where the OCR models come from.
pub const OCR_SOURCE_REPOSITORY: &'static str = "https://github.com/PaddlePaddle/PaddleOCR";

/// The host the upstream OCR model archives are served from.
pub const OCR_UPSTREAM_MODEL_HOST: &'static str = "paddle-model-ecology.bj.bcebos.com";

/// Which OCR model pair runs.
#[derive(Debug, Clone, Copy, PartialEq, Eq, Structural)]
pub enum OcrModelProfile {
    Lightweight,
    Accurate,
}

/// A language an OCR dictionary covers.
#[derive(Debug, Clone, Copy, PartialEq, Eq, Hash, Structural)]
pub enum OcrLanguage {
    English,
    ChineseSimplified,
    ChineseTraditional,
}

/// The element type of an OCR tensor.
#[derive(Debug, Clone, Copy, PartialEq, Eq, Structural)]
pub enum OcrTensorElementType {
    F32,
}

/// Why an OCR bundle manifest was refused.
#[derive(Debug, Clone, Copy, PartialEq, Eq, Structural)]
pub enum OcrManifestError {
    InvalidAsset,
    InvalidLicense,
    InvalidSource,
    InvalidOpset,
    InvalidRuntimeVersion,
    InvalidDetectorContract,
    InvalidRecognizerContract,
    InvalidDictionary,
    InvalidThresholds,
    InvalidResourceLimits,
    InvalidFormatVersion,
    InvalidUpstreamAsset,
    InvalidReferenceArtifacts,
    InvalidExportToolchain,
    ModelProfileMismatch,
}

/// The resource limits an OCR bundle declares.
#[derive(Debug, Clone, Copy, PartialEq, Eq, Structural)]
pub struct OcrResourceLimits {
    pub maximum_text_boxes: usize,
    pub minimum_box_side_pixels: usize,
    pub minimum_box_area_pixels: usize,
    pub recognizer_height: usize,
    pub maximum_recognizer_width: usize,
    pub maximum_batch_size: usize,
    pub maximum_line_characters: usize,
    pub maximum_total_characters: usize,
}

/// The one set of resource limits a bundle may declare.
pub open spec fn exact_limits(limits: OcrResourceLimits) -> bool {
    &&& limits.maximum_text_boxes == 64
    &&& limits.minimum_box_side_pixels == 6
    &&& limits.minimum_box_area_pixels == 48
    &&& limits.recognizer_height == 48
    &&& limits.maximum_recognizer_width == 320
    &&& limits.maximum_batch_size == 8
    &&& limits.maximum_line_characters == 128
    &&& limits.maximum_total_characters == 4_096
}

impl OcrResourceLimits {
    /// Whether these are exactly the supported limits; a bundle may neither loosen nor
    /// tighten them.
    pub fn is_exact(&self) -> (exact: bool)
        ensures
            exact == exact_limits(*self),
    {
        self.maximum_text_boxes == 64 && self.minimum_box_side_pixels == 6
            && self.minimum_box_area_pixels == 48 && self.recognizer_height == 48
            && self.maximum_recognizer_width == 320 && self.maximum_batch_size == 8
            && self.maximum_line_characters == 128 && self.maximum_total_characters == 4_096
    }

    /// Whether text-box extraction can run within these limits: between one and 64 boxes,
    /// and boxes no smaller than 6 pixels a side and 48 pixels in area.
    pub fn fits_postprocessing(&self) -> (ok: bool)
        ensures
            ok == (0 < self.maximum_text_boxes <= 64 && self.minimum_box_side_pixels >= 6
                && self.minimum_box_area_pixels >= 48),
    {
        self.maximum_text_boxes != 0 && self.maximum_text_boxes <= 64
            && self.minimum_box_side_pixels >= 6 && self.minimum_box_area_pixels >= 48
    }
}

/// Why an OCR tensor could not be built.
#[derive(Debug, Clone, Copy, PartialEq, Eq, Structural)]
pub enum OcrTensorError {
    InvalidContract,
    InvalidDimensions,
    ArithmeticOverflow,
    InvalidFrameBuffer,
    InvalidCoordinate,
    InvalidGeometry,
    BatchLimitExceeded,
}

/// The longest edge of a detector input.
pub const DETECTOR_MAXIMUM_EDGE: usize = 640;

/// The integer part of an OCR tensor contract: its layout, element type, channels and the
/// sizes it accepts. The normalization values are `f32` and checked where they are used.
#[derive(Debug, Clone, Copy, PartialEq, Eq, Structural)]
pub struct OcrTensorGeometry {
    pub layout: TensorLayout,
    pub color_order: ColorOrder,
    pub element_type: OcrTensorElementType,
    pub channels: usize,
    pub minimum_height: usize,
    pub maximum_height: usize,
    pub minimum_width: usize,
    pub maximum_width: usize,
    pub dimension_multiple: usize,
}

/// A detector takes three-channel NCHW `f32` RGB input whose sizes are non-zero multiples of
/// 32, minimum before maximum, and at most the detector's longest edge.
pub open spec fn detector_geometry_ok(g: OcrTensorGeometry) -> bool {
    &&& g.layout == TensorLayout::Nchw
    &&& g.color_order == ColorOrder::Rgb
    &&& g.element_type == OcrTensorElementType::F32
    &&& g.channels == 3
    &&& g.dimension_multiple == 32
    &&& g.minimum_height != 0
    &&& g.minimum_width != 0
    &&& g.minimum_height <= g.maximum_height
    &&& g.minimum_width <= g.maximum_width
    &&& g.maximum_height <= DETECTOR_MAXIMUM_EDGE
    &&& g.maximum_width <= DETECTOR_MAXIMUM_EDGE
    &&& g.minimum_height % 32 == 0
    &&& g.minimum_width % 32 == 0
    &&& g.maximum_height % 32 == 0
    &&& g.maximum_width % 32 == 0
}

/// A recognizer takes three-channel NCHW `f32` RGB input of exactly the limits' height and
/// up to the limits' width, one column at a time; the limits themselves stay within the
/// supported height, width and batch size.
pub open spec fn recognizer_geometry_ok(g: OcrTensorGeometry, limits: OcrResourceLimits) -> bool {
    &&& g.layout == TensorLayout::Nchw
    &&& g.color_order == ColorOrder::Rgb
    &&& g.element_type == OcrTensorElementType::F32
    &&& g.channels == 3
    &&& g.minimum_height == limits.recognizer_height
    &&& g.maximum_height == limits.recognizer_height
    &&& g.minimum_width != 0
    &&& g.maximum_width == limits.maximum_recognizer_width
    &&& g.dimension_multiple == 1
    &&& limits.recognizer_height == 48
    &&& limits.maximum_recognizer_width <= 320
    &&& 0 < limits.maximum_batch_size <= 8
}

impl OcrTensorGeometry {
    /// Whether a detector can take input of this geometry.
    pub fn fits_detector(&self) -> (ok: bool)
        ensures
            ok == detector_geometry_ok(*self),
    {
        self.layout == TensorLayout::Nchw && self.color_order == ColorOrder::Rgb
            && self.element_type == OcrTensorElementType::F32 && self.channels == 3
            && self.dimension_multiple == 32 && self.minimum_height != 0 && self.minimum_width != 0
            && self.minimum_height <= self.maximum_height && self.minimum_width <= self.maximum_width
            && self.maximum_height <= DETECTOR_MAXIMUM_EDGE && self.maximum_width
            <= DETECTOR_MAXIMUM_EDGE && self.minimum_height % self.dimension_multiple == 0
            && self.minimum_width % self.dimension_multiple == 0 && self.maximum_height
            % self.dimension_multiple == 0 && self.maximum_width % self.dimension_multiple == 0
    }

    /// Whether a recognizer bounded by `limits` can take input of this geometry.
    pub fn fits_recognizer(&self, limits: &OcrResourceLimits) -> (ok: bool)
        ensures
            ok == recognizer_geometry_ok(*self, *limits),
    {
        self.layout == TensorLayout::Nchw && self.color_order == ColorOrder::Rgb
            && self.element_type == OcrTensorElementType::F32 && self.channels == 3
            && self.minimum_height == limits.recognizer_height && self.maximum_height
            == limits.recognizer_height && self.minimum_width != 0 && self.maximum_width
            == limits.maximum_recognizer_width && self.dimension_multiple == 1
            && limits.recognizer_height == 48 && limits.maximum_recognizer_width <= 320
            && limits.maximum_batch_size != 0 && limits.maximum_batch_size <= 8
    }
}

/// Whether a recognizer batch of `count` boxes may be built: the geometry must fit the
/// recognizer under `limits`, else the contract is invalid; then the batch must hold at most
/// the batch size, else the batch limit is exceeded.
pub fn check_recognizer_batch(geometry: &OcrTensorGeometry, limits: &OcrResourceLimits, count: usize) -> (r: Result<
    (),
    OcrTensorError,
>)
    ensures
        r == (if !recognizer_geometry_ok(*geometry, *limits) {
            Err(OcrTensorError::InvalidContract)
        } else if count > limits.maximum_batch_size {
            Err(OcrTensorError::BatchLimitExceeded)
        } else {
            Ok(())
        }),
{
    if !geometry.fits_recognizer(limits) {
        return Err(OcrTensorError::InvalidContract);
    }
    if count > limits.maximum_batch_size {
        return Err(OcrTensorError::BatchLimitExceeded);
    }
    Ok(())
}

/// `content`, raised to `minimum`, then rounded up to a multiple of 32; an overflow error
/// where the rounding does not fit in `usize`.
pub fn padded_dimension(content: usize, minimum: usize) -> (r: Result<usize, OcrTensorError>)
    ensures
        ({
            let raised: int = if content >= minimum {
                content as int
            } else {
                minimum as int
            };
            match r {
                Ok(n) => raised + 31 <= usize::MAX && n == (raised + 31) / 32 * 32,
                Err(e) => e == OcrTensorError::ArithmeticOverflow && raised + 31 > usize::MAX,
            }
        }),
{
    let raised = if content >= minimum {
        content
    } else {
        minimum
    };
    match raised.checked_add(31) {
        Some(value) => Ok(value / 32 * 32),
        None => Err(OcrTensorError::ArithmeticOverflow),
    }
}

/// The number of values in a three-channel `width` by `height` tensor, or an overflow error
/// where it does not fit in `usize`.
pub fn checked_tensor_elements(width: usize, height: usize) -> (r: Result<usize, OcrTensorError>)
    ensures
        match r {
            Ok(n) => n == width * height * 3,
            Err(e) => e == OcrTensorError::ArithmeticOverflow && width * height * 3 > usize::MAX,
        },
{
    match width.checked_mul(height) {
        Some(plane) => match plane.checked_mul(3) {
            Some(n) => Ok(n),
            None => Err(OcrTensorError::ArithmeticOverflow),
        },
        None => {
            assert(width * height * 3 > usize::MAX) by (nonlinear_arith)
                requires
                    width * height > usize::MAX,
            ;
            Err(OcrTensorError::ArithmeticOverflow)
        },
    }
}

/// The number of values in a batch of `batch` three-channel `height` by `width` tensors,
/// computed as batch, then channels, then rows, then columns; an overflow error where a step
/// does not fit in `usize`.
pub fn checked_batch_tensor_elements(batch: usize, height: usize, width: usize) -> (r: Result<
    usize,
    OcrTensorError,
>)
    ensures
        match r {
            Ok(n) => n == batch * 3 * height * width,
            Err(e) => e == OcrTensorError::ArithmeticOverflow && (batch * 3 > usize::MAX || batch
                * 3 * height > usize::MAX || batch * 3 * height * width > usize::MAX),
        },
        r is Err <== (batch * 3 > usize::MAX || batch * 3 * height > usize::MAX || batch * 3
            * height * width > usize::MAX),
{
    let channels = match batch.checked_mul(3) {
        Some(c) => c,
        None => return Err(OcrTensorError::ArithmeticOverflow),
    };
    let rows = match channels.checked_mul(height) {
        Some(r) => r,
        None => return Err(OcrTensorError::ArithmeticOverflow),
    };
    match rows.checked_mul(width) {
        Some(n) => Ok(n),
        None => Err(OcrTensorError::ArithmeticOverflow),
    }
}

} // verus!
