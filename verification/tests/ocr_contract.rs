use karma::engines::{ColorOrder, TensorLayout};
use karma::ocr_contract::{
    checked_batch_tensor_elements, checked_tensor_elements, padded_dimension, OcrResourceLimits,
    OcrTensorElementType, OcrTensorError, OcrTensorGeometry,
    MAX_OCR_EXPORT_TOOL_VERSION_LENGTH, OCR_MANIFEST_FORMAT_VERSION, OCR_SOURCE_REPOSITORY,
    OCR_UPSTREAM_MODEL_HOST,
};

#[test]
fn ocr_contract_exports_provenance_constants() {
    assert_eq!(MAX_OCR_EXPORT_TOOL_VERSION_LENGTH, 128);
    assert_eq!(OCR_MANIFEST_FORMAT_VERSION, 1);
    assert_eq!(OCR_SOURCE_REPOSITORY, "https://github.com/PaddlePaddle/PaddleOCR");
    assert_eq!(OCR_UPSTREAM_MODEL_HOST, "paddle-model-ecology.bj.bcebos.com");
}

#[test]
fn detector_checks_generated_tensor_allocation() {
    assert_eq!(checked_tensor_elements(usize::MAX, 640), Err(OcrTensorError::ArithmeticOverflow));
}

#[test]
fn tensor_sizes_count_three_channels() {
    assert_eq!(checked_tensor_elements(640, 480), Ok(921_600));
    assert_eq!(checked_batch_tensor_elements(8, 48, 320), Ok(368_640));
    assert_eq!(
        checked_batch_tensor_elements(usize::MAX, 1, 1),
        Err(OcrTensorError::ArithmeticOverflow)
    );
}

#[test]
fn only_the_exact_resource_limits_are_accepted() {
    let mut limits = OcrResourceLimits {
        maximum_text_boxes: 64,
        minimum_box_side_pixels: 6,
        minimum_box_area_pixels: 48,
        recognizer_height: 48,
        maximum_recognizer_width: 320,
        maximum_batch_size: 8,
        maximum_line_characters: 128,
        maximum_total_characters: 4_096,
    };
    assert!(limits.is_exact());
    limits.maximum_text_boxes = 65;
    assert!(!limits.is_exact());
}

fn detector_geometry() -> OcrTensorGeometry {
    OcrTensorGeometry {
        layout: TensorLayout::Nchw,
        color_order: ColorOrder::Rgb,
        element_type: OcrTensorElementType::F32,
        channels: 3,
        minimum_height: 32,
        maximum_height: 640,
        minimum_width: 32,
        maximum_width: 640,
        dimension_multiple: 32,
    }
}

fn recognizer_geometry() -> OcrTensorGeometry {
    OcrTensorGeometry {
        minimum_height: 48,
        maximum_height: 48,
        minimum_width: 1,
        maximum_width: 320,
        dimension_multiple: 1,
        ..detector_geometry()
    }
}

fn exact_limits() -> OcrResourceLimits {
    OcrResourceLimits {
        maximum_text_boxes: 64,
        minimum_box_side_pixels: 6,
        minimum_box_area_pixels: 48,
        recognizer_height: 48,
        maximum_recognizer_width: 320,
        maximum_batch_size: 8,
        maximum_line_characters: 128,
        maximum_total_characters: 4_096,
    }
}

#[test]
fn detector_geometry_needs_multiples_of_32_within_640() {
    assert!(detector_geometry().fits_detector());
    let mut geometry = detector_geometry();
    geometry.maximum_width = 639;
    assert!(!geometry.fits_detector());
    let mut geometry = detector_geometry();
    geometry.maximum_height = 672;
    assert!(!geometry.fits_detector());
    let mut geometry = detector_geometry();
    geometry.minimum_height = 0;
    assert!(!geometry.fits_detector());
    let mut geometry = detector_geometry();
    geometry.channels = 4;
    assert!(!geometry.fits_detector());
}

#[test]
fn recognizer_geometry_follows_the_limits() {
    assert!(recognizer_geometry().fits_recognizer(&exact_limits()));
    let mut geometry = recognizer_geometry();
    geometry.minimum_height = 47;
    assert!(!geometry.fits_recognizer(&exact_limits()));
    let mut limits = exact_limits();
    limits.maximum_batch_size = 9;
    assert!(!recognizer_geometry().fits_recognizer(&limits));
    assert!(exact_limits().fits_postprocessing());
    limits = exact_limits();
    limits.maximum_text_boxes = 65;
    assert!(!limits.fits_postprocessing());
}

#[test]
fn padded_dimensions_round_up_to_multiples_of_32() {
    assert_eq!(padded_dimension(1, 32), Ok(32));
    assert_eq!(padded_dimension(33, 32), Ok(64));
    assert_eq!(padded_dimension(64, 32), Ok(64));
    assert_eq!(padded_dimension(10, 96), Ok(96));
    assert_eq!(
        padded_dimension(usize::MAX - 30, 0),
        Err(OcrTensorError::ArithmeticOverflow)
    );
}
