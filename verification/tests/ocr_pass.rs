use karma::health::InferenceErrorKind;
use karma::ocr_contract::{OcrResourceLimits, OcrTensorError};
use karma::ocr_pass::{ocr_pass_step, OcrPassAction, OcrPassEvent, OcrPassState};
use karma::reference_tensor::{
    check_detector_reference_output_shape, check_detector_reference_shape,
    check_recognizer_reference_shape,
};

fn limits(batch: usize, total: usize) -> OcrResourceLimits {
    OcrResourceLimits {
        maximum_text_boxes: 64,
        minimum_box_side_pixels: 6,
        minimum_box_area_pixels: 48,
        recognizer_height: 48,
        maximum_recognizer_width: 320,
        maximum_batch_size: batch,
        maximum_line_characters: 128,
        maximum_total_characters: total,
    }
}

#[test]
fn unusable_boxes_are_skipped_and_others_recognized_in_batches() {
    let limits = limits(2, 4_096);
    let (state, action) = ocr_pass_step(OcrPassState::start(4), OcrPassEvent::Begin, &limits);
    assert_eq!(action, OcrPassAction::ProbeBox { index: 0 });
    let (state, action) = ocr_pass_step(state, OcrPassEvent::BoxUsable, &limits);
    assert_eq!(action, OcrPassAction::ProbeBox { index: 1 });
    let (state, action) = ocr_pass_step(
        state,
        OcrPassEvent::BoxRefused { error: OcrTensorError::InvalidGeometry },
        &limits,
    );
    assert_eq!(action, OcrPassAction::ProbeBox { index: 2 });
    let (state, _) = ocr_pass_step(state, OcrPassEvent::BoxUsable, &limits);
    let (state, action) = ocr_pass_step(state, OcrPassEvent::BoxUsable, &limits);
    assert_eq!(
        action,
        OcrPassAction::RecognizeBatch { first: 0, count: 2, remaining_characters: 4_096 }
    );
    let (state, action) = ocr_pass_step(state, OcrPassEvent::Decoded { characters: 10 }, &limits);
    assert_eq!(
        action,
        OcrPassAction::RecognizeBatch { first: 2, count: 1, remaining_characters: 4_086 }
    );
    let (state, action) = ocr_pass_step(state, OcrPassEvent::Decoded { characters: 5 }, &limits);
    assert_eq!(
        action,
        OcrPassAction::Finish { skipped_boxes: 1, resource_limit_reached: false }
    );
    assert_eq!(state.characters, 15);
}

#[test]
fn other_probe_errors_fail_the_pass() {
    let limits = limits(8, 4_096);
    let (state, _) = ocr_pass_step(OcrPassState::start(1), OcrPassEvent::Begin, &limits);
    let (_, action) = ocr_pass_step(
        state,
        OcrPassEvent::BoxRefused { error: OcrTensorError::BatchLimitExceeded },
        &limits,
    );
    assert_eq!(action, OcrPassAction::Fail { kind: InferenceErrorKind::InputPreparation });
}

#[test]
fn a_spent_character_budget_stops_the_pass_and_reports_the_limit() {
    let limits = limits(1, 8);
    let mut state = OcrPassState::start(3);
    let (next, _) = ocr_pass_step(state, OcrPassEvent::Begin, &limits);
    state = next;
    for _ in 0..3 {
        state = ocr_pass_step(state, OcrPassEvent::BoxUsable, &limits).0;
    }
    let (state, action) = ocr_pass_step(state, OcrPassEvent::Decoded { characters: 8 }, &limits);
    assert_eq!(
        action,
        OcrPassAction::Finish { skipped_boxes: 0, resource_limit_reached: true }
    );
    assert_eq!(state.processed, 1);
}

#[test]
fn a_failed_batch_fails_the_pass_with_its_kind() {
    let limits = limits(8, 4_096);
    let state = ocr_pass_step(OcrPassState::start(1), OcrPassEvent::BoxUsable, &limits).0;
    let (_, action) = ocr_pass_step(
        state,
        OcrPassEvent::Failed { kind: InferenceErrorKind::OutputInvalid },
        &limits,
    );
    assert_eq!(action, OcrPassAction::Fail { kind: InferenceErrorKind::OutputInvalid });
}

#[test]
fn reference_input_shapes_are_checked() {
    assert_eq!(check_detector_reference_shape(&[1, 3, 32, 64]).unwrap(), (32, 64));
    for shape in [&[1, 3, 33, 64][..], &[1, 3, 672, 64], &[2, 3, 32, 32], &[1, 3, 32]] {
        assert_eq!(
            check_detector_reference_shape(shape).unwrap_err().kind(),
            InferenceErrorKind::OcrReferenceInvalid
        );
    }
    assert_eq!(check_recognizer_reference_shape(&[1, 3, 48, 320]).unwrap(), 320);
    assert!(check_recognizer_reference_shape(&[1, 3, 48, 321]).is_err());
    assert!(check_recognizer_reference_shape(&[1, 3, 32, 10]).is_err());
    assert!(check_detector_reference_output_shape(&[1, 1, 32, 64], 32, 64).is_ok());
    assert!(check_detector_reference_output_shape(&[1, 1, 64, 32], 32, 64).is_err());
}
