use karma::health::InferenceErrorKind;
use karma::image_session::{check_detector_session, check_recognizer_session, TensorPort};

fn port(name: &str, shape: Vec<i64>) -> TensorPort {
    TensorPort {
        name: name.into(),
        is_f32_tensor: true,
        shape: Some(shape),
    }
}

#[test]
fn detector_sessions_take_any_image_size_and_give_one_map() {
    let inputs = [port("x", vec![1, 3, -1, -1])];
    let outputs = [port("sigmoid_0.tmp_0", vec![1, 1, -1, -1])];
    assert_eq!(check_detector_session(&inputs, &outputs, "x", "sigmoid_0.tmp_0"), Ok(()));
    assert_eq!(
        check_detector_session(&inputs, &outputs, "wrong_input", "sigmoid_0.tmp_0")
            .err()
            .map(|error| error.kind()),
        Some(InferenceErrorKind::ModelContractMismatch)
    );
    let fixed = [port("x", vec![1, 3, 640, 640])];
    assert!(check_detector_session(&fixed, &outputs, "x", "sigmoid_0.tmp_0").is_err());
}

#[test]
fn recognizer_sessions_must_give_one_score_per_dictionary_class() {
    let inputs = [port("x", vec![-1, 3, 48, -1])];
    let outputs = [port("softmax_0.tmp_0", vec![-1, 40, 3])];
    assert_eq!(check_recognizer_session(&inputs, &outputs, "x", "softmax_0.tmp_0", 3), Ok(()));
    assert!(check_recognizer_session(&inputs, &outputs, "x", "softmax_0.tmp_0", 4).is_err());
    let no_steps = [port("softmax_0.tmp_0", vec![-1, 0, 3])];
    assert!(check_recognizer_session(&inputs, &no_steps, "x", "softmax_0.tmp_0", 3).is_err());
    let extra_output = [port("softmax_0.tmp_0", vec![-1, 40, 3]), port("extra", vec![1])];
    assert!(check_recognizer_session(&inputs, &extra_output, "x", "softmax_0.tmp_0", 3).is_err());
}
