use karma::health::{
    engine_status_word, sum_health,
    InferenceError, InferenceErrorKind, InferenceHealth, InferenceHealthState, OcrInferenceHealth,
};
use karma::recognition::{should_capture_evidence, RecognitionPolicy, RecognitionSettings};

#[test]
fn records_success_and_failure_without_content() {
    let mut health = InferenceHealth::default();

    health.record_success(120);
    health.record_failure();

    assert_eq!(health.inferences(), 1);
    assert_eq!(health.failures(), 1);
    assert_eq!(health.total_latency_micros(), 120);
    assert_eq!(health.last_latency_micros(), 120);
}

#[test]
fn latency_counters_saturate() {
    let mut health = InferenceHealth::default();
    health.record_success(u64::MAX);
    health.record_success(5);
    assert_eq!(health.inferences(), 2);
    assert_eq!(health.total_latency_micros(), u64::MAX);
    assert_eq!(health.last_latency_micros(), 5);
}

#[test]
fn ocr_health_counts_skipped_boxes_and_resource_limits() {
    let mut health = OcrInferenceHealth::default();
    health.record_success(30, 4, true);
    health.record_success(10, 2, false);
    health.record_failure();
    assert_eq!(health.inferences(), 2);
    assert_eq!(health.failures(), 1);
    assert_eq!(health.skipped_boxes(), 6);
    assert_eq!(health.resource_limit_events(), 1);
    assert_eq!(health.total_latency_micros(), 40);
    assert_eq!(health.last_latency_micros(), 10);
}

#[test]
fn consecutive_failures_mark_ai_unavailable_until_success() {
    let mut state = InferenceHealthState::default();
    state.record_failure();
    state.record_failure();
    assert!(state.is_available());
    state.record_failure();
    assert!(!state.is_available());
    state.record_success(10);
    assert!(state.is_available());
    assert_eq!(state.metrics().failures(), 3);
    assert_eq!(state.metrics().inferences(), 1);
}

#[test]
fn marking_unavailable_counts_no_failure_and_success_recovers() {
    let mut state = InferenceHealthState::new();
    state.mark_unavailable();
    assert!(!state.is_available());
    assert_eq!(state.metrics().failures(), 0);
    state.record_success(1);
    assert!(state.is_available());
}

#[test]
fn error_kinds_have_stable_codes() {
    assert_eq!(InferenceErrorKind::ManifestInvalid.code(), "manifest_invalid");
    assert_eq!(InferenceErrorKind::ModelHashMismatch.code(), "model_hash_mismatch");
    assert_eq!(InferenceErrorKind::OutputInvalid.code(), "output_invalid");
    assert_eq!(
        InferenceError::new(InferenceErrorKind::ModelMissing).kind(),
        InferenceErrorKind::ModelMissing
    );
}

#[test]
fn evidence_gate_requires_enablement_threshold_and_cooldown() {
    assert!(!should_capture_evidence(false, 950, 990, 10_000, 0, 5_000));
    assert!(!should_capture_evidence(true, 950, 949, 10_000, 0, 5_000));
    assert!(!should_capture_evidence(true, 950, 950, 4_999, 0, 5_000));
    assert!(should_capture_evidence(true, 950, 950, 5_000, 0, 5_000));
}

#[test]
fn evidence_gate_never_overflows_on_the_first_capture() {
    assert!(should_capture_evidence(true, 0, 0, 0, i64::MIN, 5_000));
    assert!(!should_capture_evidence(true, 0, 0, i64::MIN, i64::MAX, -1));
}

#[test]
fn recognition_policy_defaults_and_caps_the_threshold() {
    let defaults = RecognitionPolicy::from_settings(RecognitionSettings {
        protection_enabled: None,
        image_enabled: None,
        evidence_enabled: None,
        threshold_percent: None,
    });
    assert_eq!(defaults, RecognitionPolicy::default());
    let custom = RecognitionPolicy::from_settings(RecognitionSettings {
        protection_enabled: Some(false),
        image_enabled: Some(false),
        evidence_enabled: Some(true),
        threshold_percent: Some(250),
    });
    assert!(!custom.protection_enabled);
    assert!(!custom.image_enabled);
    assert!(custom.evidence_enabled);
    assert_eq!(custom.threshold_millis, 1000);
    let sensitive = RecognitionPolicy::from_settings(RecognitionSettings {
        protection_enabled: None,
        image_enabled: None,
        evidence_enabled: None,
        threshold_percent: Some(67),
    });
    assert_eq!(sensitive.threshold_millis, 670);
}

#[test]
fn ocr_error_kinds_have_stable_codes() {
    assert_eq!(InferenceErrorKind::OcrContractInvalid.code(), "ocr_contract_invalid");
    assert_eq!(InferenceErrorKind::OcrLicenseInvalid.code(), "ocr_license_invalid");
    assert_eq!(InferenceErrorKind::OcrAssetMissing.code(), "ocr_asset_missing");
    assert_eq!(InferenceErrorKind::OcrAssetHashMismatch.code(), "ocr_asset_hash_mismatch");
    assert_eq!(InferenceErrorKind::OcrDictionaryInvalid.code(), "ocr_dictionary_invalid");
    assert_eq!(InferenceErrorKind::OcrReferenceInvalid.code(), "ocr_reference_invalid");
}

#[test]
fn engine_health_sums_over_monitors() {
    let mut busy = InferenceHealth::default();
    busy.record_success(100);
    busy.record_failure();
    let idle = InferenceHealth::default();
    let totals = sum_health(&[(busy, true), (idle, false)]);
    assert_eq!(totals.inferences, 1);
    assert_eq!(totals.failures, 1);
    assert_eq!(totals.latency_micros, 100);
    assert_eq!(totals.unavailable_monitors, 1);
    assert_eq!(engine_status_word(totals.unavailable_monitors), "unavailable");
    assert_eq!(engine_status_word(0), "running");
}

#[test]
fn recorded_inferences_follow_the_last_failures() {
    let mut state = InferenceHealthState::new();
    for _ in 0..3 {
        state.record_inference(false, 0);
    }
    assert!(!state.is_available());
    state.record_inference(true, 40);
    assert!(state.is_available());
    assert_eq!(state.metrics().inferences(), 1);
    assert_eq!(state.metrics().failures(), 3);
}
