use karma::agent::evidence_submission;
use karma::ipc::ComponentState::{Degraded, Healthy, Starting, Unavailable};
use karma::ipc::{BootstrapStatus, ServiceErrorCode, ServiceFailure, ServiceResult};
use karma::service_console::{
    acknowledged, bootstrap_word, evidence_risk_word, map_failure, monitor_latency_ms,
    monitor_state_word, session_from, ServiceConsoleError,
};

#[test]
fn monitor_states_are_offline_healthy_or_degraded() {
    assert_eq!(monitor_state_word(Healthy, Healthy, Healthy), "healthy");
    assert_eq!(monitor_state_word(Healthy, Unavailable, Healthy), "offline");
    assert_eq!(monitor_state_word(Degraded, Healthy, Healthy), "degraded");
    assert_eq!(monitor_state_word(Healthy, Healthy, Starting), "degraded");
    assert_eq!(monitor_state_word(Unavailable, Degraded, Starting), "offline");
}

#[test]
fn evidence_risk_and_latency_are_shown_as_words_and_milliseconds() {
    assert_eq!(evidence_risk_word(950), "critical");
    assert_eq!(evidence_risk_word(1000), "critical");
    assert_eq!(evidence_risk_word(949), "high");
    assert_eq!(monitor_latency_ms(12_999), 12);
    assert_eq!(monitor_latency_ms(999), 0);
}

#[test]
fn service_failures_map_to_console_errors() {
    let error = |code| map_failure(ServiceFailure::new(code));
    assert_eq!(error(ServiceErrorCode::AuthenticationFailed), ServiceConsoleError::InvalidPassword);
    assert_eq!(error(ServiceErrorCode::AuthenticationRequired), ServiceConsoleError::SessionExpired);
    assert_eq!(error(ServiceErrorCode::RateLimited), ServiceConsoleError::RateLimited);
    assert_eq!(error(ServiceErrorCode::RevisionConflict), ServiceConsoleError::RevisionConflict);
    assert_eq!(error(ServiceErrorCode::StorageUnavailable), ServiceConsoleError::ServiceUnavailable);
    assert_eq!(error(ServiceErrorCode::ReplayDetected), ServiceConsoleError::RequestDenied);
}

#[test]
fn console_answers_are_read_by_kind() {
    assert_eq!(
        bootstrap_word(&ServiceResult::Bootstrap(BootstrapStatus::SetupRequired)),
        Ok("setup")
    );
    assert_eq!(bootstrap_word(&ServiceResult::Bootstrap(BootstrapStatus::Locked)), Ok("locked"));
    assert_eq!(bootstrap_word(&ServiceResult::Acknowledged), Err(ServiceConsoleError::InvalidResponse));
    assert_eq!(acknowledged(&ServiceResult::Acknowledged), Ok(()));
    assert_eq!(
        session_from(ServiceResult::Session { session_token: "token".into(), expires_in_seconds: 900 }),
        Ok("token".to_string())
    );
    assert_eq!(
        session_from(ServiceResult::Acknowledged),
        Err(ServiceConsoleError::InvalidResponse)
    );
}

#[test]
fn evidence_is_submitted_as_base64_jpeg_for_an_immediate_image_verdict() {
    let submission = evidence_submission(
        "event-1".into(),
        7,
        "Display 1".into(),
        "browser.exe".into(),
        980,
        b"hello",
    );
    assert_eq!(submission.bytes_base64, "aGVsbG8=");
    assert_eq!(submission.media_type, "image/jpeg");
    assert_eq!(submission.reason_code, "image_immediate");
    assert_eq!(submission.risk_millis, 980);
    assert_eq!(submission.evidence_id, "event-1");
}
