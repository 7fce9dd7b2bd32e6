use vstd::prelude::*;

use crate::ipc::{BootstrapStatus, ComponentState, ServiceErrorCode, ServiceFailure, ServiceResult};

verus! {

// ---------------------------------------------------------------------------
// The administrator console of the protection service: how it reads the service's answers
// and shows the live status. Sending the requests is the caller's.
// ---------------------------------------------------------------------------

/// Why a console request to the service failed.
#[derive(Debug, Clone, Copy, PartialEq, Eq, Structural)]
pub enum ServiceConsoleError {
    ServiceUnavailable,
    PasswordTooShort,
    InvalidPassword,
    RateLimited,
    SessionExpired,
    AlreadyEnrolled,
    NotEnrolled,
    RevisionConflict,
    EvidenceUnavailable,
    RequestDenied,
    InvalidResponse,
    ExportFailed,
    InvalidBackup,
}

/// The console error a service failure code is shown as.
pub open spec fn failure_error(code: ServiceErrorCode) -> ServiceConsoleError {
    match code {
        ServiceErrorCode::AuthenticationFailed => ServiceConsoleError::InvalidPassword,
        ServiceErrorCode::AuthenticationRequired => ServiceConsoleError::SessionExpired,
        ServiceErrorCode::RateLimited => ServiceConsoleError::RateLimited,
        ServiceErrorCode::AlreadyEnrolled => ServiceConsoleError::AlreadyEnrolled,
        ServiceErrorCode::NotEnrolled => ServiceConsoleError::NotEnrolled,
        ServiceErrorCode::RevisionConflict => ServiceConsoleError::RevisionConflict,
        ServiceErrorCode::EvidenceUnavailable => ServiceConsoleError::EvidenceUnavailable,
        ServiceErrorCode::ServiceUnavailable | ServiceErrorCode::StorageUnavailable => ServiceConsoleError::ServiceUnavailable,
        _ => ServiceConsoleError::RequestDenied,
    }
}

/// The console error for a failed answer: authentication, rate, enrolment, revision and
/// evidence failures keep their meaning, an unavailable service or store is unavailable,
/// and anything else is a denied request.
pub fn map_failure(failure: ServiceFailure) -> (error: ServiceConsoleError)
    ensures
        error == failure_error(failure.code),
{
    match failure.code {
        ServiceErrorCode::AuthenticationFailed => ServiceConsoleError::InvalidPassword,
        ServiceErrorCode::AuthenticationRequired => ServiceConsoleError::SessionExpired,
        ServiceErrorCode::RateLimited => ServiceConsoleError::RateLimited,
        ServiceErrorCode::AlreadyEnrolled => ServiceConsoleError::AlreadyEnrolled,
        ServiceErrorCode::NotEnrolled => ServiceConsoleError::NotEnrolled,
        ServiceErrorCode::RevisionConflict => ServiceConsoleError::RevisionConflict,
        ServiceErrorCode::EvidenceUnavailable => ServiceConsoleError::EvidenceUnavailable,
        ServiceErrorCode::ServiceUnavailable | ServiceErrorCode::StorageUnavailable => ServiceConsoleError::ServiceUnavailable,
        _ => ServiceConsoleError::RequestDenied,
    }
}

/// What the console shows before it is unlocked: `setup` where no administrator is
/// enrolled, `locked` where one is; any other answer is invalid.
pub fn bootstrap_word(result: &ServiceResult) -> (r: Result<&'static str, ServiceConsoleError>)
    ensures
        match *result {
            ServiceResult::Bootstrap(BootstrapStatus::SetupRequired) => r matches Ok(w) && w@ == "setup"@,
            ServiceResult::Bootstrap(BootstrapStatus::Locked) => r matches Ok(w) && w@ == "locked"@,
            _ => r == Err::<&'static str, ServiceConsoleError>(ServiceConsoleError::InvalidResponse),
        },
{
    match result {
        ServiceResult::Bootstrap(BootstrapStatus::SetupRequired) => Ok("setup"),
        ServiceResult::Bootstrap(BootstrapStatus::Locked) => Ok("locked"),
        _ => Err(ServiceConsoleError::InvalidResponse),
    }
}

/// The session token of a session answer; any other answer is invalid.
pub fn session_from(result: ServiceResult) -> (r: Result<String, ServiceConsoleError>)
    ensures
        match result {
            ServiceResult::Session { session_token, .. } => r matches Ok(t) && t@ == session_token@,
            _ => r == Err::<String, ServiceConsoleError>(ServiceConsoleError::InvalidResponse),
        },
{
    match result {
        ServiceResult::Session { session_token, .. } => Ok(session_token),
        _ => Err(ServiceConsoleError::InvalidResponse),
    }
}

/// An acknowledgement; any other answer is invalid.
pub fn acknowledged(result: &ServiceResult) -> (r: Result<(), ServiceConsoleError>)
    ensures
        r is Ok <==> *result is Acknowledged,
        r is Err ==> r == Err::<(), ServiceConsoleError>(ServiceConsoleError::InvalidResponse),
{
    match result {
        ServiceResult::Acknowledged => Ok(()),
        _ => Err(ServiceConsoleError::InvalidResponse),
    }
}

/// The word a monitor's state is shown as: `offline` where any of its frame, image and OCR
/// components is unavailable, `healthy` where all three are healthy, `degraded` otherwise.
pub open spec fn monitor_state_word_spec(frame: ComponentState, image: ComponentState, ocr: ComponentState) -> Seq<char> {
    if frame == ComponentState::Unavailable || image == ComponentState::Unavailable || ocr
        == ComponentState::Unavailable {
        "offline"@
    } else if frame == ComponentState::Healthy && image == ComponentState::Healthy && ocr == ComponentState::Healthy {
        "healthy"@
    } else {
        "degraded"@
    }
}

/// The word a monitor's state is shown as.
pub fn monitor_state_word(frame: ComponentState, image: ComponentState, ocr: ComponentState) -> (w: &'static str)
    ensures
        w@ == monitor_state_word_spec(frame, image, ocr),
{
    if frame == ComponentState::Unavailable || image == ComponentState::Unavailable || ocr == ComponentState::Unavailable {
        "offline"
    } else if frame == ComponentState::Healthy && image == ComponentState::Healthy && ocr == ComponentState::Healthy {
        "healthy"
    } else {
        "degraded"
    }
}

/// The risk an evidence item is shown with: `critical` from a risk of 950 thousandths,
/// `high` below.
pub fn evidence_risk_word(risk_millis: u16) -> (w: &'static str)
    ensures
        w@ == (if risk_millis >= 950 {
            "critical"@
        } else {
            "high"@
        }),
{
    if risk_millis >= 950 {
        "critical"
    } else {
        "high"
    }
}

/// A monitor's latency as shown: whole milliseconds.
pub fn monitor_latency_ms(latency_micros: u64) -> (ms: u64)
    ensures
        ms == latency_micros / 1000,
{
    latency_micros / 1000
}

} // verus!
