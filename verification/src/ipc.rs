use vstd::prelude::*;

use crate::text::{
    all_hex_bytes, all_opaque_bytes, byte_len, char_count, char_is_control, char_is_whitespace,
    hex_bytes, is_ascii_whitespace_byte, is_control_char, is_unicode_whitespace, opaque_bytes,
    str_eq, utf8,
};

verus! {

/// The only protocol version this library speaks.
pub const PROTOCOL_VERSION: u16 = 1;

/// The largest body a frame may carry, in bytes.
pub const MAX_FRAME_BYTES: usize = 1048576;

pub const MAX_REQUEST_ID_CHARS: usize = 64;

pub const MAX_NONCE_CHARS: usize = 128;

pub const MAX_SESSION_TOKEN_CHARS: usize = 128;

pub const MAX_PASSWORD_CHARS: usize = 1024;

pub const MAX_WINDOW_TITLE_CHARS: usize = 512;

pub const MAX_BROWSER_HOST_CHARS: usize = 253;

/// The longest identifier (event, agent, monitor, evidence), in characters.
pub const MAX_IDENTIFIER_CHARS: usize = 128;

/// The kind of process that sends a request.
#[derive(Debug, Clone, Copy, PartialEq, Eq, Structural)]
pub enum ClientKind {
    Ui,
    Agent,
    Installer,
}

/// Why a frame or a message was refused.
#[derive(Debug, Clone, Copy, PartialEq, Eq, Structural)]
pub enum ProtocolError {
    FrameTooLarge,
    TruncatedFrame,
    InvalidJson,
    UnsupportedVersion,
    ClientRoleDenied,
    InvalidField,
}

/// The health of one monitored display.
#[derive(Debug, Clone, PartialEq, Eq)]
pub struct MonitorHealth {
    pub monitor_id: String,
    pub name: String,
    pub width: u32,
    pub height: u32,
    pub frame_status: ComponentState,
    pub image_status: ComponentState,
    pub ocr_status: ComponentState,
    pub image_inferences: u64,
    pub ocr_inferences: u64,
    pub latency_micros: u64,
}

/// The state of a component as reported in health records.
#[derive(Debug, Clone, Copy, PartialEq, Eq, Structural)]
pub enum ComponentState {
    Starting,
    Healthy,
    Degraded,
    Unavailable,
    Stopped,
}

/// A periodic liveness report from the session agent.
#[derive(Debug, Clone, PartialEq, Eq)]
pub struct AgentHeartbeat {
    pub agent_instance_id: String,
    pub user_sid: String,
    pub process_id: u32,
    pub sent_at_ms: i64,
    pub monitors: Vec<MonitorHealth>,
}

/// A process as identified by its id, start time, executable and optional hash.
#[derive(Debug, Clone, PartialEq, Eq)]
pub struct ProcessIdentity {
    pub process_id: u32,
    pub started_at_ms: i64,
    pub executable_name: String,
    pub executable_sha256: Option<String>,
}

/// A risk observation reported by the agent.
#[derive(Debug, Clone, PartialEq, Eq)]
pub struct AgentObservation {
    pub event_id: String,
    pub agent_instance_id: String,
    pub occurred_at_ms: i64,
    pub monitor_id: String,
    pub risk_millis: u16,
    pub reason_code: String,
    pub source: Option<ProcessIdentity>,
    pub browser_host: Option<String>,
    pub evidence_pending: bool,
}

/// The window context of a foreground process.
#[derive(Clone, PartialEq, Eq)]
pub struct AgentContextObservation {
    pub event_id: String,
    pub agent_instance_id: String,
    pub occurred_at_ms: i64,
    pub source: ProcessIdentity,
    pub window_title: String,
    pub browser_host: Option<String>,
}

/// An encoded evidence image submitted for encrypted storage.
#[derive(Clone)]
pub struct EvidenceSubmission {
    pub evidence_id: String,
    pub captured_at_ms: i64,
    pub monitor_name: String,
    pub application_name: String,
    pub reason_code: String,
    pub risk_millis: u16,
    pub media_type: String,
    pub bytes_base64: String,
}

/// The result of an enforcement attempt on a process.
#[derive(Debug, Clone, Copy, PartialEq, Eq, Structural)]
pub enum DispositionOutcome {
    ClosedGracefully,
    Terminated,
    IdentityChanged,
    AccessDenied,
    SourceUncertain,
}

/// A report of one enforcement attempt.
#[derive(Debug, Clone, PartialEq, Eq)]
pub struct DispositionReport {
    pub event_id: String,
    pub process_id: u32,
    pub started_at_ms: i64,
    pub outcome: DispositionOutcome,
}

/// A request to the service. A policy travels as its compact JSON text.
#[derive(Clone)]
pub enum ServiceRequest {
    GetBootstrap,
    EnrollAdministrator { password: String },
    Authenticate { password: String },
    ChangePassword { session_token: String, current_password: String, new_password: String },
    LockSession { session_token: String },
    GetStatus { session_token: String },
    GetPolicy { session_token: String },
    PutPolicy { session_token: String, expected_revision: u64, policy: String },
    ListEvidence { session_token: String },
    RevealEvidence { session_token: String, password: String, evidence_id: String },
    DeleteEvidence { session_token: String, evidence_id: String },
    AgentHeartbeat { agent_token: String, heartbeat: AgentHeartbeat },
    AgentObservation { agent_token: String, observation: AgentObservation },
    AgentContextObservation { agent_token: String, observation: AgentContextObservation },
    SubmitEvidence { agent_token: String, evidence: EvidenceSubmission },
    GetAgentPolicy { agent_token: String },
    ReportDisposition { agent_token: String, report: DispositionReport },
    RequestShutdown { password: String },
}

/// A versioned request with its identifier, nonce and sender role.
#[derive(Clone)]
pub struct RequestEnvelope {
    pub protocol_version: u16,
    pub request_id: String,
    pub nonce: String,
    pub client: ClientKind,
    pub request: ServiceRequest,
}

/// Whether the console must be set up or unlocked.
#[derive(Debug, Clone, Copy, PartialEq, Eq, Structural)]
pub enum BootstrapStatus {
    SetupRequired,
    Locked,
}

/// The service status shown to the console.
#[derive(Debug, Clone)]
pub struct ServiceStatus {
    pub service_started_at_ms: i64,
    pub policy_revision: u64,
    pub protection_enabled: bool,
    pub agent_connected: bool,
    pub agent_last_seen_at_ms: Option<i64>,
    pub monitors: Vec<MonitorHealth>,
    pub evidence_count: u64,
    pub audit_count: u64,
}

/// The metadata of one stored evidence item.
#[derive(Debug, Clone)]
pub struct EvidenceMetadata {
    pub id: String,
    pub captured_at_ms: i64,
    pub monitor_name: String,
    pub application_name: String,
    pub reason_code: String,
    pub risk_millis: u16,
    pub original_available: bool,
}

/// The error codes the service answers with.
#[derive(Debug, Clone, Copy, PartialEq, Eq, Structural)]
pub enum ServiceErrorCode {
    InvalidRequest,
    UnsupportedVersion,
    ReplayDetected,
    AuthenticationRequired,
    AuthenticationFailed,
    RateLimited,
    AlreadyEnrolled,
    NotEnrolled,
    RevisionConflict,
    EvidenceUnavailable,
    AgentUnauthorized,
    ServiceUnavailable,
    StorageUnavailable,
    Internal,
}

/// A failed answer, with an optional retry delay.
#[derive(Debug, Clone, Copy, PartialEq, Eq, Structural)]
pub struct ServiceFailure {
    pub code: ServiceErrorCode,
    pub retry_after_seconds: Option<u32>,
}

impl ServiceFailure {
    /// A failure with `code` and no retry delay.
    pub fn new(code: ServiceErrorCode) -> (failure: Self)
        ensures
            failure.code == code,
            failure.retry_after_seconds is None,
    {
        ServiceFailure { code, retry_after_seconds: None }
    }
}

/// A successful answer. A policy travels as its compact JSON text.
#[derive(Debug, Clone)]
pub enum ServiceResult {
    Bootstrap(BootstrapStatus),
    Session { session_token: String, expires_in_seconds: u32 },
    Status(ServiceStatus),
    Policy { revision: u64, policy: String },
    PolicySaved { revision: u64 },
    EvidenceList { items: Vec<EvidenceMetadata> },
    EvidenceImage { media_type: String, bytes_base64: String },
    AgentPolicy { revision: u64, policy: String },
    DispositionRequired { event_id: String, target: ProcessIdentity, grace_period_ms: u32 },
    DispositionCompleted { report: DispositionReport },
    Acknowledged,
}

/// A versioned answer to the request with `request_id`.
#[derive(Debug)]
pub struct ResponseEnvelope {
    pub protocol_version: u16,
    pub request_id: String,
    pub result: Result<ServiceResult, ServiceFailure>,
}

impl ResponseEnvelope {
    /// A successful answer under the current protocol version.
    pub fn success(request_id: String, result: ServiceResult) -> (response: Self)
        ensures
            response.protocol_version == PROTOCOL_VERSION,
            response.request_id@ == request_id@,
            response.result == Ok::<ServiceResult, ServiceFailure>(result),
    {
        ResponseEnvelope { protocol_version: PROTOCOL_VERSION, request_id, result: Ok(result) }
    }

    /// A failed answer under the current protocol version.
    pub fn failure(request_id: String, failure: ServiceFailure) -> (response: Self)
        ensures
            response.protocol_version == PROTOCOL_VERSION,
            response.request_id@ == request_id@,
            response.result == Err::<ServiceResult, ServiceFailure>(failure),
    {
        ResponseEnvelope { protocol_version: PROTOCOL_VERSION, request_id, result: Err(failure) }
    }
}

// ---------------------------------------------------------------------------
// What the service does around each answer.
// ---------------------------------------------------------------------------

/// Whether a request asks the service to shut down.
pub fn is_shutdown_request(request: &ServiceRequest) -> (shutdown: bool)
    ensures
        shutdown == (request is RequestShutdown),
{
    match request {
        ServiceRequest::RequestShutdown { .. } => true,
        _ => false,
    }
}

/// The service stops after answering exactly where the request asked it to and the answer
/// is a success.
pub fn shutdown_authorized(shutdown_requested: bool, response: &ResponseEnvelope) -> (stop: bool)
    ensures
        stop == (shutdown_requested && response.result is Ok),
{
    shutdown_requested && response.result.is_ok()
}

/// The answer once a required disposition ran: where its report was recorded, the answer
/// carries the completed report; otherwise it is an internal failure. The request id
/// stays.
pub fn complete_disposition(response: ResponseEnvelope, report: DispositionReport, recorded: bool) -> (completed:
    ResponseEnvelope)
    ensures
        completed.request_id@ == response.request_id@,
        recorded ==> completed.protocol_version == response.protocol_version && completed.result == Ok::<
            ServiceResult,
            ServiceFailure,
        >(ServiceResult::DispositionCompleted { report }),
        !recorded ==> completed.protocol_version == PROTOCOL_VERSION && completed.result == Err::<
            ServiceResult,
            ServiceFailure,
        >(ServiceFailure { code: ServiceErrorCode::Internal, retry_after_seconds: None }),
{
    if recorded {
        ResponseEnvelope {
            protocol_version: response.protocol_version,
            request_id: response.request_id,
            result: Ok(ServiceResult::DispositionCompleted { report }),
        }
    } else {
        ResponseEnvelope::failure(response.request_id, ServiceFailure::new(ServiceErrorCode::Internal))
    }
}

// ---------------------------------------------------------------------------
// What a valid message is.
// ---------------------------------------------------------------------------

/// A non-empty opaque token of at most `max` characters, made of ASCII letters, digits,
/// `-` and `_`.
pub open spec fn opaque_ok(s: Seq<char>, max: int) -> bool {
    s.len() > 0 && s.len() <= max && all_opaque_bytes(s)
}

/// An opaque identifier of at most 128 characters.
pub open spec fn identifier_ok(s: Seq<char>) -> bool {
    opaque_ok(s, MAX_IDENTIFIER_CHARS as int)
}

/// A byte that may not stand in a browser host: ASCII whitespace, `/`, `\` or `@`.
pub open spec fn is_host_forbidden_byte(b: u8) -> bool {
    is_ascii_whitespace_byte(b) || b == 47 || b == 92 || b == 64
}

/// An absent host, or a non-empty host of at most 253 characters without forbidden bytes.
pub open spec fn browser_host_ok(host: Option<String>) -> bool {
    match host {
        None => true,
        Some(h) => h@.len() > 0 && h@.len() <= MAX_BROWSER_HOST_CHARS && forall|i: int|
            0 <= i < utf8(h@).len() ==> !is_host_forbidden_byte(#[trigger] utf8(h@)[i]),
    }
}

/// A non-empty password of at most 1024 characters.
pub open spec fn password_ok(p: Seq<char>) -> bool {
    p.len() > 0 && p.len() <= MAX_PASSWORD_CHARS
}

pub open spec fn monitor_health_ok(m: MonitorHealth) -> bool {
    identifier_ok(m.monitor_id@) && m.name@.len() <= 128 && m.width != 0 && m.height != 0
}

pub open spec fn heartbeat_ok(h: AgentHeartbeat) -> bool {
    &&& identifier_ok(h.agent_instance_id@)
    &&& h.user_sid@.len() > 0
    &&& utf8(h.user_sid@).len() <= 184
    &&& h.process_id != 0
    &&& h.monitors@.len() <= 16
    &&& forall|i: int| 0 <= i < h.monitors@.len() ==> monitor_health_ok(#[trigger] h.monitors@[i])
}

pub open spec fn process_identity_ok(p: ProcessIdentity) -> bool {
    &&& p.process_id != 0
    &&& p.executable_name@.len() > 0
    &&& p.executable_name@.len() <= 260
    &&& match p.executable_sha256 {
        None => true,
        Some(hash) => utf8(hash@).len() == 64 && all_hex_bytes(hash@),
    }
}

pub open spec fn observation_ok(o: AgentObservation) -> bool {
    &&& identifier_ok(o.event_id@)
    &&& identifier_ok(o.agent_instance_id@)
    &&& identifier_ok(o.monitor_id@)
    &&& o.risk_millis <= 1000
    &&& utf8(o.reason_code@).len() <= 64
    &&& match o.source {
        None => true,
        Some(s) => process_identity_ok(s),
    }
    &&& browser_host_ok(o.browser_host)
}

/// A control character that is not also whitespace.
pub open spec fn is_forbidden_title_char(c: char) -> bool {
    is_control_char(c) && !is_unicode_whitespace(c)
}

pub open spec fn context_ok(c: AgentContextObservation) -> bool {
    &&& identifier_ok(c.event_id@)
    &&& identifier_ok(c.agent_instance_id@)
    &&& process_identity_ok(c.source)
    &&& !(c.window_title@.len() == 0 && c.browser_host is None)
    &&& c.window_title@.len() <= MAX_WINDOW_TITLE_CHARS
    &&& forall|i: int|
        0 <= i < c.window_title@.len() ==> !is_forbidden_title_char(#[trigger] c.window_title@[i])
    &&& browser_host_ok(c.browser_host)
}

pub open spec fn evidence_ok(e: EvidenceSubmission) -> bool {
    &&& identifier_ok(e.evidence_id@)
    &&& e.monitor_name@.len() <= 128
    &&& e.application_name@.len() <= 260
    &&& utf8(e.reason_code@).len() <= 64
    &&& e.risk_millis <= 1000
    &&& (e.media_type@ == "image/jpeg"@ || e.media_type@ == "image/png"@)
    &&& utf8(e.bytes_base64@).len() <= MAX_FRAME_BYTES * 3 / 4
}

pub open spec fn report_ok(r: DispositionReport) -> bool {
    identifier_ok(r.event_id@) && r.process_id != 0
}

/// The only role that may send `request`.
pub open spec fn required_client(request: ServiceRequest) -> ClientKind {
    match request {
        ServiceRequest::AgentHeartbeat { .. }
        | ServiceRequest::AgentObservation { .. }
        | ServiceRequest::AgentContextObservation { .. }
        | ServiceRequest::SubmitEvidence { .. }
        | ServiceRequest::GetAgentPolicy { .. }
        | ServiceRequest::ReportDisposition { .. } => ClientKind::Agent,
        ServiceRequest::RequestShutdown { .. } => ClientKind::Installer,
        _ => ClientKind::Ui,
    }
}

/// Every password that `request` carries is well formed.
pub open spec fn passwords_ok(request: ServiceRequest) -> bool {
    match request {
        ServiceRequest::EnrollAdministrator { password } => password_ok(password@),
        ServiceRequest::Authenticate { password } => password_ok(password@),
        ServiceRequest::RevealEvidence { password, .. } => password_ok(password@),
        ServiceRequest::RequestShutdown { password } => password_ok(password@),
        ServiceRequest::ChangePassword { current_password, new_password, .. } => password_ok(
            current_password@,
        ) && password_ok(new_password@),
        _ => true,
    }
}

/// The session or agent token of `request`, if it carries one.
pub open spec fn request_token(request: ServiceRequest) -> Option<String> {
    match request {
        ServiceRequest::LockSession { session_token } => Some(session_token),
        ServiceRequest::GetStatus { session_token } => Some(session_token),
        ServiceRequest::GetPolicy { session_token } => Some(session_token),
        ServiceRequest::PutPolicy { session_token, .. } => Some(session_token),
        ServiceRequest::ListEvidence { session_token } => Some(session_token),
        ServiceRequest::RevealEvidence { session_token, .. } => Some(session_token),
        ServiceRequest::DeleteEvidence { session_token, .. } => Some(session_token),
        ServiceRequest::ChangePassword { session_token, .. } => Some(session_token),
        ServiceRequest::AgentHeartbeat { agent_token, .. } => Some(agent_token),
        ServiceRequest::AgentObservation { agent_token, .. } => Some(agent_token),
        ServiceRequest::AgentContextObservation { agent_token, .. } => Some(agent_token),
        ServiceRequest::SubmitEvidence { agent_token, .. } => Some(agent_token),
        ServiceRequest::GetAgentPolicy { agent_token } => Some(agent_token),
        ServiceRequest::ReportDisposition { agent_token, .. } => Some(agent_token),
        _ => None,
    }
}

/// The token of `request`, if any, is a well-formed opaque token.
pub open spec fn token_ok(request: ServiceRequest) -> bool {
    match request_token(request) {
        None => true,
        Some(t) => opaque_ok(t@, MAX_SESSION_TOKEN_CHARS as int),
    }
}

/// The evidence identifier or nested record of `request`, if any, is well formed.
pub open spec fn payload_ok(request: ServiceRequest) -> bool {
    match request {
        ServiceRequest::RevealEvidence { evidence_id, .. } => identifier_ok(evidence_id@),
        ServiceRequest::DeleteEvidence { evidence_id, .. } => identifier_ok(evidence_id@),
        ServiceRequest::AgentHeartbeat { heartbeat, .. } => heartbeat_ok(heartbeat),
        ServiceRequest::AgentObservation { observation, .. } => observation_ok(observation),
        ServiceRequest::AgentContextObservation { observation, .. } => context_ok(observation),
        ServiceRequest::SubmitEvidence { evidence, .. } => evidence_ok(evidence),
        ServiceRequest::ReportDisposition { report, .. } => report_ok(report),
        _ => true,
    }
}

/// A submitted policy, if any, takes at most half a frame.
pub open spec fn policy_size_ok(request: ServiceRequest) -> bool {
    match request {
        ServiceRequest::PutPolicy { policy, .. } => utf8(policy@).len() <= MAX_FRAME_BYTES / 2,
        _ => true,
    }
}

/// The verdict on `request` sent by `client`: the role is checked first, then every
/// field, then the size of a submitted policy.
pub open spec fn request_verdict(request: ServiceRequest, client: ClientKind) -> Result<
    (),
    ProtocolError,
> {
    if required_client(request) != client {
        Err(ProtocolError::ClientRoleDenied)
    } else if !(passwords_ok(request) && token_ok(request) && payload_ok(request)) {
        Err(ProtocolError::InvalidField)
    } else if !policy_size_ok(request) {
        Err(ProtocolError::FrameTooLarge)
    } else {
        Ok(())
    }
}

/// The verdict on a whole envelope: version, then request id and nonce, then the request.
pub open spec fn envelope_verdict(e: RequestEnvelope) -> Result<(), ProtocolError> {
    if e.protocol_version != PROTOCOL_VERSION {
        Err(ProtocolError::UnsupportedVersion)
    } else if !opaque_ok(e.request_id@, MAX_REQUEST_ID_CHARS as int) || !opaque_ok(
        e.nonce@,
        MAX_NONCE_CHARS as int,
    ) {
        Err(ProtocolError::InvalidField)
    } else {
        request_verdict(e.request, e.client)
    }
}

pub open spec fn field_verdict(ok: bool) -> Result<(), ProtocolError> {
    if ok {
        Ok(())
    } else {
        Err(ProtocolError::InvalidField)
    }
}

// ---------------------------------------------------------------------------
// Checks.
// ---------------------------------------------------------------------------

fn validate_opaque(value: &str, maximum_chars: usize) -> (r: Result<(), ProtocolError>)
    ensures
        r == field_verdict(opaque_ok(value@, maximum_chars as int)),
{
    let count = char_count(value);
    if count == 0 || count > maximum_chars || !opaque_bytes(value) {
        return Err(ProtocolError::InvalidField);
    }
    Ok(())
}

fn validate_identifier(value: &str) -> (r: Result<(), ProtocolError>)
    ensures
        r == field_verdict(identifier_ok(value@)),
{
    validate_opaque(value, MAX_IDENTIFIER_CHARS)
}

fn validate_browser_host(value: &Option<String>) -> (r: Result<(), ProtocolError>)
    ensures
        r == field_verdict(browser_host_ok(*value)),
{
    match value {
        None => Ok(()),
        Some(host) => {
            let count = char_count(host.as_str());
            if count == 0 || count > MAX_BROWSER_HOST_CHARS {
                return Err(ProtocolError::InvalidField);
            }
            let bytes = host.as_str().as_bytes();
            let mut i: usize = 0;
            while i < bytes.len()
                invariant
                    *value == Some(*host),
                    0 < host@.len() <= MAX_BROWSER_HOST_CHARS,
                    bytes@ == utf8(host@),
                    i <= bytes@.len(),
                    forall|j: int| 0 <= j < i ==> !is_host_forbidden_byte(#[trigger] bytes@[j]),
                decreases bytes@.len() - i,
            {
                let b = bytes[i];
                if b == 32 || b == 9 || b == 10 || b == 12 || b == 13 || b == 47 || b == 92 || b
                    == 64 {
                    assert(is_host_forbidden_byte(utf8(host@)[i as int]));
                    return Err(ProtocolError::InvalidField);
                }
                i = i + 1;
            }
            Ok(())
        },
    }
}

fn validate_password(password: &str) -> (r: Result<(), ProtocolError>)
    ensures
        r == field_verdict(password_ok(password@)),
{
    let count = char_count(password);
    if count == 0 || count > MAX_PASSWORD_CHARS {
        return Err(ProtocolError::InvalidField);
    }
    Ok(())
}

impl MonitorHealth {
    fn validate(&self) -> (r: Result<(), ProtocolError>)
        ensures
            r == field_verdict(monitor_health_ok(*self)),
    {
        validate_identifier(self.monitor_id.as_str())?;
        if char_count(self.name.as_str()) > 128 || self.width == 0 || self.height == 0 {
            return Err(ProtocolError::InvalidField);
        }
        Ok(())
    }
}

impl AgentHeartbeat {
    fn validate(&self) -> (r: Result<(), ProtocolError>)
        ensures
            r == field_verdict(heartbeat_ok(*self)),
    {
        validate_identifier(self.agent_instance_id.as_str())?;
        if char_count(self.user_sid.as_str()) == 0 || byte_len(self.user_sid.as_str()) > 184
            || self.process_id == 0 {
            return Err(ProtocolError::InvalidField);
        }
        if self.monitors.len() > 16 {
            return Err(ProtocolError::InvalidField);
        }
        let mut i: usize = 0;
        while i < self.monitors.len()
            invariant
                i <= self.monitors@.len(),
                forall|j: int| 0 <= j < i ==> monitor_health_ok(#[trigger] self.monitors@[j]),
            decreases self.monitors@.len() - i,
        {
            self.monitors[i].validate()?;
            i = i + 1;
        }
        Ok(())
    }
}

impl ProcessIdentity {
    fn validate(&self) -> (r: Result<(), ProtocolError>)
        ensures
            r == field_verdict(process_identity_ok(*self)),
    {
        let count = char_count(self.executable_name.as_str());
        if self.process_id == 0 || count == 0 || count > 260 {
            return Err(ProtocolError::InvalidField);
        }
        match &self.executable_sha256 {
            None => Ok(()),
            Some(hash) => {
                if byte_len(hash.as_str()) != 64 || !hex_bytes(hash.as_str()) {
                    Err(ProtocolError::InvalidField)
                } else {
                    Ok(())
                }
            },
        }
    }
}

impl AgentObservation {
    fn validate(&self) -> (r: Result<(), ProtocolError>)
        ensures
            r == field_verdict(observation_ok(*self)),
    {
        validate_identifier(self.event_id.as_str())?;
        validate_identifier(self.agent_instance_id.as_str())?;
        validate_identifier(self.monitor_id.as_str())?;
        if self.risk_millis > 1000 || byte_len(self.reason_code.as_str()) > 64 {
            return Err(ProtocolError::InvalidField);
        }
        if let Some(source) = &self.source {
            source.validate()?;
        }
        validate_browser_host(&self.browser_host)
    }
}

impl AgentContextObservation {
    fn validate(&self) -> (r: Result<(), ProtocolError>)
        ensures
            r == field_verdict(context_ok(*self)),
    {
        validate_identifier(self.event_id.as_str())?;
        validate_identifier(self.agent_instance_id.as_str())?;
        self.source.validate()?;
        let count = char_count(self.window_title.as_str());
        if (count == 0 && self.browser_host.is_none()) || count > MAX_WINDOW_TITLE_CHARS {
            return Err(ProtocolError::InvalidField);
        }
        for c in it: self.window_title.as_str().chars()
            invariant
                it.seq() == self.window_title@,
                forall|j: int|
                    0 <= j < it.index() ==> !is_forbidden_title_char(
                        #[trigger] self.window_title@[j],
                    ),
        {
            if char_is_control(c) && !char_is_whitespace(c) {
                return Err(ProtocolError::InvalidField);
            }
        }
        validate_browser_host(&self.browser_host)
    }
}

impl EvidenceSubmission {
    fn validate(&self) -> (r: Result<(), ProtocolError>)
        ensures
            r == field_verdict(evidence_ok(*self)),
    {
        validate_identifier(self.evidence_id.as_str())?;
        let jpeg = str_eq(self.media_type.as_str(), "image/jpeg");
        let png = str_eq(self.media_type.as_str(), "image/png");
        if char_count(self.monitor_name.as_str()) > 128 || char_count(
            self.application_name.as_str(),
        ) > 260 || byte_len(self.reason_code.as_str()) > 64 || self.risk_millis > 1000 || !(jpeg
            || png) || byte_len(self.bytes_base64.as_str()) > MAX_FRAME_BYTES / 4 * 3 {
            return Err(ProtocolError::InvalidField);
        }
        Ok(())
    }
}

impl DispositionReport {
    fn validate(&self) -> (r: Result<(), ProtocolError>)
        ensures
            r == field_verdict(report_ok(*self)),
    {
        validate_identifier(self.event_id.as_str())?;
        if self.process_id == 0 {
            return Err(ProtocolError::InvalidField);
        }
        Ok(())
    }
}

impl ServiceRequest {
    fn required_client(&self) -> (client: ClientKind)
        ensures
            client == required_client(*self),
    {
        match self {
            ServiceRequest::AgentHeartbeat { .. }
            | ServiceRequest::AgentObservation { .. }
            | ServiceRequest::AgentContextObservation { .. }
            | ServiceRequest::SubmitEvidence { .. }
            | ServiceRequest::GetAgentPolicy { .. }
            | ServiceRequest::ReportDisposition { .. } => ClientKind::Agent,
            ServiceRequest::RequestShutdown { .. } => ClientKind::Installer,
            _ => ClientKind::Ui,
        }
    }

    fn validate_passwords(&self) -> (r: Result<(), ProtocolError>)
        ensures
            r == field_verdict(passwords_ok(*self)),
    {
        match self {
            ServiceRequest::EnrollAdministrator { password } => validate_password(
                password.as_str(),
            ),
            ServiceRequest::Authenticate { password } => validate_password(password.as_str()),
            ServiceRequest::RevealEvidence { password, .. } => validate_password(
                password.as_str(),
            ),
            ServiceRequest::RequestShutdown { password } => validate_password(password.as_str()),
            ServiceRequest::ChangePassword { current_password, new_password, .. } => {
                validate_password(current_password.as_str())?;
                validate_password(new_password.as_str())
            },
            _ => Ok(()),
        }
    }

    fn token(&self) -> (token: Option<&String>)
        ensures
            match request_token(*self) {
                None => token is None,
                Some(t) => token == Some(&t),
            },
    {
        match self {
            ServiceRequest::LockSession { session_token } => Some(session_token),
            ServiceRequest::GetStatus { session_token } => Some(session_token),
            ServiceRequest::GetPolicy { session_token } => Some(session_token),
            ServiceRequest::PutPolicy { session_token, .. } => Some(session_token),
            ServiceRequest::ListEvidence { session_token } => Some(session_token),
            ServiceRequest::RevealEvidence { session_token, .. } => Some(session_token),
            ServiceRequest::DeleteEvidence { session_token, .. } => Some(session_token),
            ServiceRequest::ChangePassword { session_token, .. } => Some(session_token),
            ServiceRequest::AgentHeartbeat { agent_token, .. } => Some(agent_token),
            ServiceRequest::AgentObservation { agent_token, .. } => Some(agent_token),
            ServiceRequest::AgentContextObservation { agent_token, .. } => Some(agent_token),
            ServiceRequest::SubmitEvidence { agent_token, .. } => Some(agent_token),
            ServiceRequest::GetAgentPolicy { agent_token } => Some(agent_token),
            ServiceRequest::ReportDisposition { agent_token, .. } => Some(agent_token),
            _ => None,
        }
    }

    fn validate_payload(&self) -> (r: Result<(), ProtocolError>)
        ensures
            r == field_verdict(payload_ok(*self)),
    {
        match self {
            ServiceRequest::RevealEvidence { evidence_id, .. } => validate_identifier(
                evidence_id.as_str(),
            ),
            ServiceRequest::DeleteEvidence { evidence_id, .. } => validate_identifier(
                evidence_id.as_str(),
            ),
            ServiceRequest::AgentHeartbeat { heartbeat, .. } => heartbeat.validate(),
            ServiceRequest::AgentObservation { observation, .. } => observation.validate(),
            ServiceRequest::AgentContextObservation { observation, .. } => observation.validate(),
            ServiceRequest::SubmitEvidence { evidence, .. } => evidence.validate(),
            ServiceRequest::ReportDisposition { report, .. } => report.validate(),
            _ => Ok(()),
        }
    }

    fn validate_for(&self, client: ClientKind) -> (r: Result<(), ProtocolError>)
        ensures
            r == request_verdict(*self, client),
    {
        if self.required_client() != client {
            return Err(ProtocolError::ClientRoleDenied);
        }
        self.validate_passwords()?;
        if let Some(token) = self.token() {
            validate_opaque(token.as_str(), MAX_SESSION_TOKEN_CHARS)?;
        }
        self.validate_payload()?;
        if let ServiceRequest::PutPolicy { policy, .. } = self {
            if byte_len(policy.as_str()) > MAX_FRAME_BYTES / 2 {
                return Err(ProtocolError::FrameTooLarge);
            }
        }
        Ok(())
    }
}

impl RequestEnvelope {
    /// A request under the current protocol version.
    pub fn new(request_id: String, nonce: String, client: ClientKind, request: ServiceRequest) -> (envelope: Self)
        ensures
            envelope.protocol_version == PROTOCOL_VERSION,
            envelope.request_id@ == request_id@,
            envelope.nonce@ == nonce@,
            envelope.client == client,
            envelope.request == request,
    {
        RequestEnvelope { protocol_version: PROTOCOL_VERSION, request_id, nonce, client, request }
    }

    /// Checks the version, the request id and nonce, the sender's role and every field.
    pub fn validate(&self) -> (r: Result<(), ProtocolError>)
        ensures
            r == envelope_verdict(*self),
    {
        if self.protocol_version != PROTOCOL_VERSION {
            return Err(ProtocolError::UnsupportedVersion);
        }
        validate_opaque(self.request_id.as_str(), MAX_REQUEST_ID_CHARS)?;
        validate_opaque(self.nonce.as_str(), MAX_NONCE_CHARS)?;
        self.request.validate_for(self.client)
    }
}

// ---------------------------------------------------------------------------
// Framing: a little-endian `u32` body length, then the body.
// ---------------------------------------------------------------------------

/// The four little-endian bytes of `n`.
pub open spec fn le_u32_bytes(n: nat) -> Seq<u8> {
    seq![
        (n % 256) as u8,
        ((n / 256) % 256) as u8,
        ((n / 65536) % 256) as u8,
        ((n / 16777216) % 256) as u8,
    ]
}

/// The number that four little-endian bytes hold.
pub open spec fn le_u32_value(p: Seq<u8>) -> nat {
    (p[0] + 256 * p[1] + 65536 * p[2] + 16777216 * p[3]) as nat
}

/// The frame that carries `body`.
pub open spec fn frame_of(body: Seq<u8>) -> Seq<u8> {
    le_u32_bytes(body.len()) + body
}

/// What `encode_frame` answers for `body`.
pub open spec fn encode_verdict(body: Seq<u8>) -> Result<Seq<u8>, ProtocolError> {
    if body.len() > MAX_FRAME_BYTES {
        Err(ProtocolError::FrameTooLarge)
    } else {
        Ok(frame_of(body))
    }
}

/// What `decode_frame` answers for `framed`: a missing prefix or a length that disagrees
/// with the bytes is truncation; a declared length above the limit is too large.
pub open spec fn decode_verdict(framed: Seq<u8>) -> Result<Seq<u8>, ProtocolError> {
    if framed.len() < 4 {
        Err(ProtocolError::TruncatedFrame)
    } else if le_u32_value(framed.take(4)) > MAX_FRAME_BYTES {
        Err(ProtocolError::FrameTooLarge)
    } else if framed.len() != le_u32_value(framed.take(4)) + 4 {
        Err(ProtocolError::TruncatedFrame)
    } else {
        Ok(framed.skip(4))
    }
}

proof fn lemma_le_u32_round_trip(n: nat)
    requires
        n < 4294967296,
    ensures
        le_u32_value(le_u32_bytes(n)) == n,
{
    let b0 = n % 256;
    let b1 = (n / 256) % 256;
    let b2 = (n / 65536) % 256;
    let b3 = (n / 16777216) % 256;
    assert(b0 + 256 * b1 + 65536 * b2 + 16777216 * b3 == n) by (nonlinear_arith)
        requires
            n < 4294967296,
            b0 == n % 256,
            b1 == (n / 256) % 256,
            b2 == (n / 65536) % 256,
            b3 == (n / 16777216) % 256,
    ;
}

/// Prefixes `body` with its length; refuses a body above the frame limit.
pub fn encode_frame(body: &[u8]) -> (r: Result<Vec<u8>, ProtocolError>)
    ensures
        match r {
            Ok(framed) => encode_verdict(body@) == Ok::<Seq<u8>, ProtocolError>(framed@),
            Err(e) => encode_verdict(body@) == Err::<Seq<u8>, ProtocolError>(e),
        },
{
    let len = body.len();
    if len > MAX_FRAME_BYTES {
        return Err(ProtocolError::FrameTooLarge);
    }
    let n = len as u32;
    let b0 = (n & 0xff) as u8;
    let b1 = ((n >> 8u32) & 0xff) as u8;
    let b2 = ((n >> 16u32) & 0xff) as u8;
    let b3 = ((n >> 24u32) & 0xff) as u8;
    assert(b0 == n % 256 && b1 == (n / 256) % 256 && b2 == (n / 65536) % 256 && b3 == (n
        / 16777216) % 256) by (bit_vector)
        requires
            b0 == (n & 0xff) as u8,
            b1 == ((n >> 8u32) & 0xff) as u8,
            b2 == ((n >> 16u32) & 0xff) as u8,
            b3 == ((n >> 24u32) & 0xff) as u8,
    ;
    let mut framed: Vec<u8> = Vec::new();
    framed.push(b0);
    framed.push(b1);
    framed.push(b2);
    framed.push(b3);
    let mut i: usize = 0;
    while i < len
        invariant
            len == body@.len(),
            i <= len,
            framed@ == le_u32_bytes(len as nat) + body@.take(i as int),
        decreases len - i,
    {
        framed.push(body[i]);
        assert(body@.take(i + 1) =~= body@.take(i as int).push(body@[i as int]));
        i = i + 1;
    }
    assert(body@.take(len as int) =~= body@);
    Ok(framed)
}

/// Strips and checks the length prefix of a frame and gives back its body.
pub fn decode_frame(framed: &[u8]) -> (r: Result<Vec<u8>, ProtocolError>)
    ensures
        match r {
            Ok(body) => decode_verdict(framed@) == Ok::<Seq<u8>, ProtocolError>(body@),
            Err(e) => decode_verdict(framed@) == Err::<Seq<u8>, ProtocolError>(e),
        },
{
    let len = framed.len();
    if len < 4 {
        return Err(ProtocolError::TruncatedFrame);
    }
    let b0 = framed[0];
    let b1 = framed[1];
    let b2 = framed[2];
    let b3 = framed[3];
    let declared = (b0 as u32) | ((b1 as u32) << 8u32) | ((b2 as u32) << 16u32) | ((b3 as u32)
        << 24u32);
    assert(declared == b0 + 256 * b1 + 65536 * b2 + 16777216 * b3) by (bit_vector)
        requires
            declared == (b0 as u32) | ((b1 as u32) << 8u32) | ((b2 as u32) << 16u32) | ((
            b3 as u32) << 24u32),
    ;
    assert(le_u32_value(framed@.take(4)) == declared);
    if declared as usize > MAX_FRAME_BYTES {
        return Err(ProtocolError::FrameTooLarge);
    }
    let declared = declared as usize;
    if len - 4 != declared {
        return Err(ProtocolError::TruncatedFrame);
    }
    let mut body: Vec<u8> = Vec::new();
    let mut i: usize = 4;
    while i < len
        invariant
            len == framed@.len(),
            4 <= i <= len,
            body@ == framed@.subrange(4, i as int),
        decreases len - i,
    {
        body.push(framed[i]);
        assert(framed@.subrange(4, i + 1) =~= framed@.subrange(4, i as int).push(
            framed@[i as int],
        ));
        i = i + 1;
    }
    assert(framed@.subrange(4, len as int) =~= framed@.skip(4));
    Ok(body)
}

/// Decoding gives back exactly the body that was encoded.
pub proof fn lemma_frame_round_trip(body: Seq<u8>)
    requires
        body.len() <= MAX_FRAME_BYTES,
    ensures
        decode_verdict(frame_of(body)) == Ok::<Seq<u8>, ProtocolError>(body),
{
    lemma_le_u32_round_trip(body.len());
    assert(frame_of(body).take(4) =~= le_u32_bytes(body.len()));
    assert(frame_of(body).skip(4) =~= body);
}

/// A frame that decodes is exactly the encoding of the body it gives back.
pub proof fn lemma_decoded_frame_is_canonical(framed: Seq<u8>)
    requires
        decode_verdict(framed) is Ok,
    ensures
        framed == frame_of(decode_verdict(framed)->Ok_0),
{
    let body = framed.skip(4);
    let n = le_u32_value(framed.take(4));
    assert(body.len() == n);
    let p = framed.take(4);
    assert(p[0] == n % 256 && p[1] == (n / 256) % 256 && p[2] == (n / 65536) % 256 && p[3] == (n
        / 16777216) % 256) by (nonlinear_arith)
        requires
            n == p[0] + 256 * p[1] + 65536 * p[2] + 16777216 * p[3],
            0 <= p[0] < 256,
            0 <= p[1] < 256,
            0 <= p[2] < 256,
            0 <= p[3] < 256,
    ;
    assert(le_u32_bytes(n) =~= p);
    assert(framed =~= frame_of(body));
}

/// The envelope's version, request id and nonce are well formed.
pub open spec fn header_ok(e: RequestEnvelope) -> bool {
    &&& e.protocol_version == PROTOCOL_VERSION
    &&& opaque_ok(e.request_id@, MAX_REQUEST_ID_CHARS as int)
    &&& opaque_ok(e.nonce@, MAX_NONCE_CHARS as int)
}

/// Only the installer may ask the service to shut down: a shutdown request that validates
/// came from the installer, one from any other client is refused for its role, and one from
/// the installer with a well-formed password and a well-formed envelope is accepted.
pub proof fn lemma_shutdown_only_from_the_installer(e: RequestEnvelope)
    requires
        e.request is RequestShutdown,
    ensures
        envelope_verdict(e) is Ok ==> e.client == ClientKind::Installer,
        header_ok(e) && e.client != ClientKind::Installer ==> envelope_verdict(e) == Err::<(), ProtocolError>(
            ProtocolError::ClientRoleDenied,
        ),
        e.request matches ServiceRequest::RequestShutdown { password } && header_ok(e) && e.client
            == ClientKind::Installer && password_ok(password@) ==> envelope_verdict(e) is Ok,
{
}

/// Each request comes from one role: the agent's heartbeats, observations, evidence, policy
/// fetches and disposition reports only from the agent; administration only from the
/// console UI; a validated request from any other client is impossible, and a well-formed
/// envelope from the wrong client is refused for its role.
pub proof fn lemma_requests_come_from_their_roles(e: RequestEnvelope)
    ensures
        envelope_verdict(e) is Ok && (e.request is AgentHeartbeat || e.request is AgentObservation
            || e.request is AgentContextObservation || e.request is SubmitEvidence || e.request is GetAgentPolicy
            || e.request is ReportDisposition) ==> e.client == ClientKind::Agent,
        envelope_verdict(e) is Ok && (e.request is GetBootstrap || e.request is EnrollAdministrator
            || e.request is Authenticate || e.request is ChangePassword || e.request is LockSession
            || e.request is GetStatus || e.request is GetPolicy || e.request is PutPolicy || e.request is ListEvidence
            || e.request is RevealEvidence || e.request is DeleteEvidence) ==> e.client == ClientKind::Ui,
        envelope_verdict(e) is Ok && e.request is RequestShutdown ==> e.client == ClientKind::Installer,
        header_ok(e) && e.client == ClientKind::Ui && (e.request is RequestShutdown || e.request is AgentHeartbeat
            || e.request is SubmitEvidence) ==> envelope_verdict(e) == Err::<(), ProtocolError>(
            ProtocolError::ClientRoleDenied,
        ),
{
}

/// A request that passes validation was sent by the one role allowed to send it.
pub proof fn lemma_valid_request_comes_from_its_role(e: RequestEnvelope)
    requires
        envelope_verdict(e) is Ok,
    ensures
        e.client == required_client(e.request),
{
}

} // verus!
