use vstd::prelude::*;

verus! {

/// What enforcement a policy decision asks for.
#[derive(Debug, Clone, Copy, PartialEq, Eq, Structural)]
pub enum Action {
    Allow,
    Warn,
    CloseGracefully,
    Terminate,
    BlockNetwork,
}

/// Why a decision was taken.
#[derive(Debug, Clone, Copy, PartialEq, Eq, Structural)]
pub enum ReasonCode {
    DefaultAllow,
    TimeWindowBlocked,
    ApplicationBlocked,
    ImageImmediate,
    ImageRepeated,
    OcrImageCombined,
    OcrOnlyWarning,
    SourceUncertain,
}

/// A structured policy decision; it never carries a command.
#[derive(Debug, Clone, PartialEq, Eq)]
pub struct Decision {
    pub action: Action,
    pub reason: ReasonCode,
    pub policy_id: String,
    pub expires_at_ms: Option<i64>,
}

/// The kind of an audit record.
#[derive(Debug, Clone, Copy, PartialEq, Eq, Structural)]
pub enum AuditKind {
    DecisionApplied,
    AuthenticationFailed,
    ComponentHealth,
}

/// An audit record; it holds identifiers and codes, never screen content.
#[derive(Debug, Clone, PartialEq, Eq)]
pub struct AuditEvent {
    pub occurred_at_ms: i64,
    pub user_sid: String,
    pub monitor_id: Option<String>,
    pub application_id: Option<String>,
    pub kind: AuditKind,
    pub reason: Option<ReasonCode>,
    pub action: Option<Action>,
}

impl AuditEvent {
    /// Records that `action` was applied for `reason`.
    pub fn decision(
        occurred_at_ms: i64,
        user_sid: &str,
        monitor_id: Option<String>,
        application_id: Option<String>,
        reason: ReasonCode,
        action: Action,
    ) -> (event: Self)
        ensures
            event.occurred_at_ms == occurred_at_ms,
            event.user_sid@ == user_sid@,
            event.monitor_id == monitor_id,
            event.application_id == application_id,
            event.kind == AuditKind::DecisionApplied,
            event.reason == Some(reason),
            event.action == Some(action),
    {
        AuditEvent {
            occurred_at_ms,
            user_sid: user_sid.to_owned(),
            monitor_id,
            application_id,
            kind: AuditKind::DecisionApplied,
            reason: Some(reason),
            action: Some(action),
        }
    }
}


/// The schema version stamped on every versioned payload.
pub const SCHEMA_VERSION: u16 = 1;

/// An opaque display identifier.
#[derive(Debug, PartialEq, Eq, Hash)]
pub struct MonitorId(pub String);

impl Clone for MonitorId {
    fn clone(&self) -> (copy: Self)
        ensures
            copy == *self,
    {
        MonitorId(self.0.clone())
    }
}

/// The identity of a process that a decision is about.
#[derive(Debug, Clone, PartialEq, Eq)]
pub struct SourceIdentity {
    pub pid: u32,
    pub started_at_ms: i64,
    pub executable_path: String,
    pub publisher: Option<String>,
    pub sha256: Option<String>,
}

/// A payload stamped with the schema version it was written under.
#[derive(Debug, Clone, PartialEq, Eq)]
pub struct Versioned<T> {
    pub schema_version: u16,
    pub payload: T,
}

impl<T> Versioned<T> {
    /// Wraps `payload` under the current schema version.
    pub fn new(payload: T) -> (value: Self)
        ensures
            value.schema_version == SCHEMA_VERSION,
            value.payload == payload,
    {
        Versioned { schema_version: SCHEMA_VERSION, payload }
    }
}

/// How risky the recognised text of a frame is.
#[derive(Debug, Clone, Copy, PartialEq, Eq, Structural)]
pub enum OcrRisk {
    NoRisk,
    Keyword,
    HighRiskPhrase,
}

/// A category attached to an observation.
#[derive(Debug, Clone, Copy, PartialEq, Eq, Structural)]
pub enum RiskCategory {
    Nudity,
    Suggestive,
    ExplicitTerm,
    AdultService,
    ExemptionContext,
}

/// The versions of the models an observation was produced with.
#[derive(Debug, Clone, PartialEq, Eq)]
pub struct ModelVersions {
    pub image: String,
    pub ocr: String,
    pub word_pack: String,
}

/// A privacy-preserving summary of one analysed frame.
#[derive(Debug, Clone, PartialEq, Eq)]
pub struct RiskObservation {
    pub monitor_id: MonitorId,
    pub captured_at_ms: i64,
    pub image_score_millis: u16,
    pub image_labels: Vec<RiskCategory>,
    pub ocr_risk: OcrRisk,
    pub ocr_categories: Vec<RiskCategory>,
    pub source_identity: Option<SourceIdentity>,
    pub model_versions: ModelVersions,
}

} // verus!
