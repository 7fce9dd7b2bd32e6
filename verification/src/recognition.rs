use vstd::prelude::*;

verus! {

/// `a - b`, held within the range of `i64`.
pub open spec fn saturating_difference(a: i64, b: i64) -> int {
    let d = a - b;
    if d > i64::MAX {
        i64::MAX as int
    } else if d < i64::MIN {
        i64::MIN as int
    } else {
        d
    }
}

fn saturating_sub_i64(a: i64, b: i64) -> (d: i64)
    ensures
        d == saturating_difference(a, b),
{
    let wide: i128 = a as i128 - b as i128;
    if wide > i64::MAX as i128 {
        i64::MAX
    } else if wide < i64::MIN as i128 {
        i64::MIN
    } else {
        wide as i64
    }
}

/// Whether a frame should be kept as evidence: capture is enabled, the score reaches the
/// threshold, and the cooldown since the last capture has passed.
pub fn should_capture_evidence(
    enabled: bool,
    threshold_millis: u16,
    score_millis: u16,
    captured_at_ms: i64,
    last_evidence_at_ms: i64,
    cooldown_ms: i64,
) -> (capture: bool)
    ensures
        capture <==> (enabled && score_millis >= threshold_millis && saturating_difference(
            captured_at_ms,
            last_evidence_at_ms,
        ) >= cooldown_ms),
{
    enabled && score_millis >= threshold_millis && saturating_sub_i64(captured_at_ms, last_evidence_at_ms)
        >= cooldown_ms
}

/// The threshold used when the policy names none, in percent.
pub const DEFAULT_THRESHOLD_PERCENT: u64 = 82;

/// How the agent recognises risky frames, as the service's policy sets it.
#[derive(Debug, Clone, Copy, PartialEq, Eq, Structural)]
pub struct RecognitionPolicy {
    pub protection_enabled: bool,
    pub image_enabled: bool,
    pub evidence_enabled: bool,
    pub threshold_millis: u16,
}

/// The settings of a policy that recognition reads; each is absent where the policy does
/// not carry it in the expected form.
#[derive(Debug, Clone, Copy, PartialEq, Eq, Structural)]
pub struct RecognitionSettings {
    pub protection_enabled: Option<bool>,
    pub image_enabled: Option<bool>,
    pub evidence_enabled: Option<bool>,
    pub threshold_percent: Option<u64>,
}

/// The threshold in thousandths for a threshold in percent, capped at a hundred percent.
pub open spec fn threshold_millis_of(percent: Option<u64>) -> u16 {
    let p: int = match percent {
        Some(p) => if p > 100 { 100 } else { p as int },
        None => DEFAULT_THRESHOLD_PERCENT as int,
    };
    (p * 10) as u16
}

impl Default for RecognitionPolicy {
    fn default() -> (policy: Self)
        ensures
            policy.protection_enabled,
            policy.image_enabled,
            !policy.evidence_enabled,
            policy.threshold_millis == 820,
    {
        RecognitionPolicy {
            protection_enabled: true,
            image_enabled: true,
            evidence_enabled: false,
            threshold_millis: 820,
        }
    }
}

impl RecognitionPolicy {
    /// Reads a policy from its settings: protection and image recognition are on and
    /// evidence is off unless the policy says otherwise, and the threshold is the percentage
    /// (at most a hundred, by default 82) times ten.
    pub fn from_settings(settings: RecognitionSettings) -> (policy: Self)
        ensures
            policy.protection_enabled == match settings.protection_enabled {
                Some(b) => b,
                None => true,
            },
            policy.image_enabled == match settings.image_enabled {
                Some(b) => b,
                None => true,
            },
            policy.evidence_enabled == match settings.evidence_enabled {
                Some(b) => b,
                None => false,
            },
            policy.threshold_millis == threshold_millis_of(settings.threshold_percent),
    {
        let percent: u64 = match settings.threshold_percent {
            Some(p) => if p > 100 { 100 } else { p },
            None => DEFAULT_THRESHOLD_PERCENT,
        };
        let threshold_millis = (percent as u16) * 10;
        RecognitionPolicy {
            protection_enabled: match settings.protection_enabled {
                Some(b) => b,
                None => true,
            },
            image_enabled: match settings.image_enabled {
                Some(b) => b,
                None => true,
            },
            evidence_enabled: match settings.evidence_enabled {
                Some(b) => b,
                None => false,
            },
            threshold_millis,
        }
    }
}

} // verus!
