use vstd::prelude::*;

use crate::ipc::{ComponentState, EvidenceSubmission};
use crate::recognition::{saturating_difference, should_capture_evidence, RecognitionPolicy};
use crate::text::{all_hex_bytes, byte_len, hex_bytes, utf8};

verus! {

/// Why the agent could not work with the service.
#[derive(Debug, Clone, Copy, PartialEq, Eq, Structural)]
pub enum AgentServiceError {
    IdentityUnavailable,
    ServiceUnavailable,
    AgentRejected,
    InvalidResponse,
}

/// How long after offering evidence the agent waits before offering more, in milliseconds of
/// frame capture time.
pub const EVIDENCE_COOLDOWN_MS: i64 = 5000;

/// How long after asking for a disposition the agent waits before asking again.
pub const DISPOSITION_COOLDOWN_MS: i64 = 5000;

/// The agent token the service hands out: 64 hexadecimal digits.
pub open spec fn agent_token_ok_spec(token: Seq<char>) -> bool {
    utf8(token).len() == 64 && all_hex_bytes(token)
}

/// Whether `token` has the form of an agent token.
pub fn agent_token_ok(token: &str) -> (ok: bool)
    ensures
        ok == agent_token_ok_spec(token@),
{
    byte_len(token) == 64 && hex_bytes(token)
}

/// The state of an inference stage: unavailable once marked so, starting until its first
/// inference, healthy after.
pub open spec fn inference_state_spec(inferences: u64, available: bool) -> ComponentState {
    if !available {
        ComponentState::Unavailable
    } else if inferences == 0 {
        ComponentState::Starting
    } else {
        ComponentState::Healthy
    }
}

/// The state of an inference stage for a health report.
pub fn inference_state(inferences: u64, available: bool) -> (state: ComponentState)
    ensures
        state == inference_state_spec(inferences, available),
{
    if !available {
        ComponentState::Unavailable
    } else if inferences == 0 {
        ComponentState::Starting
    } else {
        ComponentState::Healthy
    }
}

/// The standard base64 text (RFC 4648 alphabet, with padding) of `bytes`, as the `base64`
/// crate's `STANDARD` engine encodes it.
pub uninterp spec fn base64_of(bytes: Seq<u8>) -> Seq<char>;

/// Encodes `bytes` with `base64`'s `STANDARD` engine: a function of the bytes alone. The
/// encoder panics only where the encoded length overflows `usize`, which the bound rules
/// out.
#[verifier::external_body]
fn base64_standard(bytes: &[u8]) -> (text: String)
    requires
        bytes@.len() <= usize::MAX / 2,
    ensures
        text@ == base64_of(bytes@),
{
    base64::Engine::encode(&base64::engine::general_purpose::STANDARD, bytes)
}

/// The evidence the agent submits for an encoded JPEG frame: offered for an immediate image
/// verdict, as `image/jpeg`, its bytes in standard base64.
pub fn evidence_submission(
    evidence_id: String,
    captured_at_ms: i64,
    monitor_name: String,
    application_name: String,
    risk_millis: u16,
    jpeg: &[u8],
) -> (submission: EvidenceSubmission)
    requires
        jpeg@.len() <= usize::MAX / 2,
    ensures
        submission.evidence_id@ == evidence_id@,
        submission.captured_at_ms == captured_at_ms,
        submission.monitor_name@ == monitor_name@,
        submission.application_name@ == application_name@,
        submission.reason_code@ == "image_immediate"@,
        submission.risk_millis == risk_millis,
        submission.media_type@ == "image/jpeg"@,
        submission.bytes_base64@ == base64_of(jpeg@),
{
    EvidenceSubmission {
        evidence_id,
        captured_at_ms,
        monitor_name,
        application_name,
        reason_code: String::from_str("image_immediate"),
        risk_millis,
        media_type: String::from_str("image/jpeg"),
        bytes_base64: base64_standard(jpeg),
    }
}

/// `rgb` holds, pixel by pixel, the red, green and blue bytes of the BGRA pixels in `bgra`.
pub open spec fn rgb_of_bgra(bgra: Seq<u8>, rgb: Seq<u8>) -> bool {
    &&& bgra.len() % 4 == 0
    &&& rgb.len() == bgra.len() / 4 * 3
    &&& forall|p: int|
        0 <= p < bgra.len() / 4 ==> {
            &&& #[trigger] rgb[3 * p] == bgra[4 * p + 2]
            &&& rgb[3 * p + 1] == bgra[4 * p + 1]
            &&& rgb[3 * p + 2] == bgra[4 * p]
        }
}

/// The RGB bytes of a `width` by `height` BGRA frame, dropping alpha; an invalid-response
/// error where the pixel count does not fit in `usize` or the buffer is not four bytes per
/// pixel.
pub fn evidence_rgb_pixels(bgra: &[u8], width: u32, height: u32) -> (r: Result<
    Vec<u8>,
    AgentServiceError,
>)
    ensures
        match r {
            Ok(rgb) => width * height <= usize::MAX && bgra@.len() == width * height * 4
                && rgb_of_bgra(bgra@, rgb@),
            Err(e) => e == AgentServiceError::InvalidResponse && (width * height > usize::MAX
                || bgra@.len() != width * height * 4 || width * height * 4 > usize::MAX),
        },
{
    let pixel_count = match (width as usize).checked_mul(height as usize) {
        Some(n) => n,
        None => return Err(AgentServiceError::InvalidResponse),
    };
    let expected = match pixel_count.checked_mul(4) {
        Some(n) => n,
        None => return Err(AgentServiceError::InvalidResponse),
    };
    if bgra.len() != expected {
        return Err(AgentServiceError::InvalidResponse);
    }
    let mut rgb: Vec<u8> = Vec::new();
    let mut p: usize = 0;
    while p < pixel_count
        invariant
            bgra@.len() == pixel_count * 4,
            pixel_count * 4 <= usize::MAX,
            p <= pixel_count,
            rgb@.len() == 3 * p,
            forall|q: int|
                0 <= q < p ==> {
                    &&& #[trigger] rgb@[3 * q] == bgra@[4 * q + 2]
                    &&& rgb@[3 * q + 1] == bgra@[4 * q + 1]
                    &&& rgb@[3 * q + 2] == bgra@[4 * q]
                },
        decreases pixel_count - p,
    {
        let base = 4 * p;
        let ghost before = rgb@;
        rgb.push(bgra[base + 2]);
        rgb.push(bgra[base + 1]);
        rgb.push(bgra[base]);
        proof {
            assert forall|q: int| 0 <= q < p + 1 implies {
                &&& #[trigger] rgb@[3 * q] == bgra@[4 * q + 2]
                &&& rgb@[3 * q + 1] == bgra@[4 * q + 1]
                &&& rgb@[3 * q + 2] == bgra@[4 * q]
            } by {
                if q < p {
                    assert(rgb@[3 * q] == before[3 * q]);
                    assert(rgb@[3 * q + 1] == before[3 * q + 1]);
                    assert(rgb@[3 * q + 2] == before[3 * q + 2]);
                }
            }
        }
        p = p + 1;
    }
    assert(bgra@.len() / 4 == pixel_count);
    Ok(rgb)
}

/// When the agent last offered evidence and last asked for a disposition, by the capture time
/// of the frame that prompted it.
#[derive(Debug, Clone, Copy, PartialEq, Eq, Structural)]
pub struct ImageDispositionGate {
    pub last_evidence_at_ms: i64,
    pub last_disposition_at_ms: i64,
}

/// Whether a frame scored `score_millis` and captured at `captured_at_ms` is due to be offered
/// as evidence.
pub open spec fn evidence_due_spec(
    gate: ImageDispositionGate,
    policy: RecognitionPolicy,
    score_millis: u16,
    captured_at_ms: i64,
) -> bool {
    &&& policy.protection_enabled
    &&& policy.image_enabled
    &&& policy.evidence_enabled
    &&& score_millis >= policy.threshold_millis
    &&& saturating_difference(captured_at_ms, gate.last_evidence_at_ms) >= EVIDENCE_COOLDOWN_MS
}

/// Whether such a frame is due to be reported for a disposition.
pub open spec fn disposition_due_spec(
    gate: ImageDispositionGate,
    policy: RecognitionPolicy,
    score_millis: u16,
    captured_at_ms: i64,
) -> bool {
    &&& policy.protection_enabled
    &&& policy.image_enabled
    &&& score_millis >= policy.threshold_millis
    &&& saturating_difference(captured_at_ms, gate.last_disposition_at_ms)
        >= DISPOSITION_COOLDOWN_MS
}

impl ImageDispositionGate {
    /// A gate that has offered nothing yet.
    pub fn new() -> (gate: Self)
        ensures
            gate.last_evidence_at_ms == i64::MIN,
            gate.last_disposition_at_ms == i64::MIN,
    {
        ImageDispositionGate { last_evidence_at_ms: i64::MIN, last_disposition_at_ms: i64::MIN }
    }

    /// Whether the frame is due to be offered as evidence.
    pub fn evidence_due(&self, policy: &RecognitionPolicy, score_millis: u16, captured_at_ms: i64) -> (due:
        bool)
        ensures
            due == evidence_due_spec(*self, *policy, score_millis, captured_at_ms),
    {
        should_capture_evidence(
            policy.protection_enabled && policy.image_enabled && policy.evidence_enabled,
            policy.threshold_millis,
            score_millis,
            captured_at_ms,
            self.last_evidence_at_ms,
            EVIDENCE_COOLDOWN_MS,
        )
    }

    /// Notes whether evidence of the frame captured at `captured_at_ms` was handed on; the
    /// cooldown restarts only where it was.
    pub fn evidence_offered(&mut self, handed_on: bool, captured_at_ms: i64)
        ensures
            final(self).last_evidence_at_ms == (if handed_on {
                captured_at_ms
            } else {
                old(self).last_evidence_at_ms
            }),
            final(self).last_disposition_at_ms == old(self).last_disposition_at_ms,
    {
        if handed_on {
            self.last_evidence_at_ms = captured_at_ms;
        }
    }

    /// Whether the frame is due to be reported for a disposition.
    pub fn disposition_due(&self, policy: &RecognitionPolicy, score_millis: u16, captured_at_ms: i64) -> (due:
        bool)
        ensures
            due == disposition_due_spec(*self, *policy, score_millis, captured_at_ms),
    {
        should_capture_evidence(
            policy.protection_enabled && policy.image_enabled,
            policy.threshold_millis,
            score_millis,
            captured_at_ms,
            self.last_disposition_at_ms,
            DISPOSITION_COOLDOWN_MS,
        )
    }

    /// Notes whether the report for the frame captured at `captured_at_ms` was handed on; the
    /// cooldown restarts only where it was.
    pub fn disposition_requested(&mut self, handed_on: bool, captured_at_ms: i64)
        ensures
            final(self).last_disposition_at_ms == (if handed_on {
                captured_at_ms
            } else {
                old(self).last_disposition_at_ms
            }),
            final(self).last_evidence_at_ms == old(self).last_evidence_at_ms,
    {
        if handed_on {
            self.last_disposition_at_ms = captured_at_ms;
        }
    }
}

/// No frame is ever due for a disposition report, or to be offered as evidence, unless
/// protection and image recognition are both on and its score reaches the threshold, and
/// the cooldown since the last report (or offer) has passed.
pub proof fn lemma_disposition_needs_image_recognition(
    gate: ImageDispositionGate,
    policy: RecognitionPolicy,
    score_millis: u16,
    captured_at_ms: i64,
)
    ensures
        disposition_due_spec(gate, policy, score_millis, captured_at_ms) ==> {
            &&& policy.protection_enabled
            &&& policy.image_enabled
            &&& score_millis >= policy.threshold_millis
            &&& captured_at_ms - gate.last_disposition_at_ms >= DISPOSITION_COOLDOWN_MS
        },
        evidence_due_spec(gate, policy, score_millis, captured_at_ms) ==> {
            &&& policy.protection_enabled
            &&& policy.image_enabled
            &&& policy.evidence_enabled
            &&& score_millis >= policy.threshold_millis
            &&& captured_at_ms - gate.last_evidence_at_ms >= EVIDENCE_COOLDOWN_MS
        },
        !policy.image_enabled ==> !disposition_due_spec(gate, policy, score_millis, captured_at_ms)
            && !evidence_due_spec(gate, policy, score_millis, captured_at_ms),
{
}

/// Where protection and image recognition are on, a frame whose score reaches the threshold
/// is due for a disposition report once the cooldown has passed; a higher score is due
/// whenever a lower one is; and a frame due to be offered as evidence is due for a report
/// when both cooldowns started at the same time.
pub proof fn lemma_disposition_due_when_enabled(
    gate: ImageDispositionGate,
    policy: RecognitionPolicy,
    score_millis: u16,
    higher_score_millis: u16,
    captured_at_ms: i64,
)
    ensures
        policy.protection_enabled && policy.image_enabled && score_millis >= policy.threshold_millis
            && captured_at_ms - gate.last_disposition_at_ms >= DISPOSITION_COOLDOWN_MS ==> disposition_due_spec(
            gate,
            policy,
            score_millis,
            captured_at_ms,
        ),
        disposition_due_spec(gate, policy, score_millis, captured_at_ms) && higher_score_millis >= score_millis
            ==> disposition_due_spec(gate, policy, higher_score_millis, captured_at_ms),
        evidence_due_spec(gate, policy, score_millis, captured_at_ms) && gate.last_evidence_at_ms
            == gate.last_disposition_at_ms ==> disposition_due_spec(gate, policy, score_millis, captured_at_ms),
{
}

/// Right after a frame was handed on, a frame captured less than the cooldown later is not
/// due, whatever its score and the policy.
pub proof fn lemma_cooldown_holds_after_a_report(
    gate: ImageDispositionGate,
    policy: RecognitionPolicy,
    score_millis: u16,
    reported_at_ms: i64,
    captured_at_ms: i64,
)
    requires
        reported_at_ms <= captured_at_ms < reported_at_ms + DISPOSITION_COOLDOWN_MS,
    ensures
        !disposition_due_spec(
            ImageDispositionGate { last_disposition_at_ms: reported_at_ms, ..gate },
            policy,
            score_millis,
            captured_at_ms,
        ),
        !evidence_due_spec(
            ImageDispositionGate { last_evidence_at_ms: reported_at_ms, ..gate },
            policy,
            score_millis,
            captured_at_ms,
        ),
{
}

} // verus!
