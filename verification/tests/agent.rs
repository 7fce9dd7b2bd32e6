use karma::agent::{
    agent_token_ok, evidence_rgb_pixels, inference_state, AgentServiceError,
    ImageDispositionGate,
};
use karma::ipc::ComponentState;
use karma::recognition::RecognitionPolicy;

fn policy(evidence_enabled: bool) -> RecognitionPolicy {
    RecognitionPolicy {
        protection_enabled: true,
        image_enabled: true,
        evidence_enabled,
        threshold_millis: 820,
    }
}

#[test]
fn agent_tokens_are_sixty_four_hex_digits() {
    assert!(agent_token_ok(&"aB3".repeat(21).chars().chain("f".chars()).collect::<String>()));
    assert!(agent_token_ok(&"0".repeat(64)));
    assert!(!agent_token_ok(&"0".repeat(63)));
    assert!(!agent_token_ok(&"g".repeat(64)));
    assert!(!agent_token_ok(""));
}

#[test]
fn inference_states_follow_availability_then_inferences() {
    assert_eq!(inference_state(5, false), ComponentState::Unavailable);
    assert_eq!(inference_state(0, true), ComponentState::Starting);
    assert_eq!(inference_state(1, true), ComponentState::Healthy);
}

#[test]
fn evidence_pixels_drop_alpha_and_reorder_channels() {
    let rgb = evidence_rgb_pixels(&[1, 2, 3, 4, 5, 6, 7, 8], 2, 1).unwrap();
    assert_eq!(rgb, vec![3, 2, 1, 7, 6, 5]);
    assert_eq!(
        evidence_rgb_pixels(&[1, 2, 3], 1, 1),
        Err(AgentServiceError::InvalidResponse)
    );
    assert_eq!(
        evidence_rgb_pixels(&[], u32::MAX, u32::MAX),
        Err(AgentServiceError::InvalidResponse)
    );
    assert_eq!(evidence_rgb_pixels(&[], 0, 7), Ok(vec![]));
}

#[test]
fn gate_offers_evidence_only_when_enabled_and_cooled_down() {
    let mut gate = ImageDispositionGate::new();
    assert!(!gate.evidence_due(&policy(false), 900, 1_000));
    assert!(gate.evidence_due(&policy(true), 900, 1_000));
    assert!(!gate.evidence_due(&policy(true), 819, 1_000));
    gate.evidence_offered(true, 1_000);
    assert!(!gate.evidence_due(&policy(true), 900, 5_999));
    assert!(gate.evidence_due(&policy(true), 900, 6_000));
    gate.evidence_offered(false, 6_000);
    assert_eq!(gate.last_evidence_at_ms, 1_000);
}

#[test]
fn gate_reports_dispositions_with_their_own_cooldown() {
    let mut gate = ImageDispositionGate::new();
    assert!(gate.disposition_due(&policy(false), 820, 0));
    gate.disposition_requested(true, 0);
    assert!(!gate.disposition_due(&policy(false), 1_000, 4_999));
    assert!(gate.disposition_due(&policy(false), 1_000, 5_000));
    assert_eq!(gate.last_evidence_at_ms, i64::MIN);
    let mut off = policy(true);
    off.protection_enabled = false;
    assert!(!gate.disposition_due(&off, 1_000, 100_000));
}
