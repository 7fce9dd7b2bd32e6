use std::path::{Path, PathBuf};

use karma::evidence::{
    evidence_file_length_ok, evidence_file_name, evidence_path, open_evidence, seal_evidence,
    validate_id, EvidenceError, MAX_PLAINTEXT_BYTES,
};

#[test]
fn ciphertext_contains_no_plaintext_and_round_trips() {
    let key = [7_u8; 32];
    let original = b"private-image-pixels".to_vec();
    let mut plaintext = original.clone();
    let sealed = seal_evidence(&key, "event-1", &mut plaintext).unwrap();
    assert!(plaintext.iter().all(|byte| *byte == 0));
    assert!(!sealed.windows(original.len()).any(|window| window == original));
    assert_eq!(sealed.len(), original.len() + 13 + 16);
    assert_eq!(sealed[0], 1);
    assert_eq!(open_evidence(&key, "event-1", &sealed).unwrap(), original);
}

#[test]
fn identifier_traversal_and_tampering_are_rejected() {
    let key = [9_u8; 32];
    assert_eq!(open_evidence(&key, "../secret", &[1; 40]), Err(EvidenceError::InvalidIdentifier));
    let mut plaintext = vec![1, 2, 3];
    let mut sealed = seal_evidence(&key, "event-2", &mut plaintext).unwrap();
    *sealed.last_mut().unwrap() ^= 1;
    assert_eq!(open_evidence(&key, "event-2", &sealed), Err(EvidenceError::AuthenticationFailed));
}

#[test]
fn evidence_is_bound_to_its_identifier_and_key() {
    let key = [3_u8; 32];
    let mut plaintext = vec![5, 6, 7, 8];
    let sealed = seal_evidence(&key, "event-3", &mut plaintext).unwrap();
    assert_eq!(open_evidence(&key, "event-4", &sealed), Err(EvidenceError::AuthenticationFailed));
    assert_eq!(
        open_evidence(&[4_u8; 32], "event-3", &sealed),
        Err(EvidenceError::AuthenticationFailed)
    );
    assert_eq!(open_evidence(&key, "event-3", &sealed).unwrap(), vec![5, 6, 7, 8]);
}

#[test]
fn refused_identifier_leaves_the_image_and_oversized_image_is_wiped() {
    let key = [1_u8; 32];
    let mut plaintext = vec![9, 9];
    assert_eq!(seal_evidence(&key, "a/b", &mut plaintext), Err(EvidenceError::InvalidIdentifier));
    assert_eq!(plaintext, vec![9, 9]);
    let mut large = vec![1_u8; MAX_PLAINTEXT_BYTES + 1];
    assert_eq!(seal_evidence(&key, "big", &mut large), Err(EvidenceError::TooLarge));
    assert!(large.iter().all(|byte| *byte == 0));
}

#[test]
fn short_files_or_wrong_versions_are_unavailable() {
    let key = [2_u8; 32];
    assert_eq!(open_evidence(&key, "event-5", &[1; 5]), Err(EvidenceError::Unavailable));
    let mut plaintext = vec![1];
    let mut sealed = seal_evidence(&key, "event-5", &mut plaintext).unwrap();
    sealed[0] = 2;
    assert_eq!(open_evidence(&key, "event-5", &sealed), Err(EvidenceError::Unavailable));
    assert!(!evidence_file_length_ok(12));
    assert!(evidence_file_length_ok(13));
    assert!(!evidence_file_length_ok(786_478));
}

#[test]
fn identifiers_are_short_ascii_words() {
    assert_eq!(validate_id("event_1-A"), Ok(()));
    assert_eq!(validate_id(""), Err(EvidenceError::InvalidIdentifier));
    assert_eq!(validate_id(&"a".repeat(129)), Err(EvidenceError::InvalidIdentifier));
    assert_eq!(validate_id("é"), Err(EvidenceError::InvalidIdentifier));
    assert_eq!(evidence_file_name("event-1").unwrap(), "event-1.kme");
    assert_eq!(
        evidence_path(Path::new("vault"), "event-1").unwrap(),
        PathBuf::from("vault").join("event-1.kme")
    );
    assert_eq!(evidence_path(Path::new("vault"), "../x"), Err(EvidenceError::InvalidIdentifier));
}
