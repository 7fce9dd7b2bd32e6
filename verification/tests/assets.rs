use karma::assets::{bytes_match_manifest, lower_hex_string, verify_model_bytes};
use karma::health::InferenceErrorKind;

const ABC_SHA256: &str = "ba7816bf8f01cfea414140de5dae2223b00361a396177a9cb410ff61f20015ad";

#[test]
fn digest_is_written_as_lower_case_hex() {
    assert_eq!(lower_hex_string(&[0x00, 0x0f, 0xa0, 0xff]), "000fa0ff");
    assert!(bytes_match_manifest(b"abc", 3, ABC_SHA256));
}

#[test]
fn verifies_length_and_sha_before_exposing_model() {
    assert_eq!(verify_model_bytes(b"abc", 3, ABC_SHA256), Ok(()));
}

#[test]
fn changed_length_or_hash_is_rejected() {
    assert_eq!(
        verify_model_bytes(b"abd", 3, ABC_SHA256).unwrap_err().kind(),
        InferenceErrorKind::ModelHashMismatch
    );
    assert_eq!(
        verify_model_bytes(b"abc", 4, ABC_SHA256).unwrap_err().kind(),
        InferenceErrorKind::ModelHashMismatch
    );
    assert!(!bytes_match_manifest(b"abc", 3, &ABC_SHA256.to_uppercase()));
}

#[test]
fn oversized_model_is_rejected_before_allocation() {
    assert_eq!(
        verify_model_bytes(b"", 128 * 1024 * 1024 + 1, ABC_SHA256).unwrap_err().kind(),
        InferenceErrorKind::ModelHashMismatch
    );
}
