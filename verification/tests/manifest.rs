use karma::manifest::{AssetKind, AssetManifest, ManifestError};

fn valid() -> AssetManifest {
    AssetManifest {
        kind: AssetKind::ImageClassifier,
        version: "image-v1".into(),
        license: "Apache-2.0".into(),
        sha256: "a".repeat(64),
    }
}

#[test]
fn manifest_valid_manifest_passes() {
    assert_eq!(valid().validate(), Ok(()));
}

#[test]
fn rejects_missing_license() {
    let mut value = valid();
    value.license.clear();

    assert_eq!(value.validate(), Err(ManifestError::MissingLicense));
}

#[test]
fn rejects_non_hex_sha256() {
    let mut value = valid();
    value.sha256 = "z".repeat(64);

    assert_eq!(value.validate(), Err(ManifestError::InvalidSha256));
}

#[test]
fn blank_version_is_reported_before_other_faults() {
    let mut value = valid();
    value.version = " \t".into();
    value.license.clear();
    value.sha256 = "A".repeat(64);
    assert_eq!(value.validate(), Err(ManifestError::MissingVersion));
}

#[test]
fn upper_case_or_short_digest_is_refused() {
    let mut value = valid();
    value.sha256 = "A".repeat(64);
    assert_eq!(value.validate(), Err(ManifestError::InvalidSha256));
    value.sha256 = "a".repeat(63);
    assert_eq!(value.validate(), Err(ManifestError::InvalidSha256));
}
