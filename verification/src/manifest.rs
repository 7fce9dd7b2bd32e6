use vstd::prelude::*;

use crate::text::{all_lower_hex_bytes, byte_len, is_blank, is_blank_spec, lower_hex_bytes, utf8};

verus! {

/// The kind of a model asset.
#[derive(Debug, Clone, Copy, PartialEq, Eq, Structural)]
pub enum AssetKind {
    ImageClassifier,
    OcrBundle,
    OcrDetector,
    OcrRecognizer,
    OcrDictionary,
    WordPack,
}

/// The provenance of a model asset.
#[derive(Debug, Clone, PartialEq, Eq)]
pub struct AssetManifest {
    pub kind: AssetKind,
    pub version: String,
    pub license: String,
    pub sha256: String,
}

/// Why an asset manifest was refused.
#[derive(Debug, Clone, Copy, PartialEq, Eq, Structural)]
pub enum ManifestError {
    MissingVersion,
    MissingLicense,
    InvalidSha256,
}

/// 64 lower-case hexadecimal digits.
pub open spec fn sha256_hex_ok(s: Seq<char>) -> bool {
    utf8(s).len() == 64 && all_lower_hex_bytes(s)
}

/// The verdict on a manifest: a blank version, then a blank license, then a malformed hash.
pub open spec fn asset_verdict(m: AssetManifest) -> Result<(), ManifestError> {
    if is_blank_spec(m.version@) {
        Err(ManifestError::MissingVersion)
    } else if is_blank_spec(m.license@) {
        Err(ManifestError::MissingLicense)
    } else if !sha256_hex_ok(m.sha256@) {
        Err(ManifestError::InvalidSha256)
    } else {
        Ok(())
    }
}

impl AssetManifest {
    /// Requires a version and a license that are not blank and a lower-case SHA-256.
    pub fn validate(&self) -> (r: Result<(), ManifestError>)
        ensures
            r == asset_verdict(*self),
    {
        if is_blank(self.version.as_str()) {
            return Err(ManifestError::MissingVersion);
        }
        if is_blank(self.license.as_str()) {
            return Err(ManifestError::MissingLicense);
        }
        if byte_len(self.sha256.as_str()) != 64 || !lower_hex_bytes(self.sha256.as_str()) {
            return Err(ManifestError::InvalidSha256);
        }
        Ok(())
    }
}

} // verus!
