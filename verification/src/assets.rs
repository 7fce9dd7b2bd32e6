use vstd::prelude::*;

use sha2::{Digest, Sha256};

use crate::health::{InferenceError, InferenceErrorKind};
use crate::image_manifest::{image_manifest_verdict, plain_file_name, ImageModelManifest};
use crate::text::str_eq;

verus! {

/// The SHA-256 digest of `bytes`.
pub uninterp spec fn sha256_of(bytes: Seq<u8>) -> Seq<u8>;

/// Hashes `bytes` with `sha2::Sha256::digest`; the digest is a function of the bytes alone.
#[verifier::external_body]
fn sha256(bytes: &[u8]) -> (digest: [u8; 32])
    ensures
        digest@ == sha256_of(bytes@),
{
    Sha256::digest(bytes).into()
}

/// The lower-case hexadecimal digit of `n`, below sixteen.
pub open spec fn hex_digit(n: int) -> char {
    if n < 10 {
        (48 + n) as char
    } else {
        (87 + n) as char
    }
}

/// `bytes` written as lower-case hexadecimal, two digits a byte, as `{:x}` writes a digest.
pub open spec fn lower_hex(bytes: Seq<u8>) -> Seq<char>
    decreases bytes.len(),
{
    if bytes.len() == 0 {
        Seq::empty()
    } else {
        lower_hex(bytes.drop_last()) + seq![hex_digit((bytes.last() / 16) as int), hex_digit((bytes.last() % 16) as int)]
    }
}

fn hex_digit_str(n: u8) -> (s: &'static str)
    requires
        n < 16,
    ensures
        s@ == seq![hex_digit(n as int)],
{
    proof {
        reveal_strlit("0");
        reveal_strlit("1");
        reveal_strlit("2");
        reveal_strlit("3");
        reveal_strlit("4");
        reveal_strlit("5");
        reveal_strlit("6");
        reveal_strlit("7");
        reveal_strlit("8");
        reveal_strlit("9");
        reveal_strlit("a");
        reveal_strlit("b");
        reveal_strlit("c");
        reveal_strlit("d");
        reveal_strlit("e");
        reveal_strlit("f");
    }
    match n {
        0 => "0",
        1 => "1",
        2 => "2",
        3 => "3",
        4 => "4",
        5 => "5",
        6 => "6",
        7 => "7",
        8 => "8",
        9 => "9",
        10 => "a",
        11 => "b",
        12 => "c",
        13 => "d",
        14 => "e",
        _ => "f",
    }
}

/// `bytes` written as lower-case hexadecimal.
pub fn lower_hex_string(bytes: &[u8]) -> (s: String)
    ensures
        s@ == lower_hex(bytes@),
{
    let mut s = String::new();
    let mut i: usize = 0;
    while i < bytes.len()
        invariant
            i <= bytes@.len(),
            s@ == lower_hex(bytes@.take(i as int)),
        decreases bytes@.len() - i,
    {
        let b = bytes[i];
        assert(bytes@.take(i + 1).drop_last() =~= bytes@.take(i as int));
        s.append(hex_digit_str(b / 16));
        s.append(hex_digit_str(b % 16));
        i = i + 1;
    }
    assert(bytes@.take(bytes@.len() as int) =~= bytes@);
    s
}

/// The largest image model that is read.
pub const MAX_MODEL_BYTES: usize = 134_217_728;

/// The largest manifest that is read.
pub const MAX_MANIFEST_BYTES: usize = 1_048_576;

/// Bytes match a manifest entry: exactly the declared length, and the lower-case hex of their
/// SHA-256 is the declared digest.
pub open spec fn bytes_match(bytes: Seq<u8>, expected_bytes: u64, expected_sha256: Seq<char>) -> bool {
    bytes.len() == expected_bytes && lower_hex(sha256_of(bytes)) == expected_sha256
}

/// Whether `bytes` have the declared length and digest.
pub fn bytes_match_manifest(bytes: &[u8], expected_bytes: u64, expected_sha256: &str) -> (ok: bool)
    ensures
        ok == bytes_match(bytes@, expected_bytes, expected_sha256@),
{
    if bytes.len() as u64 != expected_bytes {
        return false;
    }
    let digest = sha256(bytes);
    let actual = lower_hex_string(&digest);
    str_eq(actual.as_str(), expected_sha256)
}

/// Whether a model of the declared length may be read at all.
pub fn model_length_allowed(expected_bytes: u64) -> (ok: bool)
    ensures
        ok == (expected_bytes <= MAX_MODEL_BYTES),
{
    expected_bytes <= MAX_MODEL_BYTES as u64
}

/// Checks the bytes of an image model against its manifest before the model is used: a
/// declared length over the limit, a different length or a different digest is a hash
/// mismatch.
pub fn verify_model_bytes(bytes: &[u8], expected_bytes: u64, expected_sha256: &str) -> (r: Result<(), InferenceError>)
    ensures
        match r {
            Ok(()) => expected_bytes <= MAX_MODEL_BYTES && bytes_match(bytes@, expected_bytes, expected_sha256@),
            Err(e) => e.spec_kind() == InferenceErrorKind::ModelHashMismatch && !(expected_bytes
                <= MAX_MODEL_BYTES && bytes_match(bytes@, expected_bytes, expected_sha256@)),
        },
{
    if !model_length_allowed(expected_bytes) || !bytes_match_manifest(bytes, expected_bytes, expected_sha256) {
        return Err(InferenceError::new(InferenceErrorKind::ModelHashMismatch));
    }
    Ok(())
}

/// An image model whose manifest was accepted and whose bytes have the declared length and
/// digest. Nothing else can make one, so no model bytes are handed out unchecked.
pub struct VerifiedImageModel {
    manifest: ImageModelManifest,
    model_bytes: Vec<u8>,
}

impl VerifiedImageModel {
    #[verifier::type_invariant]
    spec fn checked(self) -> bool {
        &&& image_manifest_verdict(self.manifest, true) is Ok
        &&& self.manifest.file_bytes <= MAX_MODEL_BYTES
        &&& bytes_match(self.model_bytes@, self.manifest.file_bytes, self.manifest.asset.sha256@)
    }

    /// The manifest the model was accepted with.
    pub closed spec fn spec_manifest(self) -> ImageModelManifest {
        self.manifest
    }

    /// The model's bytes.
    pub closed spec fn spec_model_bytes(self) -> Seq<u8> {
        self.model_bytes@
    }

    /// Accepts `model_bytes` as the model `manifest` describes: the manifest must pass
    /// validation, else the manifest is invalid; then the bytes must have the declared length,
    /// within the limit, and the declared digest, else the hash does not match.
    pub fn new(manifest: ImageModelManifest, model_bytes: Vec<u8>) -> (r: Result<Self, InferenceError>)
        ensures
            match r {
                Ok(model) => {
                    &&& model.spec_manifest() == manifest
                    &&& model.spec_model_bytes() == model_bytes@
                    &&& image_manifest_verdict(manifest, true) is Ok
                    &&& manifest.file_bytes <= MAX_MODEL_BYTES
                    &&& bytes_match(model_bytes@, manifest.file_bytes, manifest.asset.sha256@)
                },
                Err(e) => {
                    ||| (e.spec_kind() == InferenceErrorKind::ManifestInvalid && (image_manifest_verdict(
                        manifest,
                        true,
                    ) is Err || !plain_file_name(manifest.file_name@)))
                    ||| (e.spec_kind() == InferenceErrorKind::ModelHashMismatch
                        && image_manifest_verdict(manifest, true) is Ok && !(manifest.file_bytes
                        <= MAX_MODEL_BYTES && bytes_match(
                        model_bytes@,
                        manifest.file_bytes,
                        manifest.asset.sha256@,
                    )))
                },
            },
    {
        match manifest.validate() {
            Ok(()) => {},
            Err(_) => return Err(InferenceError::new(InferenceErrorKind::ManifestInvalid)),
        }
        verify_model_bytes(model_bytes.as_slice(), manifest.file_bytes, manifest.asset.sha256.as_str())?;
        Ok(VerifiedImageModel { manifest, model_bytes })
    }

    /// The manifest the model was accepted with.
    pub fn manifest(&self) -> (m: &ImageModelManifest)
        ensures
            *m == self.spec_manifest(),
            image_manifest_verdict(*m, true) is Ok,
    {
        proof {
            use_type_invariant(self);
        }
        &self.manifest
    }

    /// The model's bytes, which have the length and digest the manifest declares.
    pub fn model_bytes(&self) -> (bytes: &[u8])
        ensures
            bytes@ == self.spec_model_bytes(),
            bytes_match(bytes@, self.spec_manifest().file_bytes, self.spec_manifest().asset.sha256@),
    {
        proof {
            use_type_invariant(self);
        }
        self.model_bytes.as_slice()
    }
}

} // verus!
