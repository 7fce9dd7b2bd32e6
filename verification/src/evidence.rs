use vstd::prelude::*;

use aes_gcm::aead::{Aead, KeyInit, Payload};
use aes_gcm::{Aes256Gcm, Key, Nonce};
use rand::rngs::OsRng;
use rand::RngCore;
use std::path::{Path, PathBuf};
use zeroize::Zeroize;

use crate::text::{is_ascii_alnum_byte, utf8};

verus! {

#[verifier::external_type_specification]
#[verifier::external_body]
pub struct ExPath(Path);

#[verifier::external_type_specification]
#[verifier::external_body]
pub struct ExPathBuf(PathBuf);

// ---------------------------------------------------------------------------
// Outside functions.
// ---------------------------------------------------------------------------

/// The ciphertext and tag that AES-256-GCM produces for `plaintext` under `key`, `nonce` and
/// the associated data `aad`.
pub uninterp spec fn aes256gcm_sealed(key: Seq<u8>, nonce: Seq<u8>, aad: Seq<u8>, plaintext: Seq<u8>) -> Seq<u8>;

/// The plaintext that AES-256-GCM recovers from `ciphertext` under `key`, `nonce` and
/// `aad`, or `None` where the tag does not authenticate it.
pub uninterp spec fn aes256gcm_opened(key: Seq<u8>, nonce: Seq<u8>, aad: Seq<u8>, ciphertext: Seq<u8>) -> Option<Seq<u8>>;

/// The longest plaintext and associated data AES-GCM accepts.
pub const AES_GCM_MAX_INPUT: u64 = 68_719_476_736;

/// Encrypts with `Aead::encrypt` of `aes_gcm::Aes256Gcm`. The crate refuses a plaintext or
/// associated data over 2^36 bytes and otherwise appends a 16-byte tag to a ciphertext as
/// long as the plaintext; the result is a function of the four arguments.
#[verifier::external_body]
fn aes256gcm_encrypt(key: &[u8; 32], nonce: &[u8; 12], aad: &[u8], plaintext: &[u8]) -> (sealed: Option<Vec<u8>>)
    ensures
        match sealed {
            Some(c) => {
                &&& plaintext@.len() <= AES_GCM_MAX_INPUT && aad@.len() <= AES_GCM_MAX_INPUT
                &&& c@ == aes256gcm_sealed(key@, nonce@, aad@, plaintext@)
                &&& c@.len() == plaintext@.len() + 16
            },
            None => plaintext@.len() > AES_GCM_MAX_INPUT || aad@.len() > AES_GCM_MAX_INPUT,
        },
{
    let cipher = Aes256Gcm::new(Key::<Aes256Gcm>::from_slice(key));
    cipher.encrypt(Nonce::from_slice(nonce), Payload { msg: plaintext, aad }).ok()
}

/// Decrypts with `Aead::decrypt` of `aes_gcm::Aes256Gcm`: it gives back the plaintext of
/// whatever `encrypt` produced under the same key, nonce and associated data, and refuses
/// what its tag does not authenticate.
#[verifier::external_body]
fn aes256gcm_decrypt(key: &[u8; 32], nonce: &[u8; 12], aad: &[u8], ciphertext: &[u8]) -> (opened: Option<Vec<u8>>)
    ensures
        match opened {
            Some(p) => aes256gcm_opened(key@, nonce@, aad@, ciphertext@) == Some(p@),
            None => aes256gcm_opened(key@, nonce@, aad@, ciphertext@) is None,
        },
        forall|m: Seq<u8>|
            m.len() <= AES_GCM_MAX_INPUT && aad@.len() <= AES_GCM_MAX_INPUT && #[trigger] aes256gcm_sealed(
                key@,
                nonce@,
                aad@,
                m,
            ) == ciphertext@ ==> opened is Some && opened->0@ == m,
{
    let cipher = Aes256Gcm::new(Key::<Aes256Gcm>::from_slice(key));
    cipher.decrypt(Nonce::from_slice(nonce), Payload { msg: ciphertext, aad }).ok()
}

/// Fills a nonce from the operating system's generator with `OsRng::try_fill_bytes`;
/// `None` where the generator fails. Nothing is promised of the bytes.
#[verifier::external_body]
fn random_nonce() -> (nonce: Option<[u8; 12]>) {
    let mut nonce = [0u8; 12];
    match OsRng.try_fill_bytes(&mut nonce) {
        Ok(()) => Some(nonce),
        Err(_) => None,
    }
}

/// Overwrites the bytes with zeros and empties the vector, with `Zeroize::zeroize`.
#[verifier::external_body]
fn wipe(bytes: &mut Vec<u8>)
    ensures
        final(bytes)@.len() == 0,
{
    bytes.zeroize();
}

/// The path that `Path::join` makes of `directory` and the relative name `name`.
pub uninterp spec fn path_joined(directory: &Path, name: Seq<char>) -> PathBuf;

/// Joins `name` onto `directory` with `Path::join`: a function of the two alone.
#[verifier::external_body]
fn join_path(directory: &Path, name: &str) -> (joined: PathBuf)
    ensures
        joined == path_joined(directory, name@),
{
    directory.join(name)
}

// ---------------------------------------------------------------------------
// Identifiers and files.
// ---------------------------------------------------------------------------

/// The version byte that starts every evidence file.
pub const FILE_VERSION: u8 = 1;

/// The length of an AES-GCM nonce.
pub const NONCE_BYTES: usize = 12;

/// The version byte and the nonce.
pub const HEADER_BYTES: usize = 13;

/// The largest evidence image that is stored.
pub const MAX_PLAINTEXT_BYTES: usize = 786_432;

/// The largest evidence file that is read.
pub const MAX_CIPHERTEXT_BYTES: usize = 786_477;

/// Why evidence could not be stored or read.
#[derive(Debug, Clone, Copy, PartialEq, Eq, Structural)]
pub enum EvidenceError {
    InvalidIdentifier,
    TooLarge,
    AlreadyExists,
    Unavailable,
    AuthenticationFailed,
}

/// An evidence identifier: 1 to 128 bytes, each an ASCII letter or digit, `-` or `_`; so
/// it can name no other directory.
pub open spec fn evidence_id_ok(id: Seq<char>) -> bool {
    &&& 0 < utf8(id).len() <= 128
    &&& forall|i: int|
        0 <= i < utf8(id).len() ==> is_ascii_alnum_byte(#[trigger] utf8(id)[i]) || utf8(id)[i] == 45u8
            || utf8(id)[i] == 95u8
}

/// Accepts an evidence identifier.
pub fn validate_id(value: &str) -> (r: Result<(), EvidenceError>)
    ensures
        r is Ok <==> evidence_id_ok(value@),
        r is Err ==> r == Err::<(), EvidenceError>(EvidenceError::InvalidIdentifier),
{
    let bytes = value.as_bytes();
    if bytes.len() == 0 || bytes.len() > 128 {
        return Err(EvidenceError::InvalidIdentifier);
    }
    let mut i: usize = 0;
    while i < bytes.len()
        invariant
            bytes@ == utf8(value@),
            i <= bytes@.len(),
            forall|k: int|
                0 <= k < i ==> is_ascii_alnum_byte(#[trigger] bytes@[k]) || bytes@[k] == 45u8
                    || bytes@[k] == 95u8,
        decreases bytes@.len() - i,
    {
        let b = bytes[i];
        let alnum = (b >= 48 && b <= 57) || (b >= 65 && b <= 90) || (b >= 97 && b <= 122);
        if !(alnum || b == 45 || b == 95) {
            return Err(EvidenceError::InvalidIdentifier);
        }
        i = i + 1;
    }
    Ok(())
}

/// The name of the file that holds evidence `id`.
pub open spec fn evidence_file_name_of(id: Seq<char>) -> Seq<char> {
    id + ".kme"@
}

/// The file name for an evidence identifier, once the identifier is accepted.
pub fn evidence_file_name(evidence_id: &str) -> (r: Result<String, EvidenceError>)
    ensures
        match r {
            Ok(name) => evidence_id_ok(evidence_id@) && name@ == evidence_file_name_of(evidence_id@),
            Err(e) => !evidence_id_ok(evidence_id@) && e == EvidenceError::InvalidIdentifier,
        },
{
    validate_id(evidence_id)?;
    let mut name = String::from_str(evidence_id);
    name.append(".kme");
    Ok(name)
}

/// The path of the file that holds evidence `evidence_id` in `directory`, once the
/// identifier is accepted.
pub fn evidence_path(directory: &Path, evidence_id: &str) -> (r: Result<PathBuf, EvidenceError>)
    ensures
        r is Ok <==> evidence_id_ok(evidence_id@),
        r matches Ok(p) ==> p == path_joined(directory, evidence_file_name_of(evidence_id@)),
        r is Err ==> r == Err::<PathBuf, EvidenceError>(EvidenceError::InvalidIdentifier),
{
    let name = evidence_file_name(evidence_id)?;
    Ok(join_path(directory, name.as_str()))
}

/// Whether a stored file of `length` bytes may be read: it holds at least a header and no
/// more than the largest sealed image.
pub fn evidence_file_length_ok(length: u64) -> (ok: bool)
    ensures
        ok == (HEADER_BYTES <= length <= MAX_CIPHERTEXT_BYTES),
{
    length >= HEADER_BYTES as u64 && length <= MAX_CIPHERTEXT_BYTES as u64
}

// ---------------------------------------------------------------------------
// Sealing and opening.
// ---------------------------------------------------------------------------

/// The stored form of evidence: the version byte, the nonce, then the ciphertext.
pub open spec fn sealed_file(nonce: Seq<u8>, ciphertext: Seq<u8>) -> Seq<u8> {
    seq![FILE_VERSION] + nonce + ciphertext
}

/// What opening a stored file gives: the identifier must be accepted, the file must have a
/// length that may be read and start with the version byte, and the tag must authenticate
/// the rest under the key and the identifier.
pub open spec fn opened_evidence(key: Seq<u8>, id: Seq<char>, file: Seq<u8>) -> Result<Seq<u8>, EvidenceError> {
    if !evidence_id_ok(id) {
        Err(EvidenceError::InvalidIdentifier)
    } else if file.len() < HEADER_BYTES || file.len() > MAX_CIPHERTEXT_BYTES || file[0] != FILE_VERSION {
        Err(EvidenceError::Unavailable)
    } else {
        match aes256gcm_opened(key, file.subrange(1, 13), utf8(id), file.subrange(13, file.len() as int)) {
            Some(p) => Ok(p),
            None => Err(EvidenceError::AuthenticationFailed),
        }
    }
}

/// Encrypts an evidence image for storage under `key`, bound to its identifier, with a fresh
/// nonce, and wipes the image. A refused identifier leaves the image as it was; an image
/// over the limit is wiped and refused; the file fails to seal only where no nonce could be
/// drawn.
pub fn seal_evidence(key: &[u8; 32], evidence_id: &str, plaintext: &mut Vec<u8>) -> (r: Result<
    Vec<u8>,
    EvidenceError,
>)
    ensures
        !evidence_id_ok(evidence_id@) ==> r == Err::<Vec<u8>, EvidenceError>(
            EvidenceError::InvalidIdentifier,
        ) && final(plaintext)@ == old(plaintext)@,
        evidence_id_ok(evidence_id@) ==> final(plaintext)@.len() == 0,
        evidence_id_ok(evidence_id@) && old(plaintext)@.len() > MAX_PLAINTEXT_BYTES ==> r == Err::<
            Vec<u8>,
            EvidenceError,
        >(EvidenceError::TooLarge),
        evidence_id_ok(evidence_id@) && old(plaintext)@.len() <= MAX_PLAINTEXT_BYTES ==> match r {
            Ok(file) => {
                &&& file@.len() == old(plaintext)@.len() + HEADER_BYTES + 16
                &&& exists|nonce: Seq<u8>|
                    nonce.len() == NONCE_BYTES && #[trigger] sealed_file(
                        nonce,
                        aes256gcm_sealed(key@, nonce, utf8(evidence_id@), old(plaintext)@),
                    ) == file@
            },
            Err(e) => e == EvidenceError::Unavailable,
        },
{
    validate_id(evidence_id)?;
    if plaintext.len() > MAX_PLAINTEXT_BYTES {
        wipe(plaintext);
        return Err(EvidenceError::TooLarge);
    }
    let nonce = match random_nonce() {
        Some(n) => n,
        None => {
            wipe(plaintext);
            return Err(EvidenceError::Unavailable);
        },
    };
    let aad = evidence_id.as_bytes();
    let sealed = aes256gcm_encrypt(key, &nonce, aad, plaintext.as_slice());
    let ghost original = plaintext@;
    wipe(plaintext);
    let ciphertext = match sealed {
        Some(c) => c,
        None => return Err(EvidenceError::Unavailable),
    };
    let mut file: Vec<u8> = Vec::new();
    file.push(FILE_VERSION);
    let mut i: usize = 0;
    while i < NONCE_BYTES
        invariant
            i <= NONCE_BYTES,
            file@ == seq![FILE_VERSION] + nonce@.take(i as int),
        decreases NONCE_BYTES - i,
    {
        file.push(nonce[i]);
        assert(nonce@.take(i + 1) =~= nonce@.take(i as int).push(nonce@[i as int]));
        i = i + 1;
    }
    assert(nonce@.take(12) =~= nonce@);
    let mut j: usize = 0;
    while j < ciphertext.len()
        invariant
            j <= ciphertext@.len(),
            file@ == seq![FILE_VERSION] + nonce@ + ciphertext@.take(j as int),
        decreases ciphertext@.len() - j,
    {
        file.push(ciphertext[j]);
        assert(ciphertext@.take(j + 1) =~= ciphertext@.take(j as int).push(ciphertext@[j as int]));
        j = j + 1;
    }
    assert(ciphertext@.take(ciphertext@.len() as int) =~= ciphertext@);
    assert(sealed_file(nonce@, aes256gcm_sealed(key@, nonce@, utf8(evidence_id@), original)) == file@);
    Ok(file)
}

/// Opens a stored evidence file under `key` for `evidence_id`. A file that was sealed for
/// the same identifier under the same key opens to the original image.
pub fn open_evidence(key: &[u8; 32], evidence_id: &str, file: &[u8]) -> (r: Result<Vec<u8>, EvidenceError>)
    ensures
        match opened_evidence(key@, evidence_id@, file@) {
            Ok(p) => (r matches Ok(v) && v@ == p),
            Err(e) => r == Err::<Vec<u8>, EvidenceError>(e),
        },
        forall|nonce: Seq<u8>, m: Seq<u8>|
            evidence_id_ok(evidence_id@) && nonce.len() == NONCE_BYTES && m.len() <= MAX_PLAINTEXT_BYTES
                && file@.len() <= MAX_CIPHERTEXT_BYTES && #[trigger] sealed_file(
                nonce,
                aes256gcm_sealed(key@, nonce, utf8(evidence_id@), m),
            ) == file@ ==> (r matches Ok(v) && v@ == m),
{
    validate_id(evidence_id)?;
    if file.len() < HEADER_BYTES || file.len() > MAX_CIPHERTEXT_BYTES || file[0] != FILE_VERSION {
        proof {
            assert forall|nonce: Seq<u8>, m: Seq<u8>|
                nonce.len() == NONCE_BYTES && m.len() <= MAX_PLAINTEXT_BYTES && file@.len()
                    <= MAX_CIPHERTEXT_BYTES && #[trigger] sealed_file(
                    nonce,
                    aes256gcm_sealed(key@, nonce, utf8(evidence_id@), m),
                ) == file@ implies false by {
                assert(sealed_file(nonce, aes256gcm_sealed(key@, nonce, utf8(evidence_id@), m))[0]
                    == FILE_VERSION);
            }
        }
        return Err(EvidenceError::Unavailable);
    }
    let mut nonce: [u8; 12] = [0u8; 12];
    let mut i: usize = 0;
    while i < NONCE_BYTES
        invariant
            i <= NONCE_BYTES,
            file@.len() >= HEADER_BYTES,
            nonce@.len() == NONCE_BYTES,
            forall|k: int| 0 <= k < i ==> nonce@[k] == file@[k + 1],
        decreases NONCE_BYTES - i,
    {
        nonce.set(i, file[i + 1]);
        i = i + 1;
    }
    assert(nonce@ =~= file@.subrange(1, 13));
    let aad = evidence_id.as_bytes();
    let ciphertext = &file[HEADER_BYTES..file.len()];
    let opened = aes256gcm_decrypt(key, &nonce, aad, ciphertext);
    proof {
        assert forall|n: Seq<u8>, m: Seq<u8>|
            n.len() == NONCE_BYTES && m.len() <= MAX_PLAINTEXT_BYTES && #[trigger] sealed_file(
                n,
                aes256gcm_sealed(key@, n, utf8(evidence_id@), m),
            ) == file@ implies (opened matches Some(p) && p@ == m) by {
            let c = aes256gcm_sealed(key@, n, utf8(evidence_id@), m);
            assert(file@.subrange(1, 13) =~= n);
            assert(file@.subrange(13, file@.len() as int) =~= c);
            assert(aes256gcm_sealed(key@, nonce@, aad@, m) == ciphertext@);
        }
    }
    match opened {
        Some(p) => Ok(p),
        None => Err(EvidenceError::AuthenticationFailed),
    }
}

} // verus!
