use vstd::prelude::*;

use argon2::password_hash::{PasswordHash, PasswordHasher, PasswordVerifier, SaltString};
use argon2::Argon2;
use rand::rngs::OsRng;
use rand::RngCore;

use crate::assets::{lower_hex, lower_hex_string};
use crate::text::{char_count, str_eq, utf8};

verus! {

// ---------------------------------------------------------------------------
// Outside functions.
// ---------------------------------------------------------------------------

/// Whether `PasswordHash::new` parses `phc` as a password hash string.
pub uninterp spec fn phc_parses(phc: Seq<char>) -> bool;

/// Whether `Argon2::default().verify_password` accepts `password` for the parsed hash `phc`.
pub uninterp spec fn argon2_accepts(password: Seq<u8>, phc: Seq<char>) -> bool;

/// The password hash string `Argon2::default().hash_password` produces for `password` with
/// the salt made from `salt` by `SaltString::encode_b64`, if it produces one.
pub uninterp spec fn argon2_phc(password: Seq<u8>, salt: Seq<u8>) -> Option<Seq<char>>;

/// Checks `password` against the password hash string `phc` with `PasswordHash::new` and
/// `Argon2::default().verify_password`; `None` where the string does not parse.
#[verifier::external_body]
fn argon2_verify(password: &[u8], phc: &str) -> (verdict: Option<bool>)
    ensures
        verdict == (if phc_parses(phc@) {
            Some(argon2_accepts(password@, phc@))
        } else {
            None
        }),
{
    match PasswordHash::new(phc) {
        Ok(parsed) => Some(Argon2::default().verify_password(password, &parsed).is_ok()),
        Err(_) => None,
    }
}

/// Hashes `password` with `Argon2::default().hash_password` under the salt
/// `SaltString::encode_b64(salt)` and writes the hash string. Verification recomputes the
/// hash with the salt and parameters written in the string, so the string parses and
/// accepts the same password.
#[verifier::external_body]
fn argon2_hash(password: &[u8], salt: &[u8; 16]) -> (phc: Option<String>)
    ensures
        match phc {
            Some(h) => argon2_phc(password@, salt@) == Some(h@) && phc_parses(h@) && argon2_accepts(
                password@,
                h@,
            ),
            None => argon2_phc(password@, salt@) is None,
        },
{
    let salt = SaltString::encode_b64(salt).ok()?;
    Argon2::default().hash_password(password, &salt).ok().map(|hash| hash.to_string())
}

/// Draws sixteen bytes from the operating system's generator with `OsRng::try_fill_bytes`;
/// `None` where the generator fails. Nothing is promised of the bytes.
#[verifier::external_body]
fn random_salt() -> (salt: Option<[u8; 16]>) {
    let mut salt = [0u8; 16];
    match OsRng.try_fill_bytes(&mut salt) {
        Ok(()) => Some(salt),
        Err(_) => None,
    }
}

/// Draws thirty-two bytes from the operating system's generator with
/// `OsRng::try_fill_bytes`; `None` where the generator fails. Nothing is promised of the
/// bytes.
#[verifier::external_body]
fn random_token_bytes() -> (bytes: Option<[u8; 32]>) {
    let mut bytes = [0u8; 32];
    match OsRng.try_fill_bytes(&mut bytes) {
        Ok(()) => Some(bytes),
        Err(_) => None,
    }
}

// ---------------------------------------------------------------------------
// Console authentication.
// ---------------------------------------------------------------------------

/// How long an unused session stays valid, in milliseconds.
pub const SESSION_LIFETIME_MS: u64 = 900_000;

/// Failed verifications in a row after which verification pauses.
pub const MAX_FAILURES: u32 = 5;

/// How long verification pauses, in milliseconds.
pub const FAILURE_COOLDOWN_MS: u64 = 30_000;

/// The fewest characters an administrator password may have.
pub const MINIMUM_PASSWORD_CHARACTERS: usize = 10;

/// Why a console operation was refused.
#[derive(Debug, Clone, Copy, PartialEq, Eq, Structural)]
pub enum ConsoleError {
    PasswordTooShort,
    InvalidPassword,
    RateLimited,
    SessionExpired,
    AlreadyEnrolled,
    NotEnrolled,
    StateTooLarge,
    EvidenceUnavailable,
    StorageUnavailable,
    ExportFailed,
    InvalidBackup,
}

/// `now + SESSION_LIFETIME_MS`, held at `u64::MAX`.
pub open spec fn session_expiry(now_ms: u64) -> u64 {
    if now_ms + SESSION_LIFETIME_MS > u64::MAX {
        u64::MAX
    } else {
        (now_ms + SESSION_LIFETIME_MS) as u64
    }
}

/// The sessions with their expiry times, failed verifications in a row, and the end of a
/// pause after too many failures. Times are monotonic milliseconds.
///
/// Sessions are a vector of token and expiry pairs in the order they were opened: tokens
/// are strings, and a `HashMap` keyed by a `String` gives Verus nothing to prove a lookup
/// or a removal with.
pub struct AuthRuntime {
    sessions: Vec<(String, u64)>,
    failures: u32,
    blocked_until: Option<u64>,
}

/// A session is still live at `now_ms`.
pub open spec fn live_at(now_ms: u64) -> spec_fn((Seq<char>, u64)) -> bool {
    |e: (Seq<char>, u64)| e.1 > now_ms
}

/// A session other than `token`'s.
pub open spec fn other_than(token: Seq<char>) -> spec_fn((Seq<char>, u64)) -> bool {
    |e: (Seq<char>, u64)| e.0 != token
}

/// The session of `token` extended from `now_ms`; others unchanged.
pub open spec fn refreshed(token: Seq<char>, now_ms: u64) -> spec_fn((Seq<char>, u64)) -> (Seq<char>, u64) {
    |e: (Seq<char>, u64)| if e.0 == token { (e.0, session_expiry(now_ms)) } else { e }
}

/// Some session in `sessions` belongs to `token`.
pub open spec fn holds_token(sessions: Seq<(Seq<char>, u64)>, token: Seq<char>) -> bool {
    exists|i: int| 0 <= i < sessions.len() && #[trigger] sessions[i].0 == token
}

/// Session entries as tokens and expiry times.
pub open spec fn session_view(entries: Seq<(String, u64)>) -> Seq<(Seq<char>, u64)> {
    entries.map_values(|e: (String, u64)| (e.0@, e.1))
}

impl AuthRuntime {
    /// The sessions in the order they were opened: token and expiry time.
    pub closed spec fn sessions(self) -> Seq<(Seq<char>, u64)> {
        session_view(self.sessions@)
    }

    /// Failed verifications in a row.
    pub closed spec fn spec_failures(self) -> u32 {
        self.failures
    }

    /// The end of the current pause, if any.
    pub closed spec fn spec_blocked_until(self) -> Option<u64> {
        self.blocked_until
    }

    /// No sessions, no failures, no pause.
    pub fn new() -> (runtime: Self)
        ensures
            runtime.sessions() == Seq::<(Seq<char>, u64)>::empty(),
            runtime.spec_failures() == 0,
            runtime.spec_blocked_until() is None,
    {
        let runtime = AuthRuntime { sessions: Vec::new(), failures: 0, blocked_until: None };
        assert(runtime.sessions() =~= Seq::<(Seq<char>, u64)>::empty());
        runtime
    }

    /// Opens `token` as the only session, valid for the session lifetime from `now_ms`, and
    /// forgets failures and any pause.
    pub fn start_session(&mut self, token: String, now_ms: u64)
        ensures
            final(self).sessions() == seq![(token@, session_expiry(now_ms))],
            final(self).spec_failures() == 0,
            final(self).spec_blocked_until() is None,
    {
        let mut sessions: Vec<(String, u64)> = Vec::new();
        let expiry = now_ms.saturating_add(SESSION_LIFETIME_MS);
        let ghost t = token@;
        sessions.push((token, expiry));
        *self = AuthRuntime { sessions, failures: 0, blocked_until: None };
        assert(self.sessions() =~= seq![(t, session_expiry(now_ms))]);
    }

    /// Drops the sessions that have expired at `now_ms`; accepts `token` if a live session
    /// is its own, and extends that session by the session lifetime.
    pub fn authorize(&mut self, token: &str, now_ms: u64) -> (r: Result<(), ConsoleError>)
        ensures
            final(self).spec_failures() == old(self).spec_failures(),
            final(self).spec_blocked_until() == old(self).spec_blocked_until(),
            final(self).sessions() == old(self).sessions().filter(live_at(now_ms)).map_values(
                refreshed(token@, now_ms),
            ),
            r is Ok <==> holds_token(old(self).sessions().filter(live_at(now_ms)), token@),
            r is Err ==> r == Err::<(), ConsoleError>(ConsoleError::SessionExpired),
    {
        let ghost old_model = self.sessions();
        let mut kept: Vec<(String, u64)> = Vec::new();
        let mut found = false;
        let mut i: usize = 0;
        while i < self.sessions.len()
            invariant
                self.sessions() == old_model,
                old_model.len() == self.sessions@.len(),
                i <= old_model.len(),
                session_view(kept@) == old_model.take(i as int).filter(
                    live_at(now_ms),
                ).map_values(refreshed(token@, now_ms)),
                found == holds_token(old_model.take(i as int).filter(live_at(now_ms)), token@),
            decreases old_model.len() - i,
        {
            let entry_expiry = self.sessions[i].1;
            let ghost e = old_model[i as int];
            assert(e == (self.sessions@[i as int].0@, self.sessions@[i as int].1));
            assert(old_model.take(i + 1).drop_last() =~= old_model.take(i as int));
            assert(old_model.take(i + 1).last() == e);
            proof {
                reveal(Seq::filter);
            }
            let ghost prior = old_model.take(i as int).filter(live_at(now_ms));
            if entry_expiry > now_ms {
                let same = str_eq(self.sessions[i].0.as_str(), token);
                let expiry = if same {
                    now_ms.saturating_add(SESSION_LIFETIME_MS)
                } else {
                    entry_expiry
                };
                let ghost before = kept@;
                kept.push((self.sessions[i].0.clone(), expiry));
                assert(old_model.take(i + 1).filter(live_at(now_ms)) == prior.push(e));
                proof {
                    let view = session_view(kept@);
                    let target = prior.push(e).map_values(refreshed(token@, now_ms));
                    assert(session_view(before) == prior.map_values(
                        refreshed(token@, now_ms),
                    ));
                    assert(session_view(before).len() == before.len());
                    assert(prior.map_values(refreshed(token@, now_ms)).len() == prior.len());
                    assert(before.len() == prior.len());
                    assert forall|k: int| 0 <= k < view.len() implies view[k] == target[k] by {
                        if k < before.len() {
                            assert(kept@[k] == before[k]);
                            assert(session_view(before)[k] == prior.map_values(
                                refreshed(token@, now_ms),
                            )[k]);
                            assert(prior.push(e)[k] == prior[k]);
                        }
                    }
                    assert(view =~= target);
                }
                proof {
                    if same {
                        assert(prior.push(e)[prior.len() as int].0 == token@);
                    } else if found {
                        let j = choose|j: int| 0 <= j < prior.len() && #[trigger] prior[j].0 == token@;
                        assert(prior.push(e)[j].0 == token@);
                    } else {
                        assert forall|j: int| 0 <= j < prior.push(e).len() implies #[trigger] prior.push(
                            e,
                        )[j].0 != token@ by {
                            if j < prior.len() {
                                assert(prior.push(e)[j] == prior[j]);
                            }
                        }
                    }
                }
                found = found || same;
            } else {
                assert(old_model.take(i + 1).filter(live_at(now_ms)) == prior);
            }
            i = i + 1;
        }
        assert(old_model.take(old_model.len() as int) =~= old_model);
        let failures = self.failures;
        let blocked_until = self.blocked_until;
        *self = AuthRuntime { sessions: kept, failures, blocked_until };
        if found {
            Ok(())
        } else {
            Err(ConsoleError::SessionExpired)
        }
    }

    /// Ends the session of `token`, if there is one.
    pub fn lock(&mut self, token: &str)
        ensures
            final(self).sessions() == old(self).sessions().filter(other_than(token@)),
            final(self).spec_failures() == old(self).spec_failures(),
            final(self).spec_blocked_until() == old(self).spec_blocked_until(),
    {
        let ghost old_model = self.sessions();
        let mut kept: Vec<(String, u64)> = Vec::new();
        let mut i: usize = 0;
        while i < self.sessions.len()
            invariant
                self.sessions() == old_model,
                old_model.len() == self.sessions@.len(),
                i <= old_model.len(),
                session_view(kept@) == old_model.take(i as int).filter(
                    other_than(token@),
                ),
            decreases old_model.len() - i,
        {
            let ghost e = old_model[i as int];
            assert(e == (self.sessions@[i as int].0@, self.sessions@[i as int].1));
            assert(old_model.take(i + 1).drop_last() =~= old_model.take(i as int));
            assert(old_model.take(i + 1).last() == e);
            proof {
                reveal(Seq::filter);
            }
            let ghost prior = old_model.take(i as int).filter(other_than(token@));
            if !str_eq(self.sessions[i].0.as_str(), token) {
                kept.push((self.sessions[i].0.clone(), self.sessions[i].1));
                assert(old_model.take(i + 1).filter(other_than(token@)) == prior.push(e));
                assert(session_view(kept@) =~= prior.push(e));
            } else {
                assert(old_model.take(i + 1).filter(other_than(token@)) == prior);
            }
            i = i + 1;
        }
        assert(old_model.take(old_model.len() as int) =~= old_model);
        let failures = self.failures;
        let blocked_until = self.blocked_until;
        *self = AuthRuntime { sessions: kept, failures, blocked_until };
    }

    /// Whether verification is paused at `now_ms`.
    pub fn is_blocked(&self, now_ms: u64) -> (blocked: bool)
        ensures
            blocked == (self.spec_blocked_until() matches Some(until) && until > now_ms),
    {
        match self.blocked_until {
            Some(until) => until > now_ms,
            None => false,
        }
    }

    /// Records the outcome of a verification at `now_ms`: a success forgets failures and any
    /// pause; the fifth failure in a row starts a pause of the cooldown and starts counting
    /// again.
    pub fn record_verification(&mut self, accepted: bool, now_ms: u64)
        ensures
            final(self).sessions() == old(self).sessions(),
            accepted ==> final(self).spec_failures() == 0 && final(self).spec_blocked_until() is None,
            !accepted && old(self).spec_failures() + 1 >= MAX_FAILURES ==> final(self).spec_failures() == 0
                && final(self).spec_blocked_until() == Some(
                if now_ms + FAILURE_COOLDOWN_MS > u64::MAX {
                    u64::MAX
                } else {
                    (now_ms + FAILURE_COOLDOWN_MS) as u64
                },
            ),
            !accepted && old(self).spec_failures() + 1 < MAX_FAILURES ==> final(self).spec_failures()
                == old(self).spec_failures() + 1 && final(self).spec_blocked_until() == old(
                self,
            ).spec_blocked_until(),
    {
        if accepted {
            self.failures = 0;
            self.blocked_until = None;
        } else {
            let failures = self.failures.saturating_add(1);
            if failures >= MAX_FAILURES {
                self.failures = 0;
                self.blocked_until = Some(now_ms.saturating_add(FAILURE_COOLDOWN_MS));
            } else {
                self.failures = failures;
            }
        }
    }
}

impl Default for AuthRuntime {
    fn default() -> (runtime: Self)
        ensures
            runtime.sessions() == Seq::<(Seq<char>, u64)>::empty(),
            runtime.spec_failures() == 0,
            runtime.spec_blocked_until() is None,
    {
        AuthRuntime::new()
    }
}

/// A fresh session token: 32 random bytes in lower-case hexadecimal, opened as the only
/// session at `now_ms`; refused only where the generator fails.
pub fn new_session(runtime: &mut AuthRuntime, now_ms: u64) -> (r: Result<String, ConsoleError>)
    ensures
        match r {
            Ok(token) => {
                &&& token@.len() == 64
                &&& exists|bytes: Seq<u8>| bytes.len() == 32 && token@ == #[trigger] lower_hex(bytes)
                &&& final(runtime).sessions() == seq![(token@, session_expiry(now_ms))]
                &&& final(runtime).spec_failures() == 0
                &&& final(runtime).spec_blocked_until() is None
            },
            Err(e) => e == ConsoleError::StorageUnavailable && *final(runtime) == *old(runtime),
        },
{
    let bytes = match random_token_bytes() {
        Some(b) => b,
        None => return Err(ConsoleError::StorageUnavailable),
    };
    let token = lower_hex_string(&bytes);
    proof {
        lemma_lower_hex_len(bytes@);
        assert(token@ == lower_hex(bytes@));
    }
    runtime.start_session(token.clone(), now_ms);
    Ok(token)
}

proof fn lemma_lower_hex_len(bytes: Seq<u8>)
    ensures
        lower_hex(bytes).len() == 2 * bytes.len(),
    decreases bytes.len(),
{
    if bytes.len() > 0 {
        lemma_lower_hex_len(bytes.drop_last());
    }
}

/// What verifying `password` against `phc` at `now_ms` answers: a pause refuses, a hash
/// string that does not parse is a storage fault, and otherwise the hash decides.
pub open spec fn verification_verdict(
    blocked: bool,
    password: Seq<u8>,
    phc: Seq<char>,
) -> Result<(), ConsoleError> {
    if blocked {
        Err(ConsoleError::RateLimited)
    } else if !phc_parses(phc) {
        Err(ConsoleError::StorageUnavailable)
    } else if argon2_accepts(password, phc) {
        Ok(())
    } else {
        Err(ConsoleError::InvalidPassword)
    }
}

/// Verifies `password` against the stored hash string, under the rate limit.
pub fn verify_password(runtime: &mut AuthRuntime, password_hash: &str, password: &str, now_ms: u64) -> (r:
    Result<(), ConsoleError>)
    ensures
        r == verification_verdict(
            old(runtime).spec_blocked_until() matches Some(until) && until > now_ms,
            utf8(password@),
            password_hash@,
        ),
        final(runtime).sessions() == old(runtime).sessions(),
        r is Ok ==> final(runtime).spec_failures() == 0 && final(runtime).spec_blocked_until() is None,
        r == Err::<(), ConsoleError>(ConsoleError::InvalidPassword) ==> (if old(runtime).spec_failures() + 1
            >= MAX_FAILURES {
            final(runtime).spec_failures() == 0 && final(runtime).spec_blocked_until() is Some
        } else {
            final(runtime).spec_failures() == old(runtime).spec_failures() + 1
                && final(runtime).spec_blocked_until() == old(runtime).spec_blocked_until()
        }),
        (r is Err && r != Err::<(), ConsoleError>(ConsoleError::InvalidPassword)) ==> *final(runtime) == *old(
            runtime,
        ),
{
    if runtime.is_blocked(now_ms) {
        return Err(ConsoleError::RateLimited);
    }
    match argon2_verify(password.as_bytes(), password_hash) {
        None => Err(ConsoleError::StorageUnavailable),
        Some(true) => {
            runtime.record_verification(true, now_ms);
            Ok(())
        },
        Some(false) => {
            runtime.record_verification(false, now_ms);
            Err(ConsoleError::InvalidPassword)
        },
    }
}

/// Hashes an administrator password under a fresh salt, once it has enough characters.
pub fn hash_new_password(password: &str) -> (r: Result<String, ConsoleError>)
    ensures
        match r {
            Ok(h) => password@.len() >= MINIMUM_PASSWORD_CHARACTERS && phc_parses(h@) && argon2_accepts(
                utf8(password@),
                h@,
            ),
            Err(e) => (e == ConsoleError::PasswordTooShort && password@.len() < MINIMUM_PASSWORD_CHARACTERS)
                || (e == ConsoleError::StorageUnavailable && password@.len() >= MINIMUM_PASSWORD_CHARACTERS),
        },
{
    if char_count(password) < MINIMUM_PASSWORD_CHARACTERS {
        return Err(ConsoleError::PasswordTooShort);
    }
    let salt = match random_salt() {
        Some(s) => s,
        None => return Err(ConsoleError::StorageUnavailable),
    };
    match argon2_hash(password.as_bytes(), &salt) {
        Some(h) => Ok(h),
        None => Err(ConsoleError::StorageUnavailable),
    }
}

/// Replaces the stored hash by one of `new_password`, but only once `current_password`
/// verifies and the new password is long enough; otherwise the stored hash stays.
pub fn apply_password_change(
    runtime: &mut AuthRuntime,
    password_hash: &mut String,
    current_password: &str,
    new_password: &str,
    now_ms: u64,
) -> (r: Result<(), ConsoleError>)
    ensures
        ({
            let verdict = verification_verdict(
                old(runtime).spec_blocked_until() matches Some(until) && until > now_ms,
                utf8(current_password@),
                old(password_hash)@,
            );
            match r {
                Ok(()) => {
                    &&& verdict is Ok
                    &&& new_password@.len() >= MINIMUM_PASSWORD_CHARACTERS
                    &&& phc_parses(final(password_hash)@)
                    &&& argon2_accepts(utf8(new_password@), final(password_hash)@)
                },
                Err(e) => {
                    &&& final(password_hash)@ == old(password_hash)@
                    &&& (verdict is Err ==> r == verdict)
                    &&& (verdict is Ok ==> (e == ConsoleError::PasswordTooShort && new_password@.len()
                        < MINIMUM_PASSWORD_CHARACTERS) || (e == ConsoleError::StorageUnavailable
                        && new_password@.len() >= MINIMUM_PASSWORD_CHARACTERS))
                },
            }
        }),
        final(runtime).sessions() == old(runtime).sessions(),
{
    verify_password(runtime, password_hash.as_str(), current_password, now_ms)?;
    let replacement = hash_new_password(new_password)?;
    *password_hash = replacement;
    Ok(())
}

/// After a password change, the new password verifies against the stored hash wherever
/// verification is not paused: what the change wrote, a check reads back.
pub proof fn lemma_changed_password_verifies(password: Seq<char>, phc: Seq<char>)
    requires
        phc_parses(phc),
        argon2_accepts(utf8(password), phc),
    ensures
        verification_verdict(false, utf8(password), phc) is Ok,
{
}

} // verus!
