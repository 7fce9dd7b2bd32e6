use argon2::password_hash::{PasswordHasher, SaltString};
use argon2::Argon2;
use rand::rngs::OsRng;

use karma::console::{
    apply_password_change, hash_new_password, new_session, verify_password, AuthRuntime,
    ConsoleError, FAILURE_COOLDOWN_MS, SESSION_LIFETIME_MS,
};

fn enrolled_hash(password: &str) -> String {
    let salt = SaltString::generate(&mut OsRng);
    Argon2::default()
        .hash_password(password.as_bytes(), &salt)
        .unwrap()
        .to_string()
}

#[test]
fn sessions_expire_and_unknown_tokens_are_rejected() {
    let mut runtime = AuthRuntime::default();
    assert!(matches!(runtime.authorize("unknown", 0), Err(ConsoleError::SessionExpired)));
    let token = new_session(&mut runtime, 1_000).unwrap();
    assert_eq!(token.len(), 64);
    assert!(runtime.authorize(&token, 1_000 + SESSION_LIFETIME_MS - 1).is_ok());
    let refreshed_until = 1_000 + SESSION_LIFETIME_MS - 1 + SESSION_LIFETIME_MS;
    assert!(runtime.authorize(&token, refreshed_until - 1).is_ok());
    assert!(matches!(
        runtime.authorize(&token, refreshed_until - 1 + SESSION_LIFETIME_MS),
        Err(ConsoleError::SessionExpired)
    ));
}

#[test]
fn a_new_session_replaces_the_old_one_and_lock_ends_it() {
    let mut runtime = AuthRuntime::new();
    let first = new_session(&mut runtime, 0).unwrap();
    let second = new_session(&mut runtime, 0).unwrap();
    assert_ne!(first, second);
    assert!(matches!(runtime.authorize(&first, 1), Err(ConsoleError::SessionExpired)));
    assert!(runtime.authorize(&second, 1).is_ok());
    runtime.lock(&second);
    assert!(matches!(runtime.authorize(&second, 2), Err(ConsoleError::SessionExpired)));
}

#[test]
fn password_verification_accepts_only_the_enrolled_secret() {
    let stored = enrolled_hash("correct-password");
    let mut runtime = AuthRuntime::default();
    assert!(verify_password(&mut runtime, &stored, "correct-password", 0).is_ok());
    assert!(matches!(
        verify_password(&mut runtime, &stored, "wrong-password", 0),
        Err(ConsoleError::InvalidPassword)
    ));
}

#[test]
fn password_change_keeps_old_secret_until_current_secret_verifies() {
    let mut stored = enrolled_hash("correct-password");
    let mut runtime = AuthRuntime::default();
    assert!(matches!(
        apply_password_change(&mut runtime, &mut stored, "wrong-password", "replacement-password", 0),
        Err(ConsoleError::InvalidPassword)
    ));
    assert!(matches!(
        apply_password_change(&mut runtime, &mut stored, "correct-password", "short", 0),
        Err(ConsoleError::PasswordTooShort)
    ));
    assert!(verify_password(&mut runtime, &stored, "correct-password", 0).is_ok());
    apply_password_change(&mut runtime, &mut stored, "correct-password", "replacement-password", 0)
        .unwrap();
    assert!(matches!(
        verify_password(&mut runtime, &stored, "correct-password", 0),
        Err(ConsoleError::InvalidPassword)
    ));
    assert!(verify_password(&mut runtime, &stored, "replacement-password", 0).is_ok());
}

#[test]
fn five_failures_pause_verification_for_the_cooldown() {
    let stored = hash_new_password("correct-password").unwrap();
    let mut runtime = AuthRuntime::default();
    for _ in 0..5 {
        assert!(matches!(
            verify_password(&mut runtime, &stored, "wrong-password", 100),
            Err(ConsoleError::InvalidPassword)
        ));
    }
    assert!(matches!(
        verify_password(&mut runtime, &stored, "correct-password", 100),
        Err(ConsoleError::RateLimited)
    ));
    assert!(matches!(
        verify_password(&mut runtime, &stored, "correct-password", 100 + FAILURE_COOLDOWN_MS - 1),
        Err(ConsoleError::RateLimited)
    ));
    assert!(verify_password(&mut runtime, &stored, "correct-password", 100 + FAILURE_COOLDOWN_MS).is_ok());
}

#[test]
fn short_passwords_and_broken_hashes_are_refused() {
    assert_eq!(hash_new_password("123456789"), Err(ConsoleError::PasswordTooShort));
    let mut runtime = AuthRuntime::default();
    assert_eq!(
        verify_password(&mut runtime, "not a hash", "whatever-password", 0),
        Err(ConsoleError::StorageUnavailable)
    );
}
