use selfie_auth::error::AuthError;
use selfie_auth::hasher::{check_strength, hash_passphrase, meets_strength, verify_passphrase};

const STRONG: &str = "Tr0ub4dor&3-quantum-velvet-Harbor-92!";

#[test]
fn hash_then_verify_round_trips() {
    let h = hash_passphrase("open sesame").unwrap();
    assert!(h.starts_with("$argon2id$"));
    assert_eq!(verify_passphrase("open sesame", &h), Ok(true));
    assert_eq!(verify_passphrase("open sesamE", &h), Ok(false));
}

#[test]
fn hashes_are_salted() {
    let a = hash_passphrase("same").unwrap();
    let b = hash_passphrase("same").unwrap();
    assert_ne!(a, b);
}

#[test]
fn unparsable_hash_is_internal_error() {
    assert_eq!(verify_passphrase("x", "not a phc string"), Err(AuthError::InternalError));
}

#[test]
fn strength_rule_thresholds() {
    assert!(meets_strength(3, 1 << 50));
    assert!(meets_strength(4, u64::MAX));
    assert!(!meets_strength(2, u64::MAX));
    assert!(!meets_strength(4, (1 << 50) - 1));
}

#[test]
fn weak_and_blank_passphrases_are_refused() {
    let weak = check_strength("password", "a@b.c", "too weak".to_string());
    assert_eq!(weak, Err(AuthError::WeakPassphrase("too weak".to_string())));
    let blank = check_strength("", "a@b.c", "too weak".to_string());
    assert_eq!(blank, Err(AuthError::WeakPassphrase("too weak".to_string())));
}

#[test]
fn strong_passphrase_passes() {
    assert_eq!(check_strength(STRONG, "a@b.c", "too weak".to_string()), Ok(()));
}
