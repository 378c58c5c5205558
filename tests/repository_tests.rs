use selfie_auth::error::AuthError;
use selfie_auth::keys::{identifier_bytes, make_email_key, make_reset_key, make_user_key, make_verification_key};
use selfie_auth::model::{User, UserStatus};
use selfie_auth::repository::UserRepository;
use selfie_auth::store::{bytes_eq, Record, RecordStore};

fn user(id: u128, email: &str) -> User {
    User::new_at(email.to_string(), "hash".to_string(), id, 1_700_000_000)
}

#[test]
fn user_key_is_prefix_and_big_endian_id() {
    let key = make_user_key(0x0102030405060708090a0b0c0d0e0f10);
    let mut expected = b"user".to_vec();
    expected.extend_from_slice(&[1, 2, 3, 4, 5, 6, 7, 8, 9, 10, 11, 12, 13, 14, 15, 16]);
    assert_eq!(key, expected);
    assert_eq!(identifier_bytes(1), [0u8, 0, 0, 0, 0, 0, 0, 0, 0, 0, 0, 0, 0, 0, 0, 1].to_vec());
}

#[test]
fn index_keys_are_prefix_and_utf8() {
    assert_eq!(make_email_key("a@b.c"), b"email_idxa@b.c".to_vec());
    assert_eq!(make_verification_key("tok"), b"verifytok".to_vec());
    assert_eq!(make_reset_key("tok"), b"resettok".to_vec());
    assert_eq!(make_email_key("é"), vec![101, 109, 97, 105, 108, 95, 105, 100, 120, 0xc3, 0xa9]);
}

#[test]
fn byte_equality() {
    assert!(bytes_eq(b"abc", b"abc"));
    assert!(!bytes_eq(b"abc", b"abd"));
    assert!(!bytes_eq(b"ab", b"abc"));
    assert!(bytes_eq(b"", b""));
}

#[test]
fn store_set_replaces_and_get_finds() {
    let mut store = RecordStore::new();
    assert!(store.get(b"k").is_none());
    store.set(b"k".to_vec(), Record::UserRef(1));
    store.set(b"j".to_vec(), Record::UserRef(2));
    store.set(b"k".to_vec(), Record::UserRef(3));
    assert!(matches!(store.get(b"k"), Some(Record::UserRef(3))));
    assert!(matches!(store.get(b"j"), Some(Record::UserRef(2))));
    assert!(store.get(b"x").is_none());
}

#[test]
fn create_then_lookups_find_the_account() {
    let mut repo = UserRepository::new();
    let mut u = user(42, "ann@example.com");
    u.email_verification_token = Some("vt".to_string());
    assert_eq!(repo.create_user(&u), Ok(()));
    let by_id = repo.get_user_by_id(42).unwrap().unwrap();
    assert_eq!(by_id.email, "ann@example.com");
    assert_eq!(by_id.status, UserStatus::PendingVerification);
    assert_eq!(repo.get_user_by_email("ann@example.com").unwrap().unwrap().id, 42);
    assert_eq!(repo.get_user_by_verification_token("vt").unwrap().unwrap().id, 42);
    assert!(repo.get_user_by_email("bob@example.com").unwrap().is_none());
    assert!(repo.get_user_by_reset_token("vt").unwrap().is_none());
    assert!(repo.get_user_by_id(43).unwrap().is_none());
}

#[test]
fn duplicate_email_is_refused_without_writes() {
    let mut repo = UserRepository::new();
    assert_eq!(repo.create_user(&user(1, "dup@example.com")), Ok(()));
    let mut second = user(2, "dup@example.com");
    second.email_verification_token = Some("second".to_string());
    assert_eq!(repo.create_user(&second), Err(AuthError::UserExists));
    assert!(repo.get_user_by_id(2).unwrap().is_none());
    assert!(repo.get_user_by_verification_token("second").unwrap().is_none());
    assert_eq!(repo.get_user_by_email("dup@example.com").unwrap().unwrap().id, 1);
}

#[test]
fn email_is_case_sensitive() {
    let mut repo = UserRepository::new();
    assert_eq!(repo.create_user(&user(1, "Case@example.com")), Ok(()));
    assert_eq!(repo.create_user(&user(2, "case@example.com")), Ok(()));
    assert_eq!(repo.get_user_by_email("case@example.com").unwrap().unwrap().id, 2);
}

#[test]
fn update_indexes_tokens_and_keeps_stale_entries() {
    let mut repo = UserRepository::new();
    let mut u = user(7, "c@example.com");
    repo.create_user(&u).unwrap();
    u.password_reset_token = Some("rt".to_string());
    repo.update_user(&u).unwrap();
    assert_eq!(repo.get_user_by_reset_token("rt").unwrap().unwrap().id, 7);
    u.password_reset_token = None;
    u.failed_login_attempts = 3;
    repo.update_user(&u).unwrap();
    let stale = repo.get_user_by_reset_token("rt").unwrap().unwrap();
    assert_eq!(stale.password_reset_token, None);
    assert_eq!(stale.failed_login_attempts, 3);
}

#[test]
fn lockout_rule() {
    let mut u = user(1, "l@example.com");
    u.failed_login_attempts = 5;
    // Never logged in successfully: nothing unlocks it.
    assert!(u.is_locked_at(2_000_000_000));
    u.last_login = Some(1_000);
    assert!(u.is_locked_at(4_599));
    assert!(!u.is_locked_at(4_600));
    u.failed_login_attempts = 4;
    assert!(!u.is_locked_at(1_001));
}

#[test]
fn new_user_is_pending_and_fresh() {
    let a = User::new("n@example.com".to_string(), "h".to_string());
    let b = User::new("n@example.com".to_string(), "h".to_string());
    assert_ne!(a.id, b.id);
    assert_eq!(a.status, UserStatus::PendingVerification);
    assert_eq!(a.failed_login_attempts, 0);
    assert_eq!(a.created_at, a.updated_at);
    assert!(a.created_at > 1_600_000_000);
    assert!(!a.is_locked());
}

#[test]
fn recent_lockout_holds_now() {
    let mut u = User::new("n@example.com".to_string(), "h".to_string());
    u.failed_login_attempts = 5;
    u.last_login = Some(u.created_at);
    assert!(u.is_locked());
}
