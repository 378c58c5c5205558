use selfie_auth::api::{DeliveryKind, EnableTotpRequest, LoginRequest, RegisterRequest};
use selfie_auth::error::AuthError;
use selfie_auth::hasher::{hash_passphrase, verify_passphrase};
use selfie_auth::model::{User, UserStatus};
use selfie_auth::repository::UserRepository;
use selfie_auth::service::AuthService;
use selfie_auth::token::JwtService;
use selfie_auth::totp::TotpService;

const NOW: i64 = 1_700_000_000;
const STRONG: &str = "Tr0ub4dor&3-quantum-velvet-Harbor-92!";
const STRONG2: &str = "Gl4cier-mango-Nebula-syntax-77#window";
const EMAIL: &str = "ann@example.com";

fn service() -> AuthService {
    AuthService::new(UserRepository::new(), JwtService::from_seed([5u8; 32]))
}

fn register(s: &mut AuthService) -> User {
    s.register(RegisterRequest { email: EMAIL.to_string(), passphrase: STRONG.to_string() }, NOW).unwrap()
}

fn login(s: &mut AuthService, pass: &str, code: Option<&str>, now: i64) -> Result<selfie_auth::api::AuthResponse, AuthError> {
    s.login(
        LoginRequest { email: EMAIL.to_string(), passphrase: pass.to_string(), totp_code: code.map(|c| c.to_string()) },
        now,
    )
}

fn stored(s: &AuthService) -> User {
    s.repository().get_user_by_email(EMAIL).unwrap().unwrap()
}

/// An account stored directly, with a known hash and the given counters.
fn service_with(failed: u32, last_login: Option<i64>) -> AuthService {
    let mut repo = UserRepository::new();
    let mut u = User::new_at(EMAIL.to_string(), hash_passphrase(STRONG).unwrap(), 9, NOW);
    u.failed_login_attempts = failed;
    u.last_login = last_login;
    repo.create_user(&u).unwrap();
    AuthService::new(repo, JwtService::from_seed([5u8; 32]))
}

#[test]
fn register_then_login_yields_tokens_of_the_user() {
    let mut s = service();
    let u = register(&mut s);
    assert_eq!(u.status, UserStatus::PendingVerification);
    assert!(!u.email_verified);
    assert_eq!(verify_passphrase(STRONG, &u.passphrase_hash), Ok(true));
    let resp = login(&mut s, STRONG, None, NOW + 5).unwrap();
    assert_eq!(resp.token_type, "Bearer");
    assert_eq!(resp.expires_in, 900);
    assert_eq!(s.jwt_service().verify_token(&resp.access_token, "access", NOW + 5), Ok(u.id));
    assert_eq!(s.jwt_service().verify_token(&resp.refresh_token, "refresh", NOW + 5), Ok(u.id));
    let after = stored(&s);
    assert_eq!(after.last_login, Some(NOW + 5));
    assert_eq!(after.failed_login_attempts, 0);
}

#[test]
fn register_refuses_weak_passphrase() {
    let mut s = service();
    let r = s.register(RegisterRequest { email: EMAIL.to_string(), passphrase: "password123".to_string() }, NOW);
    assert!(matches!(r, Err(AuthError::WeakPassphrase(_))));
    assert!(s.repository().get_user_by_email(EMAIL).unwrap().is_none());
}

#[test]
fn register_refuses_duplicate_email_without_partial_state() {
    let mut s = service();
    let first = register(&mut s);
    let r = s.register(RegisterRequest { email: EMAIL.to_string(), passphrase: STRONG2.to_string() }, NOW);
    assert_eq!(r.unwrap_err(), AuthError::UserExists);
    let kept = stored(&s);
    assert_eq!(kept.id, first.id);
    assert_eq!(verify_passphrase(STRONG, &kept.passphrase_hash), Ok(true));
}

#[test]
fn unknown_email_is_invalid_credentials() {
    let mut s = service();
    assert_eq!(login(&mut s, STRONG, None, NOW).unwrap_err(), AuthError::InvalidCredentials);
}

#[test]
fn wrong_passphrase_counts_a_failed_attempt() {
    let mut s = service_with(2, None);
    assert_eq!(login(&mut s, STRONG2, None, NOW).unwrap_err(), AuthError::InvalidCredentials);
    let u = stored(&s);
    assert_eq!(u.failed_login_attempts, 3);
    assert_eq!(u.updated_at, NOW);
}

#[test]
fn fifth_failure_locks_even_the_right_passphrase() {
    let mut s = service_with(4, Some(NOW - 10));
    assert_eq!(login(&mut s, STRONG2, None, NOW).unwrap_err(), AuthError::InvalidCredentials);
    assert_eq!(stored(&s).failed_login_attempts, 5);
    assert_eq!(login(&mut s, STRONG, None, NOW + 1).unwrap_err(), AuthError::RateLimitExceeded);
    // The window is anchored to the last successful login.
    assert!(login(&mut s, STRONG, None, NOW - 10 + 3600).is_ok());
}

#[test]
fn five_consecutive_failures_then_locked() {
    let mut s = service_with(0, None);
    login(&mut s, STRONG, None, NOW).unwrap();
    for i in 1..=5u32 {
        assert_eq!(login(&mut s, STRONG2, None, NOW + i as i64).unwrap_err(), AuthError::InvalidCredentials);
        assert_eq!(stored(&s).failed_login_attempts, i);
    }
    assert_eq!(login(&mut s, STRONG, None, NOW + 6).unwrap_err(), AuthError::RateLimitExceeded);
}

#[test]
fn never_logged_in_account_stays_locked() {
    let mut s = service_with(7, None);
    assert_eq!(login(&mut s, STRONG, None, NOW).unwrap_err(), AuthError::RateLimitExceeded);
    assert_eq!(login(&mut s, STRONG, None, NOW + 1_000_000).unwrap_err(), AuthError::RateLimitExceeded);
    assert_eq!(stored(&s).failed_login_attempts, 7);
}

#[test]
fn five_failures_after_registration_lock() {
    let mut s = service();
    register(&mut s);
    for i in 1..=5u32 {
        assert_eq!(login(&mut s, STRONG2, None, NOW + i as i64).unwrap_err(), AuthError::InvalidCredentials);
    }
    assert_eq!(login(&mut s, STRONG, None, NOW + 6).unwrap_err(), AuthError::RateLimitExceeded);
}

#[test]
fn totp_setup_refused_for_label_with_colon() {
    let mut repo = UserRepository::new();
    let u = User::new_at("a:b@example.com".to_string(), "h".to_string(), 3, NOW);
    repo.create_user(&u).unwrap();
    let mut s = AuthService::new(repo, JwtService::from_seed([5u8; 32]));
    assert_eq!(s.setup_totp(3, NOW).unwrap_err(), AuthError::InternalError);
    assert_eq!(s.repository().get_user_by_id(3).unwrap().unwrap().totp_secret, None);
}

#[test]
fn refresh_issues_a_new_pair() {
    let mut s = service_with(0, None);
    let resp = login(&mut s, STRONG, None, NOW).unwrap();
    let again = s.refresh_token(&resp.refresh_token, NOW + 100).unwrap();
    assert_eq!(s.jwt_service().verify_token(&again.access_token, "access", NOW + 100), Ok(9));
    assert_eq!(s.refresh_token(&resp.access_token, NOW + 100).unwrap_err(), AuthError::InvalidToken);
    assert_eq!(s.refresh_token(&resp.refresh_token, NOW + 2_592_001).unwrap_err(), AuthError::InvalidToken);
}

#[test]
fn totp_enrollment_and_two_factor_login() {
    let mut s = service_with(0, None);
    assert_eq!(s.enable_totp(9, EnableTotpRequest { verification_code: "000000".to_string() }, NOW), Err(AuthError::AuthenticationError));
    let setup = s.setup_totp(9, NOW).unwrap();
    assert!(setup.qr_code_url.starts_with("otpauth://totp/Selfie:"));
    assert_eq!(stored(&s).totp_secret, Some(setup.secret.clone()));
    assert!(!stored(&s).totp_enabled);
    assert_eq!(s.setup_totp(9, NOW).unwrap_err(), AuthError::InternalError);
    let t = TotpService::new();
    let code = t.code_at(&setup.secret, NOW).unwrap();
    let far = t.code_at(&setup.secret, NOW + 120).unwrap();
    if far != code && far != t.code_at(&setup.secret, NOW + 30).unwrap() && far != t.code_at(&setup.secret, NOW - 30).unwrap() {
        assert_eq!(s.enable_totp(9, EnableTotpRequest { verification_code: far.clone() }, NOW), Err(AuthError::InvalidCredentials));
    }
    assert_eq!(s.enable_totp(9, EnableTotpRequest { verification_code: code.clone() }, NOW), Ok(()));
    assert!(stored(&s).totp_enabled);
    assert_eq!(login(&mut s, STRONG, None, NOW).unwrap_err(), AuthError::AuthenticationError);
    assert!(login(&mut s, STRONG, Some(&code), NOW).is_ok());
    assert_eq!(s.disable_totp(9, &code, NOW), Ok(()));
    let u = stored(&s);
    assert!(!u.totp_enabled);
    assert_eq!(u.totp_secret, None);
    assert_eq!(s.disable_totp(9, &code, NOW), Err(AuthError::TotpNotEnabled));
    assert_eq!(s.setup_totp(10, NOW).unwrap_err(), AuthError::UserNotFound);
}

#[test]
fn email_verification_flow() {
    let mut s = service();
    let u = register(&mut s);
    let d = s.send_verification_email(&u).unwrap();
    assert_eq!(d.to, EMAIL);
    assert_eq!(d.kind, DeliveryKind::Verification);
    assert_eq!(d.token.len(), 88);
    assert_eq!(s.verify_email("bogus", NOW), Err(AuthError::InvalidToken));
    assert_eq!(s.verify_email(&d.token, NOW + 1), Ok(()));
    let v = stored(&s);
    assert!(v.email_verified);
    assert_eq!(v.status, UserStatus::Active);
    assert_eq!(v.email_verification_token, None);
    assert_eq!(v.updated_at, NOW + 1);
    assert_eq!(s.verify_email(&d.token, NOW + 2), Ok(()));
    assert_eq!(stored(&s).updated_at, NOW + 1);
}

#[test]
fn password_reset_requires_verified_email() {
    let mut s = service_with(0, None);
    assert_eq!(s.initiate_password_reset(EMAIL, NOW).unwrap_err(), AuthError::AuthenticationError);
    assert_eq!(s.initiate_password_reset("nobody@example.com", NOW).unwrap_err(), AuthError::UserNotFound);
}

fn verified_service() -> AuthService {
    let mut s = service_with(0, None);
    let u = stored(&s);
    let d = s.send_verification_email(&u).unwrap();
    s.verify_email(&d.token, NOW).unwrap();
    s
}

#[test]
fn password_reset_expired_and_unknown_tokens() {
    let mut s = verified_service();
    let d = s.initiate_password_reset(EMAIL, NOW).unwrap();
    assert_eq!(d.kind, DeliveryKind::Reset);
    assert_eq!(stored(&s).password_reset_expires, Some(NOW + 3600));
    assert_eq!(s.reset_password(&d.token, STRONG2, NOW + 3601), Err(AuthError::TokenExpired));
    assert_eq!(s.reset_password("unknown", STRONG2, NOW), Err(AuthError::InvalidToken));
    let weak = s.reset_password(&d.token, "password", NOW + 10);
    assert!(matches!(weak, Err(AuthError::WeakPassphrase(_))));
}

#[test]
fn password_reset_completes_once() {
    let mut s = verified_service();
    let d = s.initiate_password_reset(EMAIL, NOW).unwrap();
    assert_eq!(s.reset_password(&d.token, STRONG2, NOW + 3600), Ok(()));
    let u = stored(&s);
    assert_eq!(u.password_reset_token, None);
    assert_eq!(u.password_reset_expires, None);
    assert_eq!(verify_passphrase(STRONG2, &u.passphrase_hash), Ok(true));
    assert_eq!(s.reset_password(&d.token, STRONG, NOW + 3601), Err(AuthError::InvalidToken));
    assert!(login(&mut s, STRONG2, None, NOW + 3602).is_ok());
}
