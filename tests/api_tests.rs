use selfie_auth::api::{ConfirmResetRequest, EnableTotpRequest, LoginRequest, RegisterRequest, ResetPasswordRequest};
use selfie_auth::error::AuthError;

#[test]
fn registration_needs_email_and_twelve_characters() {
    let ok = RegisterRequest { email: "ann@example.com".to_string(), passphrase: "twelve chars".to_string() };
    assert_eq!(ok.validate(), Ok(()));
    let short = RegisterRequest { email: "ann@example.com".to_string(), passphrase: "elevenchars".to_string() };
    assert_eq!(short.validate(), Err(AuthError::InvalidCredentials));
    let bad = RegisterRequest { email: "not-an-email".to_string(), passphrase: "twelve chars".to_string() };
    assert_eq!(bad.validate(), Err(AuthError::InvalidCredentials));
    // Characters, not bytes, are counted.
    let wide = RegisterRequest { email: "ann@example.com".to_string(), passphrase: "ééééééééééé".to_string() };
    assert_eq!(wide.validate(), Err(AuthError::InvalidCredentials));
}

#[test]
fn other_requests_validate() {
    assert_eq!(LoginRequest { email: "".to_string(), passphrase: "x".to_string(), totp_code: None }.validate(), Err(AuthError::InvalidCredentials));
    assert_eq!(LoginRequest { email: "a@b.co".to_string(), passphrase: "x".to_string(), totp_code: None }.validate(), Ok(()));
    assert_eq!(EnableTotpRequest { verification_code: "123456".to_string() }.validate(), Ok(()));
    assert_eq!(EnableTotpRequest { verification_code: "12345".to_string() }.validate(), Err(AuthError::InvalidCredentials));
    assert_eq!(ResetPasswordRequest { email: "a@b.co".to_string() }.validate(), Ok(()));
    assert_eq!(ConfirmResetRequest { token: "t".to_string(), new_passphrase: "short".to_string() }.validate(), Err(AuthError::InvalidCredentials));
}

#[test]
fn error_messages() {
    assert_eq!(AuthError::WeakPassphrase("why".to_string()).message(), "why");
    assert_eq!(AuthError::RateLimitExceeded.message(), "Rate limit exceeded");
}
