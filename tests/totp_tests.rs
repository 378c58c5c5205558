use selfie_auth::error::AuthError;
use selfie_auth::totp::TotpService;

// Twenty bytes "12345678901234567890" in base32: the RFC 6238 SHA-1 secret.
const RFC_SECRET: &str = "GEZDGNBVGY3TQOJQGEZDGNBVGY3TQOJQ";

#[test]
fn rfc_reference_code() {
    let t = TotpService::new();
    // RFC 6238 gives 94287082 (eight digits) at 59 s; six digits keep the last six.
    assert_eq!(t.code_at(RFC_SECRET, 59).unwrap(), "287082");
    assert_eq!(t.code_at(RFC_SECRET, 1111111109).unwrap(), "081804");
}

#[test]
fn current_and_neighbouring_steps_verify() {
    let t = TotpService::new();
    let now: i64 = 1_111_111_109;
    let code = t.code_at(RFC_SECRET, now).unwrap();
    assert_eq!(t.verify_code_at(RFC_SECRET, &code, now), Ok(true));
    assert_eq!(t.verify_code_at(RFC_SECRET, &code, now + 30), Ok(true));
    assert_eq!(t.verify_code_at(RFC_SECRET, &code, now - 30), Ok(true));
}

#[test]
fn codes_two_steps_away_fail() {
    let t = TotpService::new();
    let now: i64 = 1_111_111_109;
    for d in [-90i64, -60, 60, 90] {
        let code = t.code_at(RFC_SECRET, now + d).unwrap();
        let window: Vec<String> = [-30i64, 0, 30].iter().map(|e| t.code_at(RFC_SECRET, now + e).unwrap()).collect();
        assert!(!window.contains(&code));
        assert_eq!(t.verify_code_at(RFC_SECRET, &code, now), Ok(false));
    }
}

#[test]
fn no_code_before_the_epoch() {
    let t = TotpService::new();
    let code = t.code_at(RFC_SECRET, 0).unwrap();
    assert_eq!(t.verify_code_at(RFC_SECRET, &code, -1), Ok(false));
    assert_eq!(t.verify_code_at(RFC_SECRET, &code, 0), Ok(true));
    assert_eq!(t.code_at(RFC_SECRET, -1), Err(AuthError::InternalError));
}

#[test]
fn bad_secrets_are_internal_errors() {
    let t = TotpService::new();
    assert_eq!(t.verify_code_at("not base32!", "123456", 100), Err(AuthError::InternalError));
    // Ten bytes: shorter than 128 bits.
    assert_eq!(t.verify_code_at("GEZDGNBVGY3TQOJQ", "123456", 100), Err(AuthError::InternalError));
}

#[test]
fn generated_secret_is_32_bytes_of_base32() {
    let t = TotpService::new();
    let s = t.generate_secret().unwrap();
    assert_eq!(s.len(), 56);
    assert!(s.ends_with("===="));
    assert_ne!(s, t.generate_secret().unwrap());
    let code = t.code_at(&s, 1_700_000_000).unwrap();
    assert_eq!(code.len(), 6);
    assert_eq!(t.verify_code_at(&s, &code, 1_700_000_000), Ok(true));
    assert!(t.verify_code(&s, "abcdef").is_ok());
}

#[test]
fn provisioning_uri_names_issuer_account_and_secret() {
    let t = TotpService::new();
    let uri = t.generate_provisioning_uri(RFC_SECRET, "ann@example.com").unwrap();
    assert!(uri.starts_with("otpauth://totp/Selfie:ann%40example.com?"));
    assert!(uri.contains("secret=GEZDGNBVGY3TQOJQGEZDGNBVGY3TQOJQ"));
    assert!(uri.contains("issuer=Selfie"));
    assert_eq!(t.generate_provisioning_uri("GEZDGNBVGY3TQOJQ", "a"), Err(AuthError::InternalError));
}
