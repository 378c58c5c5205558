use selfie_auth::error::AuthError;
use selfie_auth::token::{check_claims, Claims, JwtService, ACCESS_TOKEN_DURATION, REFRESH_TOKEN_DURATION};

const NOW: i64 = 1_700_000_000;
const ID: u128 = 0x67e55044_10b1_426f_9247_bb680e5fe0c8;

fn service() -> JwtService {
    JwtService::from_seed([9u8; 32])
}

fn claims(exp: i64, kind: &str) -> Claims {
    Claims {
        sub: "67e55044-10b1-426f-9247-bb680e5fe0c8".to_string(),
        exp,
        iat: NOW,
        jti: "j".to_string(),
        token_type: kind.to_string(),
    }
}

#[test]
fn access_token_verifies_to_its_subject() {
    let s = service();
    let t = s.generate_access_token(ID, NOW).unwrap();
    assert_eq!(t.split('.').count(), 3);
    assert_eq!(s.verify_token(&t, "access", NOW), Ok(ID));
    assert_eq!(s.verify_token(&t, "access", NOW + ACCESS_TOKEN_DURATION), Ok(ID));
}

#[test]
fn refresh_token_is_not_an_access_token() {
    let s = service();
    let t = s.generate_refresh_token(ID, NOW).unwrap();
    assert_eq!(s.verify_token(&t, "refresh", NOW), Ok(ID));
    assert_eq!(s.verify_token(&t, "access", NOW), Err(AuthError::InvalidToken));
}

#[test]
fn expired_token_is_refused() {
    let s = service();
    let t = s.generate_access_token(ID, NOW).unwrap();
    assert_eq!(s.verify_token(&t, "access", NOW + ACCESS_TOKEN_DURATION + 1), Err(AuthError::InvalidToken));
    let r = s.generate_refresh_token(ID, NOW).unwrap();
    assert_eq!(s.verify_token(&r, "refresh", NOW + REFRESH_TOKEN_DURATION + 1), Err(AuthError::InvalidToken));
}

#[test]
fn token_of_another_key_is_refused() {
    let t = JwtService::from_seed([1u8; 32]).generate_access_token(ID, NOW).unwrap();
    assert_eq!(service().verify_token(&t, "access", NOW), Err(AuthError::InvalidToken));
    assert_eq!(service().verify_token("not.a.token", "access", NOW), Err(AuthError::InvalidToken));
}

#[test]
fn claims_check_rules() {
    assert_eq!(check_claims(&claims(NOW, "access"), "access", NOW), Ok(ID));
    assert_eq!(check_claims(&claims(NOW - 1, "access"), "access", NOW), Err(AuthError::InvalidToken));
    assert_eq!(check_claims(&claims(NOW, "refresh"), "access", NOW), Err(AuthError::InvalidToken));
    let mut bad = claims(NOW, "access");
    bad.sub = "nobody".to_string();
    assert_eq!(check_claims(&bad, "access", NOW), Err(AuthError::InvalidToken));
}

#[test]
fn signatures_verify_and_are_deterministic() {
    let s = service();
    let sig = s.sign_data(b"payload");
    assert_eq!(sig.len(), 64);
    assert_eq!(sig, s.sign_data(b"payload"));
    assert!(s.verify_signature(b"payload", &sig));
    assert!(!s.verify_signature(b"payloae", &sig));
    assert!(!s.verify_signature(b"payload", &sig[..63]));
}

#[test]
fn fresh_service_issues_tokens() {
    let s = JwtService::new().unwrap();
    let t = s.generate_access_token(ID, NOW).unwrap();
    assert_eq!(s.verify_token(&t, "access", NOW), Ok(ID));
}

#[test]
fn identifier_text_is_hyphenated_lowercase() {
    assert_eq!(selfie_auth::ambient::identifier_text(ID), "67e55044-10b1-426f-9247-bb680e5fe0c8");
    assert_eq!(selfie_auth::ambient::identifier_text(1), "00000000-0000-0000-0000-000000000001");
    assert_eq!(selfie_auth::ambient::parse_identifier("67e55044-10b1-426f-9247-bb680e5fe0c8"), Some(ID));
}
