use selfie_auth::error::AuthError;
use selfie_auth::guard::{
    auth_middleware, bearer_token, get_auth_token, is_exempt, refresh_token_middleware, AuthMiddleware,
    AuthMiddlewareLayer, GuardDecision, GatewayError, LoggingMiddlewareLayer,
};
use selfie_auth::token::JwtService;

const NOW: i64 = 1_700_000_000;

#[test]
fn exempt_routes() {
    assert!(is_exempt("/health"));
    assert!(is_exempt("/selfie.auth.v1.AuthService/auth/login"));
    assert!(is_exempt("/auth/register"));
    assert!(!is_exempt("/auth/refresh"));
    assert!(!is_exempt("/posts"));
    assert!(!is_exempt(""));
}

#[test]
fn bearer_extraction() {
    assert_eq!(bearer_token("Bearer abc"), Some("abc".to_string()));
    assert_eq!(bearer_token("Bearer "), Some("".to_string()));
    assert_eq!(bearer_token("bearer abc"), None);
    assert_eq!(bearer_token("Bearerabc"), None);
    assert_eq!(bearer_token("Basic abc"), None);
}

#[test]
fn guard_decisions() {
    let s = JwtService::from_seed([3u8; 32]);
    let access = format!("Bearer {}", s.generate_access_token(77, NOW).unwrap());
    let refresh = format!("Bearer {}", s.generate_refresh_token(77, NOW).unwrap());
    let m = AuthMiddlewareLayer.layer(5u8);
    assert_eq!(m.inner, 5);
    assert_eq!(m.decide(&s, "/health", None, NOW), GuardDecision::Bypass);
    assert_eq!(m.decide(&s, "/posts", Some(&access), NOW), GuardDecision::Forward);
    assert_eq!(m.decide(&s, "/posts", Some(&access), NOW + 901), GuardDecision::Reject);
    assert_eq!(m.decide(&s, "/posts", Some(&refresh), NOW), GuardDecision::Reject);
    assert_eq!(m.decide(&s, "/posts", Some("Bearer t"), NOW), GuardDecision::Reject);
    assert_eq!(m.decide(&s, "/posts", Some("Token t"), NOW), GuardDecision::Reject);
    assert_eq!(m.decide(&s, "/posts", None, NOW), GuardDecision::Reject);
    assert_eq!(AuthMiddleware::new(()).decide(&s, "/auth/login", Some("x"), NOW), GuardDecision::Bypass);
    assert_eq!(LoggingMiddlewareLayer.layer(3u8).inner, 3);
}

#[test]
fn forwarded_token_extraction() {
    assert_eq!(get_auth_token(Some("Bearer t")).unwrap(), "t");
    assert!(matches!(get_auth_token(None), Err(GatewayError::AuthenticationFailed(_))));
    assert!(matches!(get_auth_token(Some("t")), Err(GatewayError::AuthenticationFailed(_))));
}

#[test]
fn middleware_resolves_access_tokens_only() {
    let s = JwtService::from_seed([3u8; 32]);
    let access = s.generate_access_token(77, NOW).unwrap();
    let refresh = s.generate_refresh_token(77, NOW).unwrap();
    let header = format!("Bearer {}", access);
    assert_eq!(auth_middleware(&s, Some(&header), NOW).unwrap().user_id, 77);
    assert_eq!(auth_middleware(&s, None, NOW).unwrap_err(), AuthError::AuthenticationError);
    assert_eq!(auth_middleware(&s, Some(&access), NOW).unwrap_err(), AuthError::AuthenticationError);
    let rheader = format!("Bearer {}", refresh);
    assert_eq!(auth_middleware(&s, Some(&rheader), NOW).unwrap_err(), AuthError::InvalidToken);
    assert_eq!(refresh_token_middleware(&s, Some(&rheader), NOW), Ok(()));
    assert_eq!(refresh_token_middleware(&s, Some(&header), NOW), Err(AuthError::InvalidToken));
}
