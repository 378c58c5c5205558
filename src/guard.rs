use vstd::prelude::*;
use vstd::string::*;
use crate::error::AuthError;
use crate::token::{access_tag, refresh_tag, token_outcome, JwtService};

verus! {

/// Failures of the request gateway, each with a caller-facing message.
#[derive(Debug)]
pub enum GatewayError {
    Internal(String),
    ServiceUnavailable(String),
    InvalidRequest(String),
    AuthenticationFailed(String),
}

/// `t` occurs in `s` as a contiguous run.
pub open spec fn occurs_in(s: Seq<char>, t: Seq<char>) -> bool {
    exists|i: int| 0 <= i && i + t.len() <= s.len() && #[trigger] s.subrange(i, i + t.len()) == t
}

/// The scheme prefix of a bearer credential: `Bearer ` with one space.
pub open spec fn bearer_prefix() -> Seq<char> {
    seq!['B', 'e', 'a', 'r', 'e', 'r', ' ']
}

/// The token of a bearer credential, if the header carries one.
pub open spec fn bearer_of(header: Seq<char>) -> Option<Seq<char>> {
    if bearer_prefix().len() <= header.len() && header.take(bearer_prefix().len() as int) == bearer_prefix() {
        Some(header.skip(bearer_prefix().len() as int))
    } else {
        None
    }
}

/// `/health`
pub open spec fn health_route() -> Seq<char> {
    seq!['/', 'h', 'e', 'a', 'l', 't', 'h']
}

/// `/auth/login`
pub open spec fn login_route() -> Seq<char> {
    seq!['/', 'a', 'u', 't', 'h', '/', 'l', 'o', 'g', 'i', 'n']
}

/// `/auth/register`
pub open spec fn register_route() -> Seq<char> {
    seq!['/', 'a', 'u', 't', 'h', '/', 'r', 'e', 'g', 'i', 's', 't', 'e', 'r']
}

/// Routes that bypass the guard: health checks, login and registration.
pub open spec fn exempt_route(path: Seq<char>) -> bool {
    occurs_in(path, health_route()) || occurs_in(path, login_route()) || occurs_in(path, register_route())
}

/// Relies on str::contains with a string pattern: whether `pattern` occurs
/// in `s`.
#[verifier::external_body]
fn str_contains(s: &str, pattern: &str) -> (r: bool)
    ensures
        r == occurs_in(s@, pattern@),
{
    s.contains(pattern)
}

/// Relies on str::strip_prefix with a string pattern: the rest of `s` when it
/// starts with `prefix`.
#[verifier::external_body]
fn str_strip_prefix(s: &str, prefix: &str) -> (r: Option<String>)
    ensures
        r matches Some(t) ==> prefix@.len() <= s@.len() && s@.take(prefix@.len() as int) == prefix@
            && t@ == s@.skip(prefix@.len() as int),
        r is None ==> !(prefix@.len() <= s@.len() && s@.take(prefix@.len() as int) == prefix@),
{
    s.strip_prefix(prefix).map(|t| t.to_string())
}

/// Whether `path` bypasses the guard.
pub fn is_exempt(path: &str) -> (r: bool)
    ensures
        r == exempt_route(path@),
{
    let health = String::from_str("/health");
    let login = String::from_str("/auth/login");
    let register = String::from_str("/auth/register");
    proof {
        reveal_strlit("/health");
        reveal_strlit("/auth/login");
        reveal_strlit("/auth/register");
        assert(health@ =~= health_route());
        assert(login@ =~= login_route());
        assert(register@ =~= register_route());
    }
    str_contains(path, health.as_str()) || str_contains(path, login.as_str()) || str_contains(
        path,
        register.as_str(),
    )
}

/// The token of a bearer credential.
pub fn bearer_token(header: &str) -> (r: Option<String>)
    ensures
        r matches Some(t) ==> bearer_of(header@) == Some(t@),
        r is None ==> bearer_of(header@) is None,
{
    let prefix = String::from_str("Bearer ");
    proof {
        reveal_strlit("Bearer ");
        assert(prefix@ =~= bearer_prefix());
    }
    str_strip_prefix(header, prefix.as_str())
}

/// What the guard yields for an optional authorization header.
pub open spec fn guard_outcome(public_key: Seq<u8>, header: Option<Seq<char>>, kind: Seq<char>, now: i64) -> Result<u128, AuthError> {
    match header {
        None => Err(AuthError::AuthenticationError),
        Some(h) => match bearer_of(h) {
            None => Err(AuthError::AuthenticationError),
            Some(t) => token_outcome(public_key, t, kind, now),
        },
    }
}

/// The identity attached to a call that passed the guard.
#[derive(Debug, Clone, Copy)]
pub struct AuthContext {
    pub user_id: u128,
}

fn guard(jwt_service: &JwtService, authorization: Option<&str>, kind: &str, now: i64) -> (r: Result<u128, AuthError>)
    requires
        jwt_service.wf(),
    ensures
        r == guard_outcome(
            jwt_service.public_key(),
            match authorization {
                Some(h) => Some(h@),
                None => None,
            },
            kind@,
            now,
        ),
{
    let header = match authorization {
        None => return Err(AuthError::AuthenticationError),
        Some(h) => h,
    };
    match bearer_token(header) {
        None => Err(AuthError::AuthenticationError),
        Some(token) => jwt_service.verify_token(token.as_str(), kind, now),
    }
}

/// Resolves the caller of a protected operation from its authorization
/// header: a bearer access token that is valid at `now`.
pub fn auth_middleware(jwt_service: &JwtService, authorization: Option<&str>, now: i64) -> (r: Result<AuthContext, AuthError>)
    requires
        jwt_service.wf(),
    ensures
        guard_outcome(jwt_service.public_key(), match authorization {
            Some(h) => Some(h@),
            None => None,
        }, access_tag(), now) matches Ok(id) ==> r matches Ok(c) && c.user_id == id,
        guard_outcome(jwt_service.public_key(), match authorization {
            Some(h) => Some(h@),
            None => None,
        }, access_tag(), now) matches Err(e) ==> r == Err::<AuthContext, AuthError>(e),
{
    let kind = String::from_str("access");
    proof {
        reveal_strlit("access");
        assert(kind@ =~= access_tag());
    }
    match guard(jwt_service, authorization, kind.as_str(), now) {
        Ok(user_id) => Ok(AuthContext { user_id }),
        Err(e) => Err(e),
    }
}

/// Admits a call that carries a bearer refresh token valid at `now`.
pub fn refresh_token_middleware(jwt_service: &JwtService, authorization: Option<&str>, now: i64) -> (r: Result<(), AuthError>)
    requires
        jwt_service.wf(),
    ensures
        guard_outcome(jwt_service.public_key(), match authorization {
            Some(h) => Some(h@),
            None => None,
        }, refresh_tag(), now) matches Ok(_) ==> r is Ok,
        guard_outcome(jwt_service.public_key(), match authorization {
            Some(h) => Some(h@),
            None => None,
        }, refresh_tag(), now) matches Err(e) ==> r == Err::<(), AuthError>(e),
{
    let kind = String::from_str("refresh");
    proof {
        reveal_strlit("refresh");
        assert(kind@ =~= refresh_tag());
    }
    match guard(jwt_service, authorization, kind.as_str(), now) {
        Ok(_) => Ok(()),
        Err(e) => Err(e),
    }
}

/// The bearer token of a forwarded call's authorization header.
pub fn get_auth_token(authorization: Option<&str>) -> (r: Result<String, GatewayError>)
    ensures
        r matches Ok(t) ==> authorization matches Some(h) && bearer_of(h@) == Some(t@),
        r is Err ==> (authorization matches Some(h) ==> bearer_of(h@) is None),
        r matches Err(e) ==> e is AuthenticationFailed,
{
    match authorization {
        None => Err(GatewayError::AuthenticationFailed(String::from_str("Missing authorization header"))),
        Some(h) => match bearer_token(h) {
            Some(t) => Ok(t),
            None => Err(GatewayError::AuthenticationFailed(String::from_str("Invalid authorization format"))),
        },
    }
}

/// What the gateway does with an inbound call.
#[derive(Debug, Clone, Copy, PartialEq, Eq, Structural)]
pub enum GuardDecision {
    /// The route is exempt: forward without a credential.
    Bypass,
    /// A bearer access token that verifies is present: forward.
    Forward,
    /// A protected route without a valid bearer access token: refuse as
    /// unauthenticated.
    Reject,
}

/// The gateway's rule for a call to `path` with an optional authorization
/// header at `now`: exempt routes pass; other calls pass only with a bearer
/// token that verifies as an access token.
pub open spec fn guard_decision(public_key: Seq<u8>, path: Seq<char>, header: Option<Seq<char>>, now: i64) -> GuardDecision {
    if exempt_route(path) {
        GuardDecision::Bypass
    } else if guard_outcome(public_key, header, access_tag(), now) is Ok {
        GuardDecision::Forward
    } else {
        GuardDecision::Reject
    }
}

/// Gateway middleware that refuses calls without a valid bearer access
/// token, but on exempt routes.
#[derive(Debug)]
pub struct AuthMiddleware<S> {
    pub inner: S,
}

impl<S> AuthMiddleware<S> {
    pub fn new(inner: S) -> (r: AuthMiddleware<S>)
        ensures
            r.inner == inner,
    {
        AuthMiddleware { inner }
    }

    /// Decides what to do with a call to `path` at `now`, checking its
    /// bearer token with `jwt_service`.
    pub fn decide(&self, jwt_service: &JwtService, path: &str, authorization: Option<&str>, now: i64) -> (r: GuardDecision)
        requires
            jwt_service.wf(),
        ensures
            r == guard_decision(jwt_service.public_key(), path@, match authorization {
                Some(h) => Some(h@),
                None => None,
            }, now),
    {
        if is_exempt(path) {
            return GuardDecision::Bypass;
        }
        let kind = String::from_str("access");
        proof {
            reveal_strlit("access");
            assert(kind@ =~= access_tag());
        }
        match guard(jwt_service, authorization, kind.as_str(), now) {
            Ok(_) => GuardDecision::Forward,
            Err(_) => GuardDecision::Reject,
        }
    }
}

/// Wraps services in `AuthMiddleware`.
#[derive(Debug, Clone, Copy)]
pub struct AuthMiddlewareLayer;

impl AuthMiddlewareLayer {
    pub fn layer<S>(&self, service: S) -> (r: AuthMiddleware<S>)
        ensures
            r.inner == service,
    {
        AuthMiddleware::new(service)
    }
}

/// Gateway middleware that times and logs each call around its service.
#[derive(Debug)]
pub struct LoggingMiddleware<S> {
    pub inner: S,
}

impl<S> LoggingMiddleware<S> {
    pub fn new(inner: S) -> (r: LoggingMiddleware<S>)
        ensures
            r.inner == inner,
    {
        LoggingMiddleware { inner }
    }
}

/// Wraps services in `LoggingMiddleware`.
#[derive(Debug, Clone, Copy)]
pub struct LoggingMiddlewareLayer;

impl LoggingMiddlewareLayer {
    pub fn layer<S>(&self, service: S) -> (r: LoggingMiddleware<S>)
        ensures
            r.inner == service,
    {
        LoggingMiddleware::new(service)
    }
}

} // verus!
