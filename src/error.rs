use vstd::prelude::*;
use vstd::string::*;

verus! {

/// Caller-facing failure kinds of the identity core.
#[derive(Debug, PartialEq, Eq)]
pub enum AuthError {
    AuthenticationError,
    InvalidCredentials,
    TokenExpired,
    InvalidToken,
    UserNotFound,
    UserExists,
    InternalError,
    WeakPassphrase(String),
    RateLimitExceeded,
    TotpAlreadyEnabled,
    TotpNotEnabled,
    InvalidTotpCode,
}

/// A text result seen through the view of its text.
pub open spec fn text_result(r: Result<String, AuthError>) -> Result<Seq<char>, AuthError> {
    match r {
        Ok(s) => Ok(s@),
        Err(e) => Err(e),
    }
}

impl AuthError {
    /// Whether this is the weak-passphrase rejection.
    pub open spec fn is_weak(&self) -> bool {
        self is WeakPassphrase
    }

    /// The message shown to a caller for this error.
    pub fn message(&self) -> (r: String)
        ensures
            self matches AuthError::WeakPassphrase(m) ==> r == m,
    {
        match self {
            AuthError::AuthenticationError => String::from_str("Authentication failed"),
            AuthError::InvalidCredentials => String::from_str("Invalid credentials"),
            AuthError::TokenExpired => String::from_str("Token expired"),
            AuthError::InvalidToken => String::from_str("Invalid token"),
            AuthError::UserNotFound => String::from_str("User not found"),
            AuthError::UserExists => String::from_str("User already exists"),
            AuthError::InternalError => String::from_str("Internal server error"),
            AuthError::WeakPassphrase(m) => m.clone(),
            AuthError::RateLimitExceeded => String::from_str("Rate limit exceeded"),
            AuthError::TotpAlreadyEnabled => String::from_str("2FA is already enabled"),
            AuthError::TotpNotEnabled => String::from_str("2FA is not enabled"),
            AuthError::InvalidTotpCode => String::from_str("Invalid TOTP code"),
        }
    }
}

} // verus!
