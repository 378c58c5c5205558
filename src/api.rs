use vstd::prelude::*;
use vstd::string::*;
use crate::error::AuthError;

verus! {

/// A registration: the login email and the passphrase.
#[derive(Debug)]
pub struct RegisterRequest {
    pub email: String,
    pub passphrase: String,
}

/// A login attempt, with a one-time code for accounts that use two factors.
#[derive(Debug)]
pub struct LoginRequest {
    pub email: String,
    pub passphrase: String,
    pub totp_code: Option<String>,
}

/// The token pair handed out on login and refresh.
#[derive(Debug)]
pub struct AuthResponse {
    pub access_token: String,
    pub refresh_token: String,
    pub token_type: String,
    pub expires_in: i64,
}

/// The public description of an account.
#[derive(Debug)]
pub struct UserResponse {
    pub id: String,
    pub email: String,
    pub totp_enabled: bool,
    pub created_at: String,
    pub status: String,
}

/// The code that confirms two-factor enrollment.
#[derive(Debug)]
pub struct EnableTotpRequest {
    pub verification_code: String,
}

/// A new shared secret and its enrollment URI.
#[derive(Debug)]
pub struct TotpSecretResponse {
    pub secret: String,
    pub qr_code_url: String,
}

/// A request to start a password reset.
#[derive(Debug)]
pub struct ResetPasswordRequest {
    pub email: String,
}

/// A password reset's completion: the emailed token and the new passphrase.
#[derive(Debug)]
pub struct ConfirmResetRequest {
    pub token: String,
    pub new_passphrase: String,
}

/// Which message an outbound email carries.
#[derive(Debug, Clone, Copy, PartialEq, Eq, Structural)]
pub enum DeliveryKind {
    Verification,
    Reset,
}

/// An email for the delivery collaborator to send: address, kind, token.
#[derive(Debug)]
pub struct Delivery {
    pub to: String,
    pub kind: DeliveryKind,
    pub token: String,
}

/// Fewest characters of a passphrase that a request may carry.
pub const MIN_PASSPHRASE_CHARS: usize = 12;

/// Characters of a confirmation code.
pub const CODE_CHARS: usize = 6;

/// Whether a text has the shape of an email address.
pub uninterp spec fn email_shaped(s: Seq<char>) -> bool;

/// Relies on validator's ValidateEmail::validate_email for `&str`: the
/// address check of the `email` validation, which refuses an empty text.
#[verifier::external_body]
fn check_email(s: &str) -> (r: bool)
    ensures
        r == email_shaped(s@),
        s@.len() == 0 ==> !r,
{
    validator::ValidateEmail::validate_email(&s)
}

/// The outcome of validating a request: refused as invalid credentials.
pub open spec fn validity(ok: bool) -> Result<(), AuthError> {
    if ok {
        Ok(())
    } else {
        Err(AuthError::InvalidCredentials)
    }
}

fn long_enough(s: &str) -> (r: bool)
    ensures
        r == (s@.len() >= MIN_PASSPHRASE_CHARS),
{
    s.unicode_len() >= MIN_PASSPHRASE_CHARS
}

impl RegisterRequest {
    /// A registration needs an email address and a passphrase of at least
    /// twelve characters.
    pub fn validate(&self) -> (r: Result<(), AuthError>)
        ensures
            r == validity(email_shaped(self.email@) && self.passphrase@.len() >= MIN_PASSPHRASE_CHARS),
    {
        if check_email(self.email.as_str()) && long_enough(self.passphrase.as_str()) {
            Ok(())
        } else {
            Err(AuthError::InvalidCredentials)
        }
    }
}

impl LoginRequest {
    /// A login needs an email address.
    pub fn validate(&self) -> (r: Result<(), AuthError>)
        ensures
            r == validity(email_shaped(self.email@)),
    {
        if check_email(self.email.as_str()) {
            Ok(())
        } else {
            Err(AuthError::InvalidCredentials)
        }
    }
}

impl EnableTotpRequest {
    /// A confirmation code has exactly six characters.
    pub fn validate(&self) -> (r: Result<(), AuthError>)
        ensures
            r == validity(self.verification_code@.len() == CODE_CHARS),
    {
        if self.verification_code.as_str().unicode_len() == CODE_CHARS {
            Ok(())
        } else {
            Err(AuthError::InvalidCredentials)
        }
    }
}

impl ResetPasswordRequest {
    /// A reset request needs an email address.
    pub fn validate(&self) -> (r: Result<(), AuthError>)
        ensures
            r == validity(email_shaped(self.email@)),
    {
        if check_email(self.email.as_str()) {
            Ok(())
        } else {
            Err(AuthError::InvalidCredentials)
        }
    }
}

impl ConfirmResetRequest {
    /// A new passphrase has at least twelve characters.
    pub fn validate(&self) -> (r: Result<(), AuthError>)
        ensures
            r == validity(self.new_passphrase@.len() >= MIN_PASSPHRASE_CHARS),
    {
        if long_enough(self.new_passphrase.as_str()) {
            Ok(())
        } else {
            Err(AuthError::InvalidCredentials)
        }
    }
}

} // verus!
