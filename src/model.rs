use vstd::prelude::*;
use crate::ambient::{new_identifier, now_timestamp};

verus! {

/// Failed passphrase attempts from which an account may be locked.
pub const MAX_FAILED_ATTEMPTS: u32 = 5;

/// Seconds after the last successful login during which a lock holds.
pub const LOCKOUT_SECONDS: i64 = 3600;

/// Earliest instant, in Unix seconds, that a calendar timestamp can hold.
pub const MIN_TIMESTAMP: i64 = -377705116800;

/// Latest instant, in Unix seconds, that a calendar timestamp can hold.
pub const MAX_TIMESTAMP: i64 = 253402300799;

/// A Unix timestamp within the calendar range (years -9999 to 9999).
pub open spec fn valid_time(t: i64) -> bool {
    MIN_TIMESTAMP <= t <= MAX_TIMESTAMP
}

/// Account lifecycle status.
#[derive(Debug, Clone, Copy, PartialEq, Eq, Structural)]
pub enum UserStatus {
    Active,
    Inactive,
    Suspended,
    PendingVerification,
}

/// The purposes a token can be minted for.
#[derive(Debug, Clone, Copy, PartialEq, Eq, Structural)]
pub enum TokenType {
    Access,
    Refresh,
    EmailVerification,
    PasswordReset,
}

/// The aggregate root of the identity core. Identifiers are the 128-bit value
/// of a UUID; timestamps are Unix seconds.
#[derive(Debug)]
pub struct User {
    pub id: u128,
    pub email: String,
    pub passphrase_hash: String,
    pub totp_secret: Option<String>,
    pub totp_enabled: bool,
    pub failed_login_attempts: u32,
    pub last_login: Option<i64>,
    pub email_verified: bool,
    pub email_verification_token: Option<String>,
    pub password_reset_token: Option<String>,
    pub password_reset_expires: Option<i64>,
    pub created_at: i64,
    pub updated_at: i64,
    pub status: UserStatus,
}

/// A resolved token: whose it is, what for, and until when.
#[derive(Debug)]
pub struct AuthToken {
    pub user_id: u128,
    pub token_type: TokenType,
    pub expires_at: i64,
}

/// What a caller receives when starting two-factor enrollment.
#[derive(Debug)]
pub struct TotpSetup {
    pub secret: String,
    pub provisioning_uri: String,
}

/// Lockout rule: at least the maximum of failed attempts, and the last
/// successful login less than the lockout period ago. The period is anchored
/// to the last successful login, so an account that never logged in
/// successfully is never unlocked by elapsed time: it stays locked.
pub open spec fn locked_at(u: User, now: i64) -> bool {
    u.failed_login_attempts >= MAX_FAILED_ATTEMPTS && match u.last_login {
        Some(t) => t + LOCKOUT_SECONDS > now,
        None => true,
    }
}

/// The account invariants: two factors are enabled only with a secret, a
/// reset token comes with its expiry, and only a verified account is active.
pub open spec fn user_consistent(u: User) -> bool {
    &&& u.totp_enabled ==> u.totp_secret is Some
    &&& u.password_reset_token is Some ==> u.password_reset_expires is Some
    &&& u.status == UserStatus::Active ==> u.email_verified
}

/// A fresh account as registration creates it.
pub open spec fn is_fresh_user(u: User, id: u128, email: Seq<char>, hash: Seq<char>, now: i64) -> bool {
    u.id == id && u.email@ == email && u.passphrase_hash@ == hash && u.totp_secret is None
            && !u.totp_enabled && u.failed_login_attempts == 0 && u.last_login is None
            && !u.email_verified && u.email_verification_token is None
            && u.password_reset_token is None && u.password_reset_expires is None
            && u.created_at == now && u.updated_at == now
            && u.status == UserStatus::PendingVerification
}

pub fn clone_opt_string(s: &Option<String>) -> (r: Option<String>)
    ensures
        r == *s,
{
    match s {
        Some(x) => Some(x.clone()),
        None => None,
    }
}

impl User {
    /// A new account in `PendingVerification`, with the given identifier and
    /// creation time.
    pub fn new_at(email: String, passphrase_hash: String, id: u128, now: i64) -> (r: User)
        ensures
            is_fresh_user(r, id, email@, passphrase_hash@, now),
            r.email == email,
            r.passphrase_hash == passphrase_hash,
    {
        User {
            id,
            email,
            passphrase_hash,
            totp_secret: None,
            totp_enabled: false,
            failed_login_attempts: 0,
            last_login: None,
            email_verified: false,
            email_verification_token: None,
            password_reset_token: None,
            password_reset_expires: None,
            created_at: now,
            updated_at: now,
            status: UserStatus::PendingVerification,
        }
    }

    /// A new account in `PendingVerification`, with a random identifier,
    /// created now.
    pub fn new(email: String, passphrase_hash: String) -> (r: User)
        ensures
            exists|id: u128, t: i64| valid_time(t) && is_fresh_user(r, id, email@, passphrase_hash@, t),
            r.email == email,
            r.passphrase_hash == passphrase_hash,
    {
        let now = now_timestamp();
        User::new_at(email, passphrase_hash, new_identifier(), now)
    }

    /// Whether the account is locked now.
    pub fn is_locked(&self) -> (r: bool)
        ensures
            exists|t: i64| valid_time(t) && r == locked_at(*self, t),
    {
        let now = now_timestamp();
        self.is_locked_at(now)
    }

    /// Whether the account is locked at time `now`.
    pub fn is_locked_at(&self, now: i64) -> (r: bool)
        requires
            valid_time(now),
        ensures
            r == locked_at(*self, now),
    {
        if self.failed_login_attempts >= MAX_FAILED_ATTEMPTS {
            match self.last_login {
                Some(t) => t > now - LOCKOUT_SECONDS,
                None => true,
            }
        } else {
            false
        }
    }

    /// An exact copy of this record.
    pub fn duplicate(&self) -> (r: User)
        ensures
            r == *self,
    {
        User {
            id: self.id,
            email: self.email.clone(),
            passphrase_hash: self.passphrase_hash.clone(),
            totp_secret: clone_opt_string(&self.totp_secret),
            totp_enabled: self.totp_enabled,
            failed_login_attempts: self.failed_login_attempts,
            last_login: self.last_login,
            email_verified: self.email_verified,
            email_verification_token: clone_opt_string(&self.email_verification_token),
            password_reset_token: clone_opt_string(&self.password_reset_token),
            password_reset_expires: self.password_reset_expires,
            created_at: self.created_at,
            updated_at: self.updated_at,
            status: self.status,
        }
    }
}

} // verus!
