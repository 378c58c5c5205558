use vstd::prelude::*;
use vstd::string::*;
use base64::Engine;
use crate::ambient::new_identifier;
use crate::api::{
    AuthResponse, Delivery, DeliveryKind, EnableTotpRequest, LoginRequest, RegisterRequest,
    TotpSecretResponse,
};
use crate::error::AuthError;
use crate::hasher::{
    check_strength, hash_passphrase, hashable, strong_passphrase, verification_outcome, verify_passphrase,
};
use crate::keys::{email_key, id_bytes, identifier_bytes, reset_key, user_key, verify_key};
use crate::model::{is_fresh_user, locked_at, user_consistent, valid_time, User, UserStatus};
use crate::repository::{
    account_of, accounts_sound, created, lemma_created_sound, lemma_read_consistent, lemma_written_sound,
    resolve, written, UserRepository,
};
use crate::store::Record;
use crate::token::{
    access_tag, ed25519_signature, issued_token, refresh_tag, token_outcome, JwtService,
    ACCESS_TOKEN_DURATION, REFRESH_TOKEN_DURATION,
};
use crate::totp::{base32_text, code_check, has_colon, uri_outcome, TotpService, SECRET_BYTES};

verus! {

/// Seconds for which a password-reset token stays valid.
pub const RESET_TOKEN_SECONDS: i64 = 3600;

/// Standard base64 text, with padding, of some bytes.
pub uninterp spec fn base64_text(bytes: Seq<u8>) -> Seq<char>;

/// Relies on base64's STANDARD engine: padded standard-alphabet text, four
/// characters for each started group of three bytes.
#[verifier::external_body]
fn base64_encode(bytes: &[u8]) -> (r: String)
    ensures
        r@ == base64_text(bytes@),
        r@.len() == (bytes@.len() + 2) / 3 * 4,
{
    base64::engine::general_purpose::STANDARD.encode(bytes)
}

/// An optional text seen through the view of its text.
pub open spec fn opt_text(o: Option<String>) -> Option<Seq<char>> {
    match o {
        Some(s) => Some(s@),
        None => None,
    }
}

/// The scheme word of issued tokens: `Bearer`.
pub open spec fn bearer_word() -> Seq<char> {
    seq!['B', 'e', 'a', 'r', 'e', 'r']
}

/// The opaque token minted for account `id`: the base64 text of the
/// signature of its identifier's bytes.
pub open spec fn opaque_token(seed: Seq<u8>, id: u128) -> Seq<char> {
    base64_text(ed25519_signature(seed, id_bytes(id)))
}

/// The account after a wrong passphrase: one more failed attempt.
pub open spec fn after_failed_login(u: User, now: i64) -> User {
    User {
        failed_login_attempts: if u.failed_login_attempts < u32::MAX {
            (u.failed_login_attempts + 1) as u32
        } else {
            u.failed_login_attempts
        },
        updated_at: now,
        ..u
    }
}

/// The account after a successful login.
pub open spec fn after_login(u: User, now: i64) -> User {
    User { failed_login_attempts: 0, last_login: Some(now), updated_at: now, ..u }
}

/// What checking a one-time code for account `u` yields.
pub open spec fn totp_outcome(u: User, code: Seq<char>, now: i64) -> Result<(), AuthError> {
    match u.totp_secret {
        None => Err(AuthError::AuthenticationError),
        Some(s) => match code_check(s@, code, now) {
            Err(e) => Err(e),
            Ok(true) => Ok(()),
            Ok(false) => Err(AuthError::InvalidCredentials),
        },
    }
}

/// The second factor of a login: required only where it is enabled.
pub open spec fn second_factor(u: User, code: Option<Seq<char>>, now: i64) -> Result<(), AuthError> {
    if !u.totp_enabled {
        Ok(())
    } else {
        match code {
            None => Err(AuthError::AuthenticationError),
            Some(c) => totp_outcome(u, c, now),
        }
    }
}

/// The account that a login for `email` resolves to, once neither absent
/// nor locked.
pub open spec fn login_account(m: Map<Seq<u8>, Record>, email: Seq<char>, now: i64) -> Result<User, AuthError> {
    match resolve(m, email_key(email)) {
        Err(e) => Err(e),
        Ok(None) => Err(AuthError::InvalidCredentials),
        Ok(Some(u)) => if locked_at(u, now) {
            Err(AuthError::RateLimitExceeded)
        } else {
            Ok(u)
        },
    }
}

/// What the checks of a login yield: the account, when the passphrase and,
/// where enabled, the one-time code are right.
pub open spec fn login_check(
    m: Map<Seq<u8>, Record>,
    email: Seq<char>,
    passphrase: Seq<char>,
    code: Option<Seq<char>>,
    now: i64,
) -> Result<User, AuthError> {
    match login_account(m, email, now) {
        Err(e) => Err(e),
        Ok(u) => match verification_outcome(passphrase, u.passphrase_hash@) {
            Err(e) => Err(e),
            Ok(false) => Err(AuthError::InvalidCredentials),
            Ok(true) => match second_factor(u, code, now) {
                Err(e) => Err(e),
                Ok(()) => Ok(u),
            },
        },
    }
}

/// The contents after a login whose checks failed: the failed attempt is
/// recorded when the passphrase was wrong, and nothing changes otherwise.
pub open spec fn after_rejected_login(
    m: Map<Seq<u8>, Record>,
    email: Seq<char>,
    passphrase: Seq<char>,
    now: i64,
) -> Map<Seq<u8>, Record> {
    match login_account(m, email, now) {
        Ok(u) => if verification_outcome(passphrase, u.passphrase_hash@) == Ok::<bool, AuthError>(false) {
            written(m, after_failed_login(u, now))
        } else {
            m
        },
        Err(_) => m,
    }
}

/// A token pair issued to `user_id` at `now`.
pub open spec fn issued_pair(key: Seq<u8>, resp: AuthResponse, user_id: u128, now: i64) -> bool {
    &&& issued_token(key, resp.access_token@, user_id, access_tag(), ACCESS_TOKEN_DURATION, now)
    &&& issued_token(key, resp.refresh_token@, user_id, refresh_tag(), REFRESH_TOKEN_DURATION, now)
    &&& resp.token_type@ == bearer_word()
    &&& resp.expires_in == ACCESS_TOKEN_DURATION
}

/// The account of `id`, which must exist.
pub open spec fn existing_account(m: Map<Seq<u8>, Record>, id: u128) -> Result<User, AuthError> {
    match account_of(m, id) {
        Err(e) => Err(e),
        Ok(None) => Err(AuthError::UserNotFound),
        Ok(Some(u)) => Ok(u),
    }
}

/// `v` is the account `u` after it stores a new, not yet enabled, secret.
pub open spec fn is_with_secret(u: User, v: User, now: i64) -> bool {
    v == User { totp_secret: v.totp_secret, updated_at: now, ..u } && v.totp_secret is Some
}

/// What enabling two factors for `id` with `code` yields: the account as it
/// is to be written.
pub open spec fn enable_outcome(m: Map<Seq<u8>, Record>, id: u128, code: Seq<char>, now: i64) -> Result<User, AuthError> {
    match existing_account(m, id) {
        Err(e) => Err(e),
        Ok(u) => match u.totp_secret {
            None => Err(AuthError::AuthenticationError),
            Some(s) => match code_check(s@, code, now) {
                Err(e) => Err(e),
                Ok(false) => Err(AuthError::InvalidCredentials),
                Ok(true) => Ok(User { totp_enabled: true, updated_at: now, ..u }),
            },
        },
    }
}

/// What disabling two factors for `id` with `code` yields: the account as it
/// is to be written.
pub open spec fn disable_outcome(m: Map<Seq<u8>, Record>, id: u128, code: Seq<char>, now: i64) -> Result<User, AuthError> {
    match existing_account(m, id) {
        Err(e) => Err(e),
        Ok(u) => if !u.totp_enabled {
            Err(AuthError::TotpNotEnabled)
        } else {
            match u.totp_secret {
                None => Err(AuthError::AuthenticationError),
                Some(s) => match code_check(s@, code, now) {
                    Err(e) => Err(e),
                    Ok(false) => Err(AuthError::InvalidCredentials),
                    Ok(true) => Ok(User { totp_enabled: false, totp_secret: None, updated_at: now, ..u }),
                },
            }
        },
    }
}

/// What verifying an email with `token` yields: the account to write, or
/// none when it is verified already.
pub open spec fn verify_email_outcome(m: Map<Seq<u8>, Record>, token: Seq<char>, now: i64) -> Result<Option<User>, AuthError> {
    match resolve(m, verify_key(token)) {
        Err(e) => Err(e),
        Ok(None) => Err(AuthError::InvalidToken),
        Ok(Some(u)) => if u.email_verified {
            Ok(None)
        } else {
            Ok(Some(User {
                email_verified: true,
                email_verification_token: None,
                status: UserStatus::Active,
                updated_at: now,
                ..u
            }))
        },
    }
}

/// The account that a password reset with `token` applies to, once the
/// token is known and unexpired at `now`.
pub open spec fn reset_account(m: Map<Seq<u8>, Record>, token: Seq<char>, now: i64) -> Result<User, AuthError> {
    match resolve(m, reset_key(token)) {
        Err(e) => Err(e),
        Ok(None) => Err(AuthError::InvalidToken),
        Ok(Some(u)) => match u.password_reset_expires {
            None => Err(AuthError::InvalidToken),
            Some(x) => if x < now {
                Err(AuthError::TokenExpired)
            } else {
                Ok(u)
            },
        },
    }
}

/// `v` is the account `u` after its reset completes: a new hash, and the
/// reset token and expiry cleared.
pub open spec fn is_after_reset(u: User, v: User, now: i64) -> bool {
    v == User {
        passphrase_hash: v.passphrase_hash,
        password_reset_token: None,
        password_reset_expires: None,
        updated_at: now,
        ..u
    }
}

/// `v` is the account `u` after a reset starts at `now`: the opaque token of
/// its identifier, valid for an hour.
pub open spec fn is_reset_started(u: User, v: User, seed: Seq<u8>, now: i64) -> bool {
    &&& v == User {
        password_reset_token: v.password_reset_token,
        password_reset_expires: Some((now + RESET_TOKEN_SECONDS) as i64),
        updated_at: now,
        ..u
    }
    &&& v.password_reset_token matches Some(t) && t@ == opaque_token(seed, u.id)
}

/// Registration, login, token refresh, two-factor enrollment, email
/// verification and password reset over one repository.
pub struct AuthService {
    repository: UserRepository,
    jwt_service: JwtService,
    totp_service: TotpService,
}

impl View for AuthService {
    type V = Map<Seq<u8>, Record>;

    closed spec fn view(&self) -> Map<Seq<u8>, Record> {
        self.repository@
    }
}

impl AuthService {
    pub closed spec fn wf(&self) -> bool {
        self.repository.wf() && self.jwt_service.wf()
    }

    /// The token service's secret seed.
    pub closed spec fn seed(&self) -> Seq<u8> {
        self.jwt_service.seed()
    }

    /// The key that tokens are signed with.
    pub closed spec fn signing_key(&self) -> Seq<u8> {
        self.jwt_service.signing_key()
    }

    /// The token service's keys: seed, signing key, public key.
    pub closed spec fn keys(&self) -> (Seq<u8>, Seq<u8>, Seq<u8>) {
        (self.seed(), self.signing_key(), self.public_key())
    }

    /// The key that tokens are checked against.
    pub closed spec fn public_key(&self) -> Seq<u8> {
        self.jwt_service.public_key()
    }

    /// A service over `repository` whose tokens are signed with
    /// `jwt_service`'s key.
    pub fn new(repository: UserRepository, jwt_service: JwtService) -> (r: AuthService)
        requires
            repository.wf(),
            jwt_service.wf(),
        ensures
            r.wf(),
            r@ == repository@,
            r.seed() == jwt_service.seed(),
            r.signing_key() == jwt_service.signing_key(),
            r.public_key() == jwt_service.public_key(),
    {
        AuthService { repository, jwt_service, totp_service: TotpService::new() }
    }

    /// Registers `req.email` with `req.passphrase`: the passphrase must be
    /// strong enough, and the email not registered yet. The new account is
    /// pending verification and its hash verifies against the passphrase.
    pub fn register(&mut self, req: RegisterRequest, now: i64) -> (r: Result<User, AuthError>)
        requires
            old(self).wf(),
            valid_time(now),
        ensures
            final(self).wf(),
            final(self).keys() == old(self).keys(),
            accounts_sound(old(self)@) ==> accounts_sound(final(self)@),
            !strong_passphrase(req.passphrase@, req.email@) ==> r is Err,
            r matches Err(e) && e.is_weak() ==> !strong_passphrase(req.passphrase@, req.email@),
            req.passphrase@.len() == 0 ==> r is Err && r->Err_0.is_weak(),
            r matches Ok(u) ==> {
                &&& strong_passphrase(req.passphrase@, req.email@)
                &&& !old(self)@.contains_key(email_key(req.email@))
                &&& !old(self)@.contains_key(user_key(u.id))
                &&& is_fresh_user(u, u.id, req.email@, u.passphrase_hash@, now)
                &&& verification_outcome(req.passphrase@, u.passphrase_hash@) == Ok::<bool, AuthError>(true)
                &&& final(self)@ == created(old(self)@, u)
            },
            r is Err ==> final(self)@ == old(self)@,
            r == Err::<User, AuthError>(AuthError::UserExists) ==> strong_passphrase(req.passphrase@, req.email@)
                && old(self)@.contains_key(email_key(req.email@)),
            strong_passphrase(req.passphrase@, req.email@) && old(self)@.contains_key(email_key(req.email@))
                ==> r == Err::<User, AuthError>(AuthError::UserExists) || r == Err::<User, AuthError>(AuthError::InternalError),
            strong_passphrase(req.passphrase@, req.email@) && !old(self)@.contains_key(email_key(req.email@))
                && hashable(req.passphrase@) ==> r is Ok || r == Err::<User, AuthError>(AuthError::InternalError),
    {
        let message = String::from_str("Passphrase is too weak. Please use a longer, more complex passphrase.");
        match check_strength(req.passphrase.as_str(), req.email.as_str(), message) {
            Err(e) => return Err(e),
            Ok(()) => {},
        }
        if self.repository.email_taken(req.email.as_str()) {
            return Err(AuthError::UserExists);
        }
        let passphrase_hash = match hash_passphrase(req.passphrase.as_str()) {
            Err(e) => return Err(e),
            Ok(h) => h,
        };
        let id = new_identifier();
        match self.repository.get_user_by_id(id) {
            Ok(None) => {},
            _ => return Err(AuthError::InternalError),
        }
        let user = User::new_at(req.email, passphrase_hash, id, now);
        proof {
            if accounts_sound(self@) {
                lemma_created_sound(self@, user);
            }
        }
        match self.repository.create_user(&user) {
            Err(e) => Err(e),
            Ok(()) => Ok(user),
        }
    }

    /// Checks a one-time code for `user`.
    pub fn verify_totp(&self, user: &User, code: &str, now: i64) -> (r: Result<(), AuthError>)
        requires
            valid_time(now),
        ensures
            r == totp_outcome(*user, code@, now),
    {
        let secret = match &user.totp_secret {
            None => return Err(AuthError::AuthenticationError),
            Some(s) => s,
        };
        match self.totp_service.verify_code_at(secret.as_str(), code, now) {
            Err(e) => Err(e),
            Ok(true) => Ok(()),
            Ok(false) => Err(AuthError::InvalidCredentials),
        }
    }

    /// Logs in with email, passphrase and, where two factors are enabled, a
    /// one-time code. A wrong passphrase records a failed attempt; success
    /// clears the count, records the login and issues a token pair.
    pub fn login(&mut self, req: LoginRequest, now: i64) -> (r: Result<AuthResponse, AuthError>)
        requires
            old(self).wf(),
            valid_time(now),
        ensures
            final(self).wf(),
            final(self).keys() == old(self).keys(),
            accounts_sound(old(self)@) ==> accounts_sound(final(self)@),
            login_check(old(self)@, req.email@, req.passphrase@, opt_text(req.totp_code), now) matches Err(e)
                ==> r == Err::<AuthResponse, AuthError>(e)
                && final(self)@ == after_rejected_login(old(self)@, req.email@, req.passphrase@, now),
            login_check(old(self)@, req.email@, req.passphrase@, opt_text(req.totp_code), now) matches Ok(u) ==> (
            r matches Ok(resp) && issued_pair(old(self).signing_key(), resp, u.id, now)
                && final(self)@ == written(old(self)@, after_login(u, now))),
    {
        let user = match self.repository.get_user_by_email(req.email.as_str()) {
            Err(e) => return Err(e),
            Ok(None) => return Err(AuthError::InvalidCredentials),
            Ok(Some(u)) => u,
        };
        proof {
            if accounts_sound(self@) {
                lemma_read_consistent(self@, email_key(req.email@), 0);
            }
        }
        if user.is_locked_at(now) {
            return Err(AuthError::RateLimitExceeded);
        }
        match verify_passphrase(req.passphrase.as_str(), user.passphrase_hash.as_str()) {
            Err(e) => return Err(e),
            Ok(false) => {
                let mut user = user;
                if user.failed_login_attempts < u32::MAX {
                    user.failed_login_attempts = user.failed_login_attempts + 1;
                }
                user.updated_at = now;
                proof {
            if accounts_sound(self@) {
                lemma_written_sound(self@, user);
            }
        }
        let _ = self.repository.update_user(&user);
                return Err(AuthError::InvalidCredentials);
            },
            Ok(true) => {},
        }
        if user.totp_enabled {
            let code = match &req.totp_code {
                None => return Err(AuthError::AuthenticationError),
                Some(c) => c,
            };
            match self.verify_totp(&user, code.as_str(), now) {
                Err(e) => return Err(e),
                Ok(()) => {},
            }
        }
        let access_token = match self.jwt_service.generate_access_token(user.id, now) {
            Err(e) => return Err(e),
            Ok(t) => t,
        };
        let refresh_token = match self.jwt_service.generate_refresh_token(user.id, now) {
            Err(e) => return Err(e),
            Ok(t) => t,
        };
        let mut user = user;
        user.failed_login_attempts = 0;
        user.last_login = Some(now);
        user.updated_at = now;
        proof {
            if accounts_sound(self@) {
                lemma_written_sound(self@, user);
            }
        }
        let _ = self.repository.update_user(&user);
        let token_type = String::from_str("Bearer");
        proof {
            reveal_strlit("Bearer");
            assert(token_type@ =~= bearer_word());
        }
        Ok(AuthResponse { access_token, refresh_token, token_type, expires_in: ACCESS_TOKEN_DURATION })
    }

    /// Issues a fresh token pair for the subject of a valid refresh token.
    pub fn refresh_token(&self, refresh_token: &str, now: i64) -> (r: Result<AuthResponse, AuthError>)
        requires
            self.wf(),
            valid_time(now),
        ensures
            token_outcome(self.public_key(), refresh_token@, refresh_tag(), now) matches Err(e)
                ==> r == Err::<AuthResponse, AuthError>(e),
            token_outcome(self.public_key(), refresh_token@, refresh_tag(), now) matches Ok(id) ==> (
            r matches Ok(resp) && issued_pair(self.signing_key(), resp, id, now)),
    {
        let tag = String::from_str("refresh");
        proof {
            reveal_strlit("refresh");
            assert(tag@ =~= refresh_tag());
        }
        let user_id = match self.jwt_service.verify_token(refresh_token, tag.as_str(), now) {
            Err(e) => return Err(e),
            Ok(id) => id,
        };
        let access_token = match self.jwt_service.generate_access_token(user_id, now) {
            Err(e) => return Err(e),
            Ok(t) => t,
        };
        let new_refresh_token = match self.jwt_service.generate_refresh_token(user_id, now) {
            Err(e) => return Err(e),
            Ok(t) => t,
        };
        let token_type = String::from_str("Bearer");
        proof {
            reveal_strlit("Bearer");
            assert(token_type@ =~= bearer_word());
        }
        Ok(AuthResponse {
            access_token,
            refresh_token: new_refresh_token,
            token_type,
            expires_in: ACCESS_TOKEN_DURATION,
        })
    }

    /// Starts two-factor enrollment: a new secret is stored, not yet enabled,
    /// and returned with its enrollment URI. An account that holds a secret
    /// already is refused.
    pub fn setup_totp(&mut self, user_id: u128, now: i64) -> (r: Result<TotpSecretResponse, AuthError>)
        requires
            old(self).wf(),
            valid_time(now),
        ensures
            final(self).wf(),
            final(self).keys() == old(self).keys(),
            accounts_sound(old(self)@) ==> accounts_sound(final(self)@),
            existing_account(old(self)@, user_id) matches Err(e) ==> r == Err::<TotpSecretResponse, AuthError>(e),
            existing_account(old(self)@, user_id) matches Ok(u) && u.totp_secret is Some
                ==> r == Err::<TotpSecretResponse, AuthError>(AuthError::InternalError),
            r is Err ==> final(self)@ == old(self)@,
            r matches Ok(resp) ==> (existing_account(old(self)@, user_id) matches Ok(u) && {
                &&& u.totp_secret is None
                &&& exists|b: Seq<u8>| b.len() == SECRET_BYTES && resp.secret@ == base32_text(b)
                &&& uri_outcome(resp.secret@, u.email@) == Ok::<Seq<char>, AuthError>(resp.qr_code_url@)
                &&& exists|v: User| is_with_secret(u, v, now) && v.totp_secret == Some(resp.secret)
                    && final(self)@ == written(old(self)@, v)
            }),
            existing_account(old(self)@, user_id) matches Ok(u) ==> (u.totp_secret is None ==> (r is Ok
                <==> !has_colon(u.email@))),
    {
        let mut user = match self.repository.get_user_by_id(user_id) {
            Err(e) => return Err(e),
            Ok(None) => return Err(AuthError::UserNotFound),
            Ok(Some(u)) => u,
        };
        proof {
            if accounts_sound(self@) {
                lemma_read_consistent(self@, seq![], user_id);
            }
        }
        if user.totp_secret.is_some() {
            return Err(AuthError::InternalError);
        }
        let secret = match self.totp_service.generate_secret() {
            Err(e) => return Err(e),
            Ok(s) => s,
        };
        let qr_code_url = match self.totp_service.generate_provisioning_uri(secret.as_str(), user.email.as_str()) {
            Err(e) => return Err(e),
            Ok(u) => u,
        };
        let ghost u0 = user;
        user.totp_secret = Some(secret.clone());
        user.updated_at = now;
        assert(is_with_secret(u0, user, now));
        proof {
            if accounts_sound(self@) {
                lemma_written_sound(self@, user);
            }
        }
        let _ = self.repository.update_user(&user);
        Ok(TotpSecretResponse { secret, qr_code_url })
    }

    /// Confirms two-factor enrollment with a code of the stored secret.
    pub fn enable_totp(&mut self, user_id: u128, req: EnableTotpRequest, now: i64) -> (r: Result<(), AuthError>)
        requires
            old(self).wf(),
            valid_time(now),
        ensures
            final(self).wf(),
            final(self).keys() == old(self).keys(),
            accounts_sound(old(self)@) ==> accounts_sound(final(self)@),
            enable_outcome(old(self)@, user_id, req.verification_code@, now) matches Err(e)
                ==> r == Err::<(), AuthError>(e) && final(self)@ == old(self)@,
            enable_outcome(old(self)@, user_id, req.verification_code@, now) matches Ok(v)
                ==> r == Ok::<(), AuthError>(()) && final(self)@ == written(old(self)@, v),
    {
        let mut user = match self.repository.get_user_by_id(user_id) {
            Err(e) => return Err(e),
            Ok(None) => return Err(AuthError::UserNotFound),
            Ok(Some(u)) => u,
        };
        proof {
            if accounts_sound(self@) {
                lemma_read_consistent(self@, seq![], user_id);
            }
        }
        let valid = match &user.totp_secret {
            None => return Err(AuthError::AuthenticationError),
            Some(secret) => self.totp_service.verify_code_at(secret.as_str(), req.verification_code.as_str(), now),
        };
        match valid {
            Err(e) => return Err(e),
            Ok(false) => return Err(AuthError::InvalidCredentials),
            Ok(true) => {},
        }
        let ghost u0 = user;
        user.totp_enabled = true;
        user.updated_at = now;
        assert(user == User { totp_enabled: true, updated_at: now, ..u0 });
        proof {
            if accounts_sound(self@) {
                lemma_written_sound(self@, user);
            }
        }
        let _ = self.repository.update_user(&user);
        Ok(())
    }

    /// Turns two factors off, with a code of the stored secret; the secret is
    /// removed.
    pub fn disable_totp(&mut self, user_id: u128, verification_code: &str, now: i64) -> (r: Result<(), AuthError>)
        requires
            old(self).wf(),
            valid_time(now),
        ensures
            final(self).wf(),
            final(self).keys() == old(self).keys(),
            accounts_sound(old(self)@) ==> accounts_sound(final(self)@),
            disable_outcome(old(self)@, user_id, verification_code@, now) matches Err(e)
                ==> r == Err::<(), AuthError>(e) && final(self)@ == old(self)@,
            disable_outcome(old(self)@, user_id, verification_code@, now) matches Ok(v)
                ==> r == Ok::<(), AuthError>(()) && final(self)@ == written(old(self)@, v),
    {
        let mut user = match self.repository.get_user_by_id(user_id) {
            Err(e) => return Err(e),
            Ok(None) => return Err(AuthError::UserNotFound),
            Ok(Some(u)) => u,
        };
        proof {
            if accounts_sound(self@) {
                lemma_read_consistent(self@, seq![], user_id);
            }
        }
        if !user.totp_enabled {
            return Err(AuthError::TotpNotEnabled);
        }
        let valid = match &user.totp_secret {
            None => return Err(AuthError::AuthenticationError),
            Some(secret) => self.totp_service.verify_code_at(secret.as_str(), verification_code, now),
        };
        match valid {
            Err(e) => return Err(e),
            Ok(false) => return Err(AuthError::InvalidCredentials),
            Ok(true) => {},
        }
        let ghost u0 = user;
        user.totp_enabled = false;
        user.totp_secret = None;
        user.updated_at = now;
        assert(user == User { totp_enabled: false, totp_secret: None, updated_at: now, ..u0 });
        proof {
            if accounts_sound(self@) {
                lemma_written_sound(self@, user);
            }
        }
        let _ = self.repository.update_user(&user);
        Ok(())
    }

    fn mint_opaque_token(&self, id: u128) -> (r: String)
        requires
            self.wf(),
        ensures
            r@ == opaque_token(self.seed(), id),
            r@.len() == 88,
    {
        let bytes = identifier_bytes(id);
        let signature = self.jwt_service.sign_data(bytes.as_slice());
        base64_encode(signature.as_slice())
    }

    /// Gives `user` an email-verification token, stores it with its index
    /// entry, and returns the email that carries it.
    pub fn send_verification_email(&mut self, user: &User) -> (r: Result<Delivery, AuthError>)
        requires
            old(self).wf(),
        ensures
            final(self).wf(),
            final(self).keys() == old(self).keys(),
            accounts_sound(old(self)@) && user_consistent(*user) ==> accounts_sound(final(self)@),
            r matches Ok(d) && d.to@ == user.email@ && d.kind == DeliveryKind::Verification
                && d.token@ == opaque_token(old(self).seed(), user.id) && d.token@.len() == 88
                && final(self)@ == written(old(self)@, User { email_verification_token: Some(d.token), ..*user }),
    {
        let token = self.mint_opaque_token(user.id);
        let mut updated = user.duplicate();
        updated.email_verification_token = Some(token.clone());
        proof {
            if accounts_sound(self@) && user_consistent(*user) {
                lemma_written_sound(self@, updated);
            }
        }
        let _ = self.repository.update_user(&updated);
        Ok(Delivery { to: updated.email, kind: DeliveryKind::Verification, token })
    }

    /// Marks the email of the account holding `token` verified and the
    /// account active; an account verified already is left as it is.
    pub fn verify_email(&mut self, token: &str, now: i64) -> (r: Result<(), AuthError>)
        requires
            old(self).wf(),
        ensures
            final(self).wf(),
            final(self).keys() == old(self).keys(),
            accounts_sound(old(self)@) ==> accounts_sound(final(self)@),
            verify_email_outcome(old(self)@, token@, now) matches Err(e)
                ==> r == Err::<(), AuthError>(e) && final(self)@ == old(self)@,
            verify_email_outcome(old(self)@, token@, now) matches Ok(None)
                ==> r == Ok::<(), AuthError>(()) && final(self)@ == old(self)@,
            verify_email_outcome(old(self)@, token@, now) matches Ok(Some(v))
                ==> r == Ok::<(), AuthError>(()) && final(self)@ == written(old(self)@, v),
    {
        let mut user = match self.repository.get_user_by_verification_token(token) {
            Err(e) => return Err(e),
            Ok(None) => return Err(AuthError::InvalidToken),
            Ok(Some(u)) => u,
        };
        proof {
            if accounts_sound(self@) {
                lemma_read_consistent(self@, verify_key(token@), 0);
            }
        }
        if user.email_verified {
            return Ok(());
        }
        let ghost u0 = user;
        user.email_verified = true;
        user.email_verification_token = None;
        user.status = UserStatus::Active;
        user.updated_at = now;
        assert(user == User {
            email_verified: true,
            email_verification_token: None,
            status: UserStatus::Active,
            updated_at: now,
            ..u0
        });
        proof {
            if accounts_sound(self@) {
                lemma_written_sound(self@, user);
            }
        }
        let _ = self.repository.update_user(&user);
        Ok(())
    }

    /// Starts a password reset for the verified account of `email`: stores a
    /// reset token valid for an hour and returns the email that carries it.
    pub fn initiate_password_reset(&mut self, email: &str, now: i64) -> (r: Result<Delivery, AuthError>)
        requires
            old(self).wf(),
            valid_time(now),
        ensures
            final(self).wf(),
            final(self).keys() == old(self).keys(),
            accounts_sound(old(self)@) ==> accounts_sound(final(self)@),
            resolve(old(self)@, email_key(email@)) matches Err(e) ==> r == Err::<Delivery, AuthError>(e),
            resolve(old(self)@, email_key(email@)) == Ok::<Option<User>, AuthError>(None)
                ==> r == Err::<Delivery, AuthError>(AuthError::UserNotFound),
            resolve(old(self)@, email_key(email@)) matches Ok(Some(u)) && !u.email_verified
                ==> r == Err::<Delivery, AuthError>(AuthError::AuthenticationError),
            r is Err ==> final(self)@ == old(self)@,
            resolve(old(self)@, email_key(email@)) matches Ok(Some(u)) ==> u.email_verified ==> (r matches Ok(d) && {
                &&& d.to@ == u.email@ && d.kind == DeliveryKind::Reset
                &&& d.token@ == opaque_token(old(self).seed(), u.id) && d.token@.len() == 88
                &&& exists|v: User| is_reset_started(u, v, old(self).seed(), now)
                    && final(self)@ == written(old(self)@, v)
            }),
    {
        let mut user = match self.repository.get_user_by_email(email) {
            Err(e) => return Err(e),
            Ok(None) => return Err(AuthError::UserNotFound),
            Ok(Some(u)) => u,
        };
        proof {
            if accounts_sound(self@) {
                lemma_read_consistent(self@, email_key(email@), 0);
            }
        }
        if !user.email_verified {
            return Err(AuthError::AuthenticationError);
        }
        let token = self.mint_opaque_token(user.id);
        let ghost u0 = user;
        user.password_reset_token = Some(token.clone());
        user.password_reset_expires = Some(now + RESET_TOKEN_SECONDS);
        user.updated_at = now;
        assert(is_reset_started(u0, user, self.seed(), now));
        proof {
            if accounts_sound(self@) {
                lemma_written_sound(self@, user);
            }
        }
        let _ = self.repository.update_user(&user);
        Ok(Delivery { to: user.email, kind: DeliveryKind::Reset, token })
    }

    /// Completes a password reset: the token must be known and unexpired and
    /// the new passphrase strong enough. The new hash is stored and the token
    /// and its expiry are cleared.
    pub fn reset_password(&mut self, token: &str, new_passphrase: &str, now: i64) -> (r: Result<(), AuthError>)
        requires
            old(self).wf(),
            valid_time(now),
        ensures
            final(self).wf(),
            final(self).keys() == old(self).keys(),
            accounts_sound(old(self)@) ==> accounts_sound(final(self)@),
            reset_account(old(self)@, token@, now) matches Err(e) ==> r == Err::<(), AuthError>(e),
            reset_account(old(self)@, token@, now) matches Ok(u) ==> (!strong_passphrase(new_passphrase@, u.email@)
                ==> r is Err),
            reset_account(old(self)@, token@, now) matches Ok(u) ==> (r matches Err(e) && e.is_weak()
                ==> !strong_passphrase(new_passphrase@, u.email@)),
            r is Err ==> final(self)@ == old(self)@,
            r is Ok ==> (reset_account(old(self)@, token@, now) matches Ok(u) && {
                &&& strong_passphrase(new_passphrase@, u.email@)
                &&& exists|v: User| is_after_reset(u, v, now)
                    && verification_outcome(new_passphrase@, v.passphrase_hash@) == Ok::<bool, AuthError>(true)
                    && final(self)@ == written(old(self)@, v)
            }),
            reset_account(old(self)@, token@, now) matches Ok(u) ==> (new_passphrase@.len() == 0 ==> r is Err
                && r->Err_0.is_weak()),
            reset_account(old(self)@, token@, now) matches Ok(u) && strong_passphrase(new_passphrase@, u.email@)
                && hashable(new_passphrase@) ==> r is Ok || r == Err::<(), AuthError>(AuthError::InternalError),
    {
        let mut user = match self.repository.get_user_by_reset_token(token) {
            Err(e) => return Err(e),
            Ok(None) => return Err(AuthError::InvalidToken),
            Ok(Some(u)) => u,
        };
        proof {
            if accounts_sound(self@) {
                lemma_read_consistent(self@, reset_key(token@), 0);
            }
        }
        match user.password_reset_expires {
            None => return Err(AuthError::InvalidToken),
            Some(expires) => {
                if expires < now {
                    return Err(AuthError::TokenExpired);
                }
            },
        }
        let message = String::from_str("New passphrase is too weak. Please use a longer, more complex passphrase.");
        match check_strength(new_passphrase, user.email.as_str(), message) {
            Err(e) => return Err(e),
            Ok(()) => {},
        }
        let passphrase_hash = match hash_passphrase(new_passphrase) {
            Err(e) => return Err(e),
            Ok(h) => h,
        };
        let ghost u0 = user;
        user.passphrase_hash = passphrase_hash;
        user.password_reset_token = None;
        user.password_reset_expires = None;
        user.updated_at = now;
        assert(is_after_reset(u0, user, now));
        proof {
            if accounts_sound(self@) {
                lemma_written_sound(self@, user);
            }
        }
        let _ = self.repository.update_user(&user);
        Ok(())
    }

    /// The repository behind the service.
    pub fn repository(&self) -> (r: &UserRepository)
        requires
            self.wf(),
        ensures
            r.wf(),
            r@ == self@,
    {
        &self.repository
    }

    /// The token service behind the service.
    pub fn jwt_service(&self) -> (r: &JwtService)
        requires
            self.wf(),
        ensures
            r.wf(),
            r.seed() == self.seed(),
            r.signing_key() == self.signing_key(),
            r.public_key() == self.public_key(),
    {
        &self.jwt_service
    }
}

} // verus!
