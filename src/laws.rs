use vstd::prelude::*;
use crate::error::AuthError;
use crate::hasher::verification_outcome;
use crate::keys::{email_key, lemma_key_spaces_disjoint, reset_key, user_key, verify_key};
use crate::model::{is_fresh_user, locked_at, User, LOCKOUT_SECONDS, MAX_FAILED_ATTEMPTS};
use crate::repository::{accounts_keyed, account_of, created, resolve, written};
use crate::service::{
    after_failed_login, after_rejected_login, enable_outcome, existing_account, is_after_reset,
    login_account, login_check, reset_account,
};
use crate::store::Record;
use crate::token::{
    access_tag, claims_outcome, issued_claims, jwt_decoding, refresh_tag, token_outcome, ClaimsView,
    ACCESS_TOKEN_DURATION,
};
use crate::totp::{code_accepted, code_at_step, TOTP_STEP};

verus! {

/// Every index entry refers to an account that is stored.
pub open spec fn indices_resolve(m: Map<Seq<u8>, Record>) -> bool {
    forall|k: Seq<u8>|
        #[trigger] m.contains_key(k) && m[k] is UserRef ==> m.contains_key(user_key(m[k]->UserRef_0))
            && m[user_key(m[k]->UserRef_0)] is Account
}

/// Writing an account keeps the accounts under their own keys, and keeps
/// the index entries other than those of `u`'s tokens, whose record keys now
/// hold `u` when they held the account of the same identifier.
proof fn lemma_written_keys(m: Map<Seq<u8>, Record>, u: User)
    requires
        accounts_keyed(m),
    ensures
        accounts_keyed(written(m, u)),
        written(m, u).contains_key(user_key(u.id)),
        written(m, u)[user_key(u.id)] == Record::Account(u),
        forall|e: Seq<char>| #![trigger email_key(e)]
            written(m, u).contains_key(email_key(e)) == m.contains_key(email_key(e))
            && (m.contains_key(email_key(e)) ==> written(m, u)[email_key(e)] == m[email_key(e)]),
        u.password_reset_token is None ==> forall|t: Seq<char>| #![trigger reset_key(t)]
            written(m, u).contains_key(reset_key(t)) == m.contains_key(reset_key(t))
            && (m.contains_key(reset_key(t)) ==> written(m, u)[reset_key(t)] == m[reset_key(t)]),
{
    let m1 = m.insert(user_key(u.id), Record::Account(u));
    assert forall|e: Seq<char>| #![trigger email_key(e)]
        written(m, u).contains_key(email_key(e)) == m.contains_key(email_key(e))
        && (m.contains_key(email_key(e)) ==> written(m, u)[email_key(e)] == m[email_key(e)]) by {
        lemma_key_spaces_disjoint(u.id, e, seq![], seq![]);
        if let Some(t) = u.email_verification_token {
            lemma_key_spaces_disjoint(u.id, e, t@, seq![]);
        }
        if let Some(t) = u.password_reset_token {
            lemma_key_spaces_disjoint(u.id, e, seq![], t@);
        }
    }
    if u.password_reset_token is None {
        assert forall|t: Seq<char>| #![trigger reset_key(t)]
            written(m, u).contains_key(reset_key(t)) == m.contains_key(reset_key(t))
            && (m.contains_key(reset_key(t)) ==> written(m, u)[reset_key(t)] == m[reset_key(t)]) by {
            lemma_key_spaces_disjoint(u.id, seq![], seq![], t);
            if let Some(t2) = u.email_verification_token {
                lemma_key_spaces_disjoint(u.id, seq![], t2@, t);
            }
        }
    }
    if let Some(t) = u.email_verification_token {
        lemma_key_spaces_disjoint(u.id, seq![], t@, seq![]);
    }
    if let Some(t) = u.password_reset_token {
        lemma_key_spaces_disjoint(u.id, seq![], seq![], t@);
    }
}

/// An account found through an index entry is found again through it after
/// the account is rewritten, in its new form.
proof fn lemma_resolve_after_write(m: Map<Seq<u8>, Record>, k: Seq<u8>, u: User, v: User)
    requires
        accounts_keyed(m),
        resolve(m, k) == Ok::<Option<User>, AuthError>(Some(u)),
        v.id == u.id,
        written(m, v).contains_key(k) == m.contains_key(k),
        m.contains_key(k) ==> written(m, v)[k] == m[k],
    ensures
        resolve(written(m, v), k) == Ok::<Option<User>, AuthError>(Some(v)),
{
    lemma_written_keys(m, v);
    let id0 = m[k]->UserRef_0;
    assert(m.contains_key(user_key(id0)));
    assert(user_key(id0) == user_key(u.id));
}

/// Registration then login: an account created fresh, with a hash that
/// verifies against the passphrase, passes the login checks for that email
/// and passphrase, without a one-time code; and the claims of an access
/// token issued to it at login check back to its identifier for as long as
/// the token lives.
pub proof fn lemma_register_then_login(
    m: Map<Seq<u8>, Record>,
    u: User,
    passphrase: Seq<char>,
    created_at: i64,
    now: i64,
)
    requires
        !m.contains_key(email_key(u.email@)),
        is_fresh_user(u, u.id, u.email@, u.passphrase_hash@, created_at),
        verification_outcome(passphrase, u.passphrase_hash@) == Ok::<bool, AuthError>(true),
    ensures
        login_check(created(m, u), u.email@, passphrase, None, now) == Ok::<User, AuthError>(u),
        forall|c: ClaimsView, t: i64|
            issued_claims(c, u.id, access_tag(), ACCESS_TOKEN_DURATION, now) && t <= now + ACCESS_TOKEN_DURATION
                ==> #[trigger] claims_outcome(c, access_tag(), t) == Ok::<u128, AuthError>(u.id),
{
    lemma_key_spaces_disjoint(u.id, u.email@, seq![], seq![]);
    let m2 = created(m, u);
    assert(m2[email_key(u.email@)] == Record::UserRef(u.id));
    assert(m2[user_key(u.id)] == Record::Account(u));
    assert(account_of(m2, u.id) == Ok::<Option<User>, AuthError>(Some(u)));
    assert(!locked_at(u, now));
}

/// A registered email cannot be registered again: after an account is
/// created its email is indexed, which the next creation with that email
/// refuses.
pub proof fn lemma_email_taken_after_create(m: Map<Seq<u8>, Record>, u: User, v: User)
    requires
        v.email@ == u.email@,
    ensures
        created(m, u).contains_key(email_key(v.email@)),
{
    lemma_key_spaces_disjoint(u.id, u.email@, seq![], seq![]);
    if let Some(t) = u.email_verification_token {
        lemma_key_spaces_disjoint(u.id, u.email@, t@, seq![]);
    }
}

/// Creating an account leaves no dangling index entry.
pub proof fn lemma_create_keeps_indices(m: Map<Seq<u8>, Record>, u: User)
    requires
        indices_resolve(m),
    ensures
        indices_resolve(created(m, u)),
{
    let m2 = created(m, u);
    lemma_key_spaces_disjoint(u.id, u.email@, seq![], seq![]);
    if let Some(t) = u.email_verification_token {
        lemma_key_spaces_disjoint(u.id, u.email@, t@, seq![]);
    }
    assert forall|k: Seq<u8>| #[trigger] m2.contains_key(k) && m2[k] is UserRef implies m2.contains_key(
        user_key(m2[k]->UserRef_0),
    ) && m2[user_key(m2[k]->UserRef_0)] is Account by {
        let id = m2[k]->UserRef_0;
        if id != u.id && m.contains_key(k) && k != email_key(u.email@) && (u.email_verification_token matches Some(t) ==> k != verify_key(t@)) {
            assert(m[k] == m2[k]);
            assert(m.contains_key(user_key(id)));
            if let Some(t) = u.email_verification_token {
                lemma_key_spaces_disjoint(id, u.email@, t@, seq![]);
            } else {
                lemma_key_spaces_disjoint(id, u.email@, seq![], seq![]);
            }
        }
    }
}

/// Rewriting an account leaves no dangling index entry either: entries of
/// tokens that it no longer holds still refer to a stored account.
pub proof fn lemma_write_keeps_indices(m: Map<Seq<u8>, Record>, u: User)
    requires
        indices_resolve(m),
    ensures
        indices_resolve(written(m, u)),
{
    let m2 = written(m, u);
    assert forall|k: Seq<u8>| #[trigger] m2.contains_key(k) && m2[k] is UserRef implies m2.contains_key(
        user_key(m2[k]->UserRef_0),
    ) && m2[user_key(m2[k]->UserRef_0)] is Account by {
        let id = m2[k]->UserRef_0;
        let t1 = match u.email_verification_token {
            Some(t) => t@,
            None => seq![],
        };
        let t2 = match u.password_reset_token {
            Some(t) => t@,
            None => seq![],
        };
        lemma_key_spaces_disjoint(id, seq![], t1, t2);
        lemma_key_spaces_disjoint(u.id, seq![], t1, t2);
        if id != u.id {
            assert(m.contains_key(k) && m[k] == m2[k]);
            assert(m.contains_key(user_key(id)));
        }
    }
}

/// A wrong passphrase counts: the login is refused with `InvalidCredentials`
/// and the account, found again by its email, holds one more failed attempt.
pub proof fn lemma_wrong_passphrase_counts(m: Map<Seq<u8>, Record>, email: Seq<char>, passphrase: Seq<char>, now: i64)
    requires
        accounts_keyed(m),
        login_account(m, email, now) is Ok,
        verification_outcome(passphrase, login_account(m, email, now)->Ok_0.passphrase_hash@) == Ok::<bool, AuthError>(false),
    ensures
        login_check(m, email, passphrase, None, now) == Err::<User, AuthError>(AuthError::InvalidCredentials),
        resolve(after_rejected_login(m, email, passphrase, now), email_key(email)) == Ok::<Option<User>, AuthError>(
            Some(after_failed_login(login_account(m, email, now)->Ok_0, now)),
        ),
        login_account(m, email, now)->Ok_0.failed_login_attempts < u32::MAX ==> after_failed_login(
            login_account(m, email, now)->Ok_0,
            now,
        ).failed_login_attempts == login_account(m, email, now)->Ok_0.failed_login_attempts + 1,
{
    let u = login_account(m, email, now)->Ok_0;
    lemma_written_keys(m, after_failed_login(u, now));
    lemma_resolve_after_write(m, email_key(email), u, after_failed_login(u, now));
}

/// Lockout: once a failed attempt brings the count to five, a login is
/// refused with `RateLimitExceeded`, whatever passphrase and code it carries,
/// while the last successful login is less than the lockout period ago, and
/// at any time when the account never logged in successfully.
pub proof fn lemma_fifth_failure_locks(
    m: Map<Seq<u8>, Record>,
    email: Seq<char>,
    wrong: Seq<char>,
    passphrase: Seq<char>,
    code: Option<Seq<char>>,
    now: i64,
    later: i64,
)
    requires
        accounts_keyed(m),
        login_account(m, email, now) is Ok,
        login_account(m, email, now)->Ok_0.failed_login_attempts == MAX_FAILED_ATTEMPTS - 1,
        verification_outcome(wrong, login_account(m, email, now)->Ok_0.passphrase_hash@) == Ok::<bool, AuthError>(false),
        match login_account(m, email, now)->Ok_0.last_login {
            Some(t) => later < t + LOCKOUT_SECONDS,
            None => true,
        },
    ensures
        login_check(after_rejected_login(m, email, wrong, now), email, passphrase, code, later)
            == Err::<User, AuthError>(AuthError::RateLimitExceeded),
{
    lemma_wrong_passphrase_counts(m, email, wrong, now);
}

/// A refresh token is no access token.
pub proof fn lemma_refresh_is_not_access(c: ClaimsView, now: i64)
    requires
        c.4 == refresh_tag(),
    ensures
        claims_outcome(c, access_tag(), now) == Err::<u128, AuthError>(AuthError::InvalidToken),
{
    assert(refresh_tag()[0] != access_tag()[0]);
}

/// A token whose claims say `refresh` fails verification as an access token.
pub proof fn lemma_refresh_token_refused_as_access(public_key: Seq<u8>, token: Seq<char>, now: i64)
    requires
        jwt_decoding(public_key, token) matches Some(c) && c.4 == refresh_tag(),
    ensures
        token_outcome(public_key, token, access_tag(), now) == Err::<u128, AuthError>(AuthError::InvalidToken),
{
    lemma_refresh_is_not_access(jwt_decoding(public_key, token)->Some_0, now);
}

/// An expired token fails verification, whatever type is expected.
pub proof fn lemma_expired_token_refused(public_key: Seq<u8>, token: Seq<char>, kind: Seq<char>, now: i64)
    requires
        jwt_decoding(public_key, token) matches Some(c) && now > c.1,
    ensures
        token_outcome(public_key, token, kind, now) == Err::<u128, AuthError>(AuthError::InvalidToken),
{
}

/// The code of the current step is accepted.
pub proof fn lemma_current_code_accepted(secret: Seq<u8>, now: i64)
    requires
        now >= 0,
    ensures
        code_accepted(secret, code_at_step(secret, (now as int) / (TOTP_STEP as int)), now),
{
}

/// A code that is none of the codes of the current step and its two
/// neighbours is refused; codes two or more steps away are refused unless
/// they coincide with one of those three.
pub proof fn lemma_code_outside_window_refused(secret: Seq<u8>, code: Seq<char>, now: i64)
    requires
        code != code_at_step(secret, (now as int) / (TOTP_STEP as int) - 1),
        code != code_at_step(secret, (now as int) / (TOTP_STEP as int)),
        code != code_at_step(secret, (now as int) / (TOTP_STEP as int) + 1),
    ensures
        !code_accepted(secret, code, now),
{
}

/// Enabling two factors needs a stored secret: without one it is refused.
pub proof fn lemma_enable_needs_secret(m: Map<Seq<u8>, Record>, id: u128, code: Seq<char>, now: i64)
    requires
        existing_account(m, id) matches Ok(u) && u.totp_secret is None,
    ensures
        enable_outcome(m, id, code, now) == Err::<User, AuthError>(AuthError::AuthenticationError),
{
}

/// A reset token past its expiry is refused with `TokenExpired`.
pub proof fn lemma_reset_token_expired(m: Map<Seq<u8>, Record>, token: Seq<char>, now: i64)
    requires
        resolve(m, reset_key(token)) matches Ok(Some(u)) && u.password_reset_expires matches Some(x) && x < now,
    ensures
        reset_account(m, token, now) == Err::<User, AuthError>(AuthError::TokenExpired),
{
}

/// An unknown reset token is refused with `InvalidToken`.
pub proof fn lemma_reset_token_unknown(m: Map<Seq<u8>, Record>, token: Seq<char>, now: i64)
    requires
        !m.contains_key(reset_key(token)),
    ensures
        reset_account(m, token, now) == Err::<User, AuthError>(AuthError::InvalidToken),
{
}

/// A completed reset uses its token up: presenting it again is refused with
/// `InvalidToken`.
pub proof fn lemma_reset_token_single_use(
    m: Map<Seq<u8>, Record>,
    token: Seq<char>,
    v: User,
    now: i64,
    later: i64,
)
    requires
        accounts_keyed(m),
        reset_account(m, token, now) is Ok,
        is_after_reset(reset_account(m, token, now)->Ok_0, v, now),
    ensures
        reset_account(written(m, v), token, later) == Err::<User, AuthError>(AuthError::InvalidToken),
{
    let u = reset_account(m, token, now)->Ok_0;
    lemma_written_keys(m, v);
    lemma_resolve_after_write(m, reset_key(token), u, v);
}

} // verus!
