use vstd::prelude::*;
use argon2::password_hash::rand_core::OsRng;
use argon2::password_hash::{PasswordHash, PasswordHasher, PasswordVerifier, SaltString};
use argon2::Argon2;
use crate::error::AuthError;

verus! {

/// Lowest strength score that a passphrase must reach.
pub const MIN_SCORE: u8 = 3;

/// Fewest estimated guesses that a passphrase must need: fifty bits of entropy.
pub const MIN_GUESSES: u64 = 1125899906842624;

/// Longest passphrase, in UTF-8 bytes, that Argon2 accepts.
pub const MAX_PASSPHRASE_BYTES: usize = 0xffff_ffff;

/// A passphrase short enough for Argon2 to hash.
pub open spec fn hashable(passphrase: Seq<char>) -> bool {
    vstd::utf8::encode_utf8(passphrase).len() <= MAX_PASSPHRASE_BYTES
}

/// Score and estimated guess count of a passphrase, given the user's own words.
pub uninterp spec fn strength_of(passphrase: Seq<char>, context: Seq<char>) -> (u8, u64);

/// Whether a passphrase matches a PHC hash string; none if the string does
/// not parse.
pub uninterp spec fn argon2_verdict(passphrase: Seq<char>, hash: Seq<char>) -> Option<bool>;

/// Relies on zxcvbn::zxcvbn: it refuses a blank passphrase, may fail when it
/// cannot time itself, and otherwise returns a score from 0 to 4 and a guess
/// count that depend on its arguments alone.
#[verifier::external_body]
fn zxcvbn_estimate(passphrase: &str, context: &str) -> (r: Option<(u8, u64)>)
    ensures
        passphrase@.len() == 0 ==> r is None,
        r matches Some(e) ==> e == strength_of(passphrase@, context@) && e.0 <= 4,
{
    zxcvbn::zxcvbn(passphrase, &[context]).ok().map(|e| (e.score(), e.guesses()))
}

/// Relies on argon2's PasswordHasher::hash_password (Argon2id, default
/// parameters) with a fresh 16-byte salt from OsRng: a PHC string that
/// PasswordVerifier::verify_password accepts for the same passphrase. With a
/// valid salt it fails only on a password longer than MAX_PWD_LEN bytes.
#[verifier::external_body]
fn argon2_hash(passphrase: &str) -> (r: Option<String>)
    ensures
        r matches Some(h) ==> argon2_verdict(passphrase@, h@) == Some(true),
        hashable(passphrase@) ==> r is Some,
{
    let salt = SaltString::generate(&mut OsRng);
    Argon2::default().hash_password(passphrase.as_bytes(), &salt).ok().map(|h| h.to_string())
}

/// Relies on PasswordHash::new, which parses a PHC string, and on Argon2's
/// PasswordVerifier::verify_password, which recomputes and compares.
#[verifier::external_body]
fn argon2_verify(passphrase: &str, hash: &str) -> (r: Option<bool>)
    ensures
        r == argon2_verdict(passphrase@, hash@),
{
    let parsed = PasswordHash::new(hash).ok()?;
    Some(Argon2::default().verify_password(passphrase.as_bytes(), &parsed).is_ok())
}

/// The strength rule on a score and a guess count.
pub open spec fn is_strong(score: u8, guesses: u64) -> bool {
    score >= MIN_SCORE && guesses >= MIN_GUESSES
}

/// A passphrase is strong enough: not blank, and its estimate meets the rule.
pub open spec fn strong_passphrase(passphrase: Seq<char>, context: Seq<char>) -> bool {
    passphrase.len() > 0 && is_strong(strength_of(passphrase, context).0, strength_of(passphrase, context).1)
}

/// What verifying a passphrase against a stored hash yields.
pub open spec fn verification_outcome(passphrase: Seq<char>, hash: Seq<char>) -> Result<bool, AuthError> {
    match argon2_verdict(passphrase, hash) {
        Some(b) => Ok(b),
        None => Err(AuthError::InternalError),
    }
}

/// Applies the strength rule to an estimate.
pub fn meets_strength(score: u8, guesses: u64) -> (r: bool)
    ensures
        r == is_strong(score, guesses),
{
    score >= MIN_SCORE && guesses >= MIN_GUESSES
}

/// Rejects a passphrase that is blank or too weak, with `message` as the
/// reason; `context` is the user's email, which the estimate discounts. An
/// estimator that fails on a passphrase that is not blank gives an internal
/// error.
pub fn check_strength(passphrase: &str, context: &str, message: String) -> (r: Result<(), AuthError>)
    ensures
        r is Ok ==> strong_passphrase(passphrase@, context@),
        !strong_passphrase(passphrase@, context@) ==> r is Err,
        r is Err ==> r == Err::<(), AuthError>(AuthError::WeakPassphrase(message)) && !strong_passphrase(
            passphrase@,
            context@,
        ) || r == Err::<(), AuthError>(AuthError::InternalError),
        passphrase@.len() == 0 ==> r == Err::<(), AuthError>(AuthError::WeakPassphrase(message)),
{
    if passphrase.is_empty() {
        return Err(AuthError::WeakPassphrase(message));
    }
    match zxcvbn_estimate(passphrase, context) {
        Some(e) => {
            if meets_strength(e.0, e.1) {
                Ok(())
            } else {
                Err(AuthError::WeakPassphrase(message))
            }
        },
        None => Err(AuthError::InternalError),
    }
}

/// Hashes a passphrase with a fresh random salt. A hash that comes back
/// verifies against the same passphrase; only a passphrase too long for
/// Argon2 fails.
pub fn hash_passphrase(passphrase: &str) -> (r: Result<String, AuthError>)
    ensures
        hashable(passphrase@) ==> r is Ok,
        r matches Ok(h) ==> verification_outcome(passphrase@, h@) == Ok::<bool, AuthError>(true),
        r is Err ==> r == Err::<String, AuthError>(AuthError::InternalError),
{
    match argon2_hash(passphrase) {
        Some(h) => Ok(h),
        None => Err(AuthError::InternalError),
    }
}

/// Whether `passphrase` matches the stored `hash`; an internal error when
/// the hash does not parse.
pub fn verify_passphrase(passphrase: &str, hash: &str) -> (r: Result<bool, AuthError>)
    ensures
        r == verification_outcome(passphrase@, hash@),
{
    match argon2_verify(passphrase, hash) {
        Some(b) => Ok(b),
        None => Err(AuthError::InternalError),
    }
}

} // verus!
