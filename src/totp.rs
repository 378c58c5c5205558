use vstd::prelude::*;
use vstd::string::*;
use rand::RngCore;
use crate::ambient::now_timestamp;
use crate::error::{text_result, AuthError};
use crate::model::valid_time;

verus! {

/// Digits of a one-time code.
pub const TOTP_DIGITS: usize = 6;

/// Seconds per time step.
pub const TOTP_STEP: u64 = 30;

/// Bytes of a freshly generated shared secret.
pub const SECRET_BYTES: usize = 32;

/// Fewest secret bytes that a one-time code may be derived from (128 bits).
pub const MIN_SECRET_BYTES: usize = 16;

/// RFC 4648 base32 text, with padding, of some bytes.
pub uninterp spec fn base32_text(bytes: Seq<u8>) -> Seq<char>;

/// The bytes that an RFC 4648 base32 text with padding decodes to, if any.
pub uninterp spec fn base32_bytes(text: Seq<char>) -> Option<Seq<u8>>;

/// The HMAC-SHA-1 one-time code of `secret` with `digits` digits, for the
/// step of length `step` that holds the instant `time`.
pub uninterp spec fn totp_code(secret: Seq<u8>, digits: usize, step: u64, time: u64) -> Seq<char>;

/// The `otpauth://` enrollment URI of a secret, or none if the secret is
/// shorter than 128 bits or a label holds a colon.
pub uninterp spec fn totp_uri(secret: Seq<u8>, issuer: Seq<char>, account: Seq<char>) -> Option<Seq<char>>;

/// Relies on rand::thread_rng and RngCore::fill_bytes: `n` random bytes.
/// The thread generator does not fail.
#[verifier::external_body]
fn random_bytes(n: usize) -> (r: Vec<u8>)
    ensures
        r@.len() == n,
{
    let mut v = vec![0u8; n];
    rand::thread_rng().fill_bytes(&mut v);
    v
}

/// Relies on base32::encode with the padded RFC 4648 alphabet: eight
/// characters for each started group of five bytes, which base32::decode
/// reads back.
#[verifier::external_body]
fn base32_encode(bytes: &[u8]) -> (r: String)
    ensures
        r@ == base32_text(bytes@),
        r@.len() == (bytes@.len() + 4) / 5 * 8,
        base32_bytes(r@) == Some(bytes@),
{
    base32::encode(base32::Alphabet::RFC4648 { padding: true }, bytes)
}

/// Relies on base32::decode with the padded RFC 4648 alphabet.
#[verifier::external_body]
fn base32_decode(text: &str) -> (r: Option<Vec<u8>>)
    ensures
        r matches Some(v) ==> base32_bytes(text@) == Some(v@),
        r is None ==> base32_bytes(text@) is None,
{
    base32::decode(base32::Alphabet::RFC4648 { padding: true }, text)
}

/// Relies on totp_rs::TOTP::generate with SHA-1: the code of the step that
/// holds `time`, written as `digits` decimal digits with leading zeros.
#[verifier::external_body]
fn totp_generate(secret: &Vec<u8>, digits: usize, step: u64, time: u64) -> (r: String)
    requires
        1 <= digits <= 9,
        step > 0,
    ensures
        r@ == totp_code(secret@, digits, step, time),
        r@.len() == digits,
        forall|i: int| 0 <= i < r@.len() ==> '0' <= #[trigger] r@[i] <= '9',
{
    let totp = totp_rs::TOTP::new_unchecked(
        totp_rs::Algorithm::SHA1, digits, 0, step, secret.clone(), None, String::new());
    totp.generate(time)
}

/// Relies on totp_rs::TOTP::new, which refuses a secret under 16 bytes and a
/// label that holds a colon (six digits pass its digit check), and
/// TOTP::get_url, which writes the URI.
#[verifier::external_body]
fn totp_get_url(secret: &Vec<u8>, issuer: &str, account: &str) -> (r: Option<String>)
    ensures
        r matches Some(u) ==> totp_uri(secret@, issuer@, account@) == Some(u@),
        r is None ==> totp_uri(secret@, issuer@, account@) is None,
        r matches Some(u) ==> secret@.len() >= MIN_SECRET_BYTES && !has_colon(issuer@) && !has_colon(account@),
        r is None ==> secret@.len() < MIN_SECRET_BYTES || has_colon(issuer@) || has_colon(account@),
{
    totp_rs::TOTP::new(totp_rs::Algorithm::SHA1, TOTP_DIGITS, 1, TOTP_STEP, secret.clone(),
        Some(issuer.to_string()), account.to_string()).ok().map(|t| t.get_url())
}

/// Whether a text holds a colon.
pub open spec fn has_colon(s: Seq<char>) -> bool {
    exists|i: int| 0 <= i < s.len() && s[i] == ':'
}

/// The code of step number `s`.
pub open spec fn code_at_step(secret: Seq<u8>, s: int) -> Seq<char> {
    totp_code(secret, TOTP_DIGITS, TOTP_STEP, (s * TOTP_STEP) as u64)
}

/// A code is accepted at `now` when it is the code of the current step or of
/// a step next to it. Steps are counted from the Unix epoch (RFC 6238): no
/// step holds an instant before it.
pub open spec fn code_accepted(secret: Seq<u8>, code: Seq<char>, now: i64) -> bool {
    let s = (now as int) / (TOTP_STEP as int);
    now >= 0 && ((s >= 1 && code == code_at_step(secret, s - 1)) || code == code_at_step(secret, s)
        || code == code_at_step(secret, s + 1))
}

/// What checking `code` against the base32 `secret` at `now` yields: an
/// internal error when the secret does not decode or is too short.
pub open spec fn code_check(secret: Seq<char>, code: Seq<char>, now: i64) -> Result<bool, AuthError> {
    match base32_bytes(secret) {
        None => Err(AuthError::InternalError),
        Some(b) => if b.len() < MIN_SECRET_BYTES {
            Err(AuthError::InternalError)
        } else {
            Ok(code_accepted(b, code, now))
        },
    }
}

/// What building the enrollment URI of the base32 `secret` yields.
pub open spec fn uri_outcome(secret: Seq<char>, account: Seq<char>) -> Result<Seq<char>, AuthError> {
    match base32_bytes(secret) {
        None => Err(AuthError::InternalError),
        Some(b) => match totp_uri(b, issuer_name(), account) {
            Some(u) => Ok(u),
            None => Err(AuthError::InternalError),
        },
    }
}

/// The issuer named in enrollment URIs: `Selfie`.
pub open spec fn issuer_name() -> Seq<char> {
    seq!['S', 'e', 'l', 'f', 'i', 'e']
}

/// Shared-secret generation and time-based one-time codes.
pub struct TotpService;

impl TotpService {
    pub fn new() -> (r: TotpService) {
        TotpService
    }

    /// A new shared secret: 32 random bytes, as 56 characters of base32
    /// text that decode back to them.
    pub fn generate_secret(&self) -> (r: Result<String, AuthError>)
        ensures
            r matches Ok(s) && s@.len() == 56 && exists|b: Seq<u8>|
                b.len() == SECRET_BYTES && s@ == base32_text(b) && base32_bytes(s@) == Some(b),
    {
        let b = random_bytes(SECRET_BYTES);
        let s = base32_encode(b.as_slice());
        assert(base32_bytes(s@) == Some(b@));
        Ok(s)
    }

    /// The enrollment URI of `secret` for the account `account_name`.
    pub fn generate_provisioning_uri(&self, secret: &str, account_name: &str) -> (r: Result<String, AuthError>)
        ensures
            text_result(r) == uri_outcome(secret@, account_name@),
            base32_bytes(secret@) matches Some(b) ==> (r is Ok <==> b.len() >= MIN_SECRET_BYTES && !has_colon(
                account_name@,
            )),
    {
        let issuer = String::from_str("Selfie");
        proof {
            reveal_strlit("Selfie");
            assert(issuer@ =~= issuer_name());
            assert(!has_colon(issuer@));
        }
        match base32_decode(secret) {
            None => Err(AuthError::InternalError),
            Some(b) => match totp_get_url(&b, issuer.as_str(), account_name) {
                Some(u) => Ok(u),
                None => Err(AuthError::InternalError),
            },
        }
    }

    /// The code of the step that holds `now`, for the base32 `secret`. Steps
    /// are counted from the Unix epoch (RFC 6238), so no step holds an
    /// instant before it.
    pub fn code_at(&self, secret: &str, now: i64) -> (r: Result<String, AuthError>)
        requires
            valid_time(now),
        ensures
            r matches Ok(c) ==> base32_bytes(secret@) matches Some(b) && now >= 0 && c@ == code_at_step(
                b,
                (now as int) / (TOTP_STEP as int),
            ),
            r is Err ==> base32_bytes(secret@) is None || now < 0,
            base32_bytes(secret@) is Some && now >= 0 ==> r is Ok,
    {
        if now < 0 {
            return Err(AuthError::InternalError);
        }
        match base32_decode(secret) {
            None => Err(AuthError::InternalError),
            Some(b) => {
                let s: u64 = (now as u64) / TOTP_STEP;
                Ok(totp_generate(&b, TOTP_DIGITS, TOTP_STEP, s * TOTP_STEP))
            },
        }
    }

    /// Checks `code` against the base32 `secret` at `now`, accepting the
    /// current step and one step on either side.
    pub fn verify_code_at(&self, secret: &str, code: &str, now: i64) -> (r: Result<bool, AuthError>)
        requires
            valid_time(now),
        ensures
            r == code_check(secret@, code@, now),
    {
        let b = match base32_decode(secret) {
            None => return Err(AuthError::InternalError),
            Some(b) => b,
        };
        if b.len() < MIN_SECRET_BYTES {
            return Err(AuthError::InternalError);
        }
        if now < 0 {
            return Ok(false);
        }
        let given = String::from_str(code);
        let s: u64 = (now as u64) / TOTP_STEP;
        if s >= 1 && totp_generate(&b, TOTP_DIGITS, TOTP_STEP, (s - 1) * TOTP_STEP) == given {
            return Ok(true);
        }
        if totp_generate(&b, TOTP_DIGITS, TOTP_STEP, s * TOTP_STEP) == given {
            return Ok(true);
        }
        Ok(totp_generate(&b, TOTP_DIGITS, TOTP_STEP, (s + 1) * TOTP_STEP) == given)
    }

    /// Checks `code` against the base32 `secret` at the current time.
    pub fn verify_code(&self, secret: &str, code: &str) -> (r: Result<bool, AuthError>)
        ensures
            exists|t: i64| valid_time(t) && r == code_check(secret@, code@, t),
    {
        let now = now_timestamp();
        self.verify_code_at(secret, code, now)
    }
}

} // verus!
