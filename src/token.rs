use vstd::prelude::*;
use vstd::string::*;
use ed25519_dalek::Signer;
use crate::ambient::{identifier_text, new_identifier, uuid_parse, uuid_text};
use crate::error::AuthError;
use crate::model::valid_time;

verus! {

/// Lifetime of an access token, in seconds.
pub const ACCESS_TOKEN_DURATION: i64 = 900;

/// Lifetime of a refresh token, in seconds.
pub const REFRESH_TOKEN_DURATION: i64 = 2592000;

/// The claims of a token: subject, expiry, issue time, token id, type tag.
pub type ClaimsView = (Seq<char>, i64, i64, Seq<char>, Seq<char>);

/// The claims carried by a signed token.
#[derive(Debug)]
pub struct Claims {
    pub sub: String,
    pub exp: i64,
    pub iat: i64,
    pub jti: String,
    pub token_type: String,
}

impl View for Claims {
    type V = ClaimsView;

    open spec fn view(&self) -> ClaimsView {
        (self.sub@, self.exp, self.iat, self.jti@, self.token_type@)
    }
}

/// The compact JWT, EdDSA-signed with a PKCS#8 key, of some claims.
pub uninterp spec fn jwt_encoding(key: Seq<u8>, claims: ClaimsView) -> Option<Seq<char>>;

/// The claims of a compact JWT whose EdDSA signature the public key accepts,
/// if it carries all of them.
pub uninterp spec fn jwt_decoding(public_key: Seq<u8>, token: Seq<char>) -> Option<ClaimsView>;

/// The Ed25519 public key of a 32-byte secret seed.
pub uninterp spec fn ed25519_public(seed: Seq<u8>) -> Seq<u8>;

/// The Ed25519 signature of a message under a 32-byte secret seed.
pub uninterp spec fn ed25519_signature(seed: Seq<u8>, message: Seq<u8>) -> Seq<u8>;

/// Whether a public key accepts a signature of a message, by the strict rules.
pub uninterp spec fn ed25519_accepts(public_key: Seq<u8>, message: Seq<u8>, signature: Seq<u8>) -> bool;

/// Relies on ed25519_dalek::SigningKey::generate with OsRng: a random seed.
#[verifier::external_body]
fn generate_seed() -> (r: [u8; 32]) {
    ed25519_dalek::SigningKey::generate(&mut rand::rngs::OsRng).to_bytes()
}

/// Relies on ed25519_dalek::SigningKey::verifying_key: the public key of a seed.
#[verifier::external_body]
fn public_key_of(seed: &[u8; 32]) -> (r: [u8; 32])
    ensures
        r@ == ed25519_public(seed@),
{
    ed25519_dalek::SigningKey::from_bytes(seed).verifying_key().to_bytes()
}

/// Relies on ed25519_dalek's Signer::sign: a deterministic 64-byte signature,
/// which verify_strict accepts under the seed's public key.
#[verifier::external_body]
fn ed25519_sign(seed: &[u8; 32], message: &[u8]) -> (r: Vec<u8>)
    ensures
        r@ == ed25519_signature(seed@, message@),
        r@.len() == 64,
        ed25519_accepts(ed25519_public(seed@), message@, r@),
{
    ed25519_dalek::SigningKey::from_bytes(seed).sign(message).to_bytes().to_vec()
}

/// Relies on ed25519_dalek::VerifyingKey::verify_strict, after
/// VerifyingKey::from_bytes and Signature::from_slice, either of which may
/// refuse its bytes.
#[verifier::external_body]
fn ed25519_verify(public_key: &[u8; 32], message: &[u8], signature: &[u8]) -> (r: bool)
    ensures
        r == ed25519_accepts(public_key@, message@, signature@),
{
    let Ok(key) = ed25519_dalek::VerifyingKey::from_bytes(public_key) else { return false };
    let Ok(sig) = ed25519_dalek::Signature::from_slice(signature) else { return false };
    key.verify_strict(message, &sig).is_ok()
}

/// Relies on jsonwebtoken::encode with an EdDSA header and
/// EncodingKey::from_ed_der: the claims as a JSON object, signed. Strings and
/// integers always serialise, and ring's Ed25519KeyPair::from_pkcs8_maybe_unchecked
/// takes any version-1 PKCS#8 frame of a 32-byte seed, so such a key always
/// signs.
#[verifier::external_body]
fn jwt_encode(key: &[u8], sub: &str, exp: i64, iat: i64, jti: &str, token_type: &str) -> (r: Option<String>)
    ensures
        r matches Some(t) ==> jwt_encoding(key@, (sub@, exp, iat, jti@, token_type@)) == Some(t@),
        r is None ==> jwt_encoding(key@, (sub@, exp, iat, jti@, token_type@)) is None,
        key@.len() == 48 && key@.take(16) == pkcs8_prefix() ==> r is Some,
{
    let claims = std::collections::BTreeMap::from([("sub", serde_json::Value::from(sub)),
        ("exp", exp.into()), ("iat", iat.into()), ("jti", jti.into()), ("type", token_type.into())]);
    let header = jsonwebtoken::Header::new(jsonwebtoken::Algorithm::EdDSA);
    jsonwebtoken::encode(&header, &claims, &jsonwebtoken::EncodingKey::from_ed_der(key)).ok()
}

/// Relies on jsonwebtoken::decode with EdDSA and DecodingKey::from_ed_der,
/// with the expiry left to the caller: the claims of a token whose signature
/// holds. A token that jsonwebtoken::encode made with the PKCS#8 frame of a
/// seed decodes, under that seed's public key, to the claims it was made
/// from, provided the expiry reads as the unsigned number that the
/// required-claim check parses (validation.rs, ClaimsForValidation).
#[verifier::external_body]
fn jwt_decode(public_key: &[u8], token: &str) -> (r: Option<(String, i64, i64, String, String)>)
    ensures
        r matches Some(c) ==> jwt_decoding(public_key@, token@) == Some((c.0@, c.1, c.2, c.3@, c.4@)),
        r is None ==> jwt_decoding(public_key@, token@) is None,
        r is None ==> forall|seed: Seq<u8>, c: ClaimsView|
            #![trigger jwt_encoding(pkcs8_prefix() + seed, c), ed25519_public(seed)]
            !(seed.len() == 32 && public_key@ == ed25519_public(seed) && c.1 >= 0 && jwt_encoding(
                pkcs8_prefix() + seed,
                c,
            ) == Some(token@)),
        r matches Some(d) ==> forall|seed: Seq<u8>, c: ClaimsView|
            #![trigger jwt_encoding(pkcs8_prefix() + seed, c), ed25519_public(seed)]
            seed.len() == 32 && public_key@ == ed25519_public(seed) && c.1 >= 0 && jwt_encoding(
                pkcs8_prefix() + seed,
                c,
            ) == Some(token@) ==> (d.0@, d.1, d.2, d.3@, d.4@) == c,
{
    let mut validation = jsonwebtoken::Validation::new(jsonwebtoken::Algorithm::EdDSA);
    validation.validate_exp = false;
    validation.set_required_spec_claims(&["sub", "exp"]);
    let key = jsonwebtoken::DecodingKey::from_ed_der(public_key);
    let c = jsonwebtoken::decode::<serde_json::Value>(token, &key, &validation).ok()?.claims;
    Some((c["sub"].as_str()?.to_string(), c["exp"].as_i64()?, c["iat"].as_i64()?,
        c["jti"].as_str()?.to_string(), c["type"].as_str()?.to_string()))
}

/// The PKCS#8 (version 1) header of an Ed25519 private key.
pub open spec fn pkcs8_prefix() -> Seq<u8> {
    seq![48u8, 46u8, 2u8, 1u8, 0u8, 48u8, 5u8, 6u8, 3u8, 43u8, 101u8, 112u8, 4u8, 34u8, 4u8, 32u8]
}

/// Type tag of access tokens: `access`.
pub open spec fn access_tag() -> Seq<char> {
    seq!['a', 'c', 'c', 'e', 's', 's']
}

/// Type tag of refresh tokens: `refresh`.
pub open spec fn refresh_tag() -> Seq<char> {
    seq!['r', 'e', 'f', 'r', 'e', 's', 'h']
}

/// The claims of a token issued to `user_id` at `now`, with the given type
/// tag and lifetime, and some token id. The subject is the identifier's
/// text, which reads back to the identifier.
pub open spec fn issued_claims(c: ClaimsView, user_id: u128, tag: Seq<char>, lifetime: i64, now: i64) -> bool {
    &&& c.0 == uuid_text(user_id)
    &&& uuid_parse(c.0) == Some(user_id)
    &&& c.1 == now + lifetime
    &&& c.2 == now
    &&& c.4 == tag
}

/// `token` is the signed encoding, under `key`, of claims issued to
/// `user_id` at `now` with the given tag and lifetime.
pub open spec fn issued_token(key: Seq<u8>, token: Seq<char>, user_id: u128, tag: Seq<char>, lifetime: i64, now: i64) -> bool {
    exists|c: ClaimsView| issued_claims(c, user_id, tag, lifetime, now) && jwt_encoding(key, c) == Some(token)
}

/// What checking decoded claims for the `expected` type at `now` yields:
/// the subject's identifier, unless the token has expired, is of another
/// type, or names no identifier.
pub open spec fn claims_outcome(c: ClaimsView, expected: Seq<char>, now: i64) -> Result<u128, AuthError> {
    if now > c.1 {
        Err(AuthError::InvalidToken)
    } else if c.4 != expected {
        Err(AuthError::InvalidToken)
    } else {
        match uuid_parse(c.0) {
            Some(id) => Ok(id),
            None => Err(AuthError::InvalidToken),
        }
    }
}

/// What verifying `token` for the `expected` type at `now` yields.
pub open spec fn token_outcome(public_key: Seq<u8>, token: Seq<char>, expected: Seq<char>, now: i64) -> Result<u128, AuthError> {
    match jwt_decoding(public_key, token) {
        None => Err(AuthError::InvalidToken),
        Some(c) => claims_outcome(c, expected, now),
    }
}

/// Checks decoded claims for the `expected` type at `now`.
pub fn check_claims(claims: &Claims, expected_type: &str, now: i64) -> (r: Result<u128, AuthError>)
    ensures
        r == claims_outcome(claims@, expected_type@, now),
{
    if now > claims.exp {
        return Err(AuthError::InvalidToken);
    }
    if claims.token_type != String::from_str(expected_type) {
        return Err(AuthError::InvalidToken);
    }
    match crate::ambient::parse_identifier(claims.sub.as_str()) {
        Some(id) => Ok(id),
        None => Err(AuthError::InvalidToken),
    }
}

/// Issues and verifies signed access and refresh tokens, and signs opaque
/// byte strings, all with one Ed25519 key.
pub struct JwtService {
    seed: [u8; 32],
    public_key: [u8; 32],
    encoding_der: Vec<u8>,
}

impl JwtService {
    /// The secret seed.
    pub closed spec fn seed(&self) -> Seq<u8> {
        self.seed@
    }

    /// The PKCS#8 form of the secret key, which tokens are signed with.
    pub closed spec fn signing_key(&self) -> Seq<u8> {
        self.encoding_der@
    }

    /// The public key, which tokens and signatures are checked against.
    pub closed spec fn public_key(&self) -> Seq<u8> {
        self.public_key@
    }

    pub closed spec fn wf(&self) -> bool {
        &&& self.seed@.len() == 32
        &&& self.encoding_der@ == pkcs8_prefix() + self.seed@
        &&& self.public_key@ == ed25519_public(self.seed@)
    }

    /// A service with a freshly generated key.
    pub fn new() -> (r: Result<JwtService, AuthError>)
        ensures
            r matches Ok(s) && s.wf(),
    {
        Ok(JwtService::from_seed(generate_seed()))
    }

    /// A service whose key is given by its 32-byte secret seed.
    pub fn from_seed(seed: [u8; 32]) -> (r: JwtService)
        ensures
            r.wf(),
            r.seed() == seed@,
    {
        let mut der: Vec<u8> = vec![48u8, 46u8, 2u8, 1u8, 0u8, 48u8, 5u8, 6u8, 3u8, 43u8, 101u8, 112u8, 4u8, 34u8, 4u8, 32u8];
        let mut i: usize = 0;
        while i < 32
            invariant
                0 <= i <= 32,
                seed@.len() == 32,
                der@ == pkcs8_prefix() + seed@.take(i as int),
            decreases 32 - i,
        {
            der.push(seed[i]);
            assert(seed@.take(i + 1) == seed@.take(i as int).push(seed@[i as int]));
            i = i + 1;
        }
        assert(seed@.take(32) == seed@);
        let public_key = public_key_of(&seed);
        JwtService { seed, public_key, encoding_der: der }
    }

    fn issue(&self, user_id: u128, tag: &str, lifetime: i64, now: i64) -> (r: Result<String, AuthError>)
        requires
            self.wf(),
            valid_time(now),
            0 <= lifetime <= REFRESH_TOKEN_DURATION,
        ensures
            r matches Ok(t) && issued_token(self.signing_key(), t@, user_id, tag@, lifetime, now),
    {
        assert((pkcs8_prefix() + self.seed@).take(16) =~= pkcs8_prefix());
        let sub = identifier_text(user_id);
        let jti = identifier_text(new_identifier());
        let exp = now + lifetime;
        match jwt_encode(self.encoding_der.as_slice(), sub.as_str(), exp, now, jti.as_str(), tag) {
            Some(t) => {
                assert(issued_claims((sub@, exp, now, jti@, tag@), user_id, tag@, lifetime, now));
                Ok(t)
            },
            None => Err(AuthError::InternalError),
        }
    }

    /// An access token for `user_id`, issued at `now`.
    pub fn generate_access_token(&self, user_id: u128, now: i64) -> (r: Result<String, AuthError>)
        requires
            self.wf(),
            valid_time(now),
        ensures
            r matches Ok(t) && issued_token(self.signing_key(), t@, user_id, access_tag(), ACCESS_TOKEN_DURATION, now),
    {
        let tag = String::from_str("access");
        proof {
            reveal_strlit("access");
            assert(tag@ =~= access_tag());
        }
        self.issue(user_id, tag.as_str(), ACCESS_TOKEN_DURATION, now)
    }

    /// A refresh token for `user_id`, issued at `now`.
    pub fn generate_refresh_token(&self, user_id: u128, now: i64) -> (r: Result<String, AuthError>)
        requires
            self.wf(),
            valid_time(now),
        ensures
            r matches Ok(t) && issued_token(self.signing_key(), t@, user_id, refresh_tag(), REFRESH_TOKEN_DURATION, now),
    {
        let tag = String::from_str("refresh");
        proof {
            reveal_strlit("refresh");
            assert(tag@ =~= refresh_tag());
        }
        self.issue(user_id, tag.as_str(), REFRESH_TOKEN_DURATION, now)
    }

    /// The subject of `token` if it is a valid, unexpired token of type
    /// `expected_type` at `now`; `InvalidToken` otherwise. A token that this
    /// service issued to `id` with that type verifies to `id` until it
    /// expires.
    pub fn verify_token(&self, token: &str, expected_type: &str, now: i64) -> (r: Result<u128, AuthError>)
        requires
            self.wf(),
        ensures
            r == token_outcome(self.public_key(), token@, expected_type@, now),
            forall|id: u128, lifetime: i64, iat: i64|
                #[trigger] issued_token(self.signing_key(), token@, id, expected_type@, lifetime, iat)
                    && 0 <= iat + lifetime && now <= iat + lifetime ==> r == Ok::<u128, AuthError>(id),
    {
        let d = jwt_decode(&self.public_key, token);
        assert forall|id: u128, lifetime: i64, iat: i64|
            #[trigger] issued_token(self.signing_key(), token@, id, expected_type@, lifetime, iat)
                && 0 <= iat + lifetime && now <= iat + lifetime implies d matches Some(x) && (x.0@, x.1, x.2, x.3@, x.4@)
                == jwt_decoding(self.public_key(), token@)->Some_0 && claims_outcome(
                jwt_decoding(self.public_key(), token@)->Some_0,
                expected_type@,
                now,
            ) == Ok::<u128, AuthError>(id) by {
            let c = choose|c: ClaimsView|
                issued_claims(c, id, expected_type@, lifetime, iat) && jwt_encoding(self.signing_key(), c) == Some(token@);
            assert(jwt_encoding(pkcs8_prefix() + self.seed@, c) == Some(token@));
            assert(self.public_key@ == ed25519_public(self.seed@));
        }
        match d {
            None => Err(AuthError::InvalidToken),
            Some(c) => {
                let claims = Claims { sub: c.0, exp: c.1, iat: c.2, jti: c.3, token_type: c.4 };
                check_claims(&claims, expected_type, now)
            },
        }
    }

    /// The signature of `data` under the service's key.
    pub fn sign_data(&self, data: &[u8]) -> (r: Vec<u8>)
        requires
            self.wf(),
        ensures
            r@ == ed25519_signature(self.seed(), data@),
            r@.len() == 64,
            ed25519_accepts(self.public_key(), data@, r@),
    {
        ed25519_sign(&self.seed, data)
    }

    /// Whether `signature` is the service key's signature of `data`.
    pub fn verify_signature(&self, data: &[u8], signature: &[u8]) -> (r: bool)
        requires
            self.wf(),
        ensures
            r == ed25519_accepts(self.public_key(), data@, signature@),
    {
        ed25519_verify(&self.public_key, data, signature)
    }
}

} // verus!
