//! Token service: issues and validates signed, time-limited bearer tokens
//! encoding a subject identity, backed by the jsonwebtoken crate.
//!
//! A token asserts `{subject, expiration}`; it is stateless and lives for
//! a fixed window from issuance. The wall clock is never read here: every
//! function takes the evaluation time as an argument, so validity is a
//! function of the token, the secret and that time. The claims that a
//! token yields under a secret carry the name `decoded_claims`, and every
//! contract here speaks through it.

use vstd::prelude::*;

verus! {

/// Seconds a token stays valid after issuance.
pub const TOKEN_LIFETIME_SECONDS: u64 = 14400;

/// The claims that signature-checked decoding of `token` under `secret`
/// yields: `Some((subject, expiration))` when the token is well-formed and
/// its signature verifies under the secret, `None` otherwise. A pure
/// function of the two arguments: decoding checks only the token text
/// against the secret, with expiry checking disabled in the wrapper below
/// so that no clock takes part.
pub uninterp spec fn decoded_claims(token: Seq<char>, secret: Seq<char>) -> Option<
    (Seq<char>, u64),
>;

/// The token is accepted at time `now_seconds`: it decodes under the
/// secret and its expiration lies strictly in the future.
pub open spec fn token_accepted(token: Seq<char>, secret: Seq<char>, now_seconds: u64) -> bool {
    match decoded_claims(token, secret) {
        Some(claims) => now_seconds < claims.1,
        None => false,
    }
}

/// Relies on jsonwebtoken::encode (jsonwebtoken 11) with the default
/// HS256 header: it signs the serialized `{sub, exp}` claims with the
/// secret, and decoding the result under the same secret yields exactly
/// those claims. For an HMAC key and JSON-object claims no step of encode
/// can fail: the key family matches the header, HMAC accepts any key
/// length, and serialization of a string/integer object is infallible.
#[verifier::external_body]
fn encode_claims(subject: &str, expiration: u64, secret: &str) -> (token: String)
    ensures
        decoded_claims(token@, secret@) == Some((subject@, expiration)),
{
    let mut claims = serde_json::Map::new();
    claims.insert(String::from("sub"), serde_json::Value::from(subject));
    claims.insert(String::from("exp"), serde_json::Value::from(expiration));
    let key = jsonwebtoken::EncodingKey::from_secret(secret.as_bytes());
    let header = jsonwebtoken::Header::default();
    jsonwebtoken::encode(&header, &serde_json::Value::Object(claims), &key)
        .expect("HS256 signing of a JSON object cannot fail")
}

/// Relies on jsonwebtoken::decode (jsonwebtoken 11): it verifies the
/// HS256 signature against the secret and deserializes the claims; it
/// returns an error, never panics, on arbitrary malformed input. Expiry
/// validation is disabled so the result depends on the token and secret
/// alone; a token whose claims lack a subject or a numeric expiration is
/// treated as undecodable.
#[verifier::external_body]
fn decode_claims(token: &str, secret: &str) -> (r: Option<(String, u64)>)
    ensures
        r matches Some(claims) ==> decoded_claims(token@, secret@) == Some((claims.0@, claims.1)),
        r is None ==> decoded_claims(token@, secret@) is None,
{
    let key = jsonwebtoken::DecodingKey::from_secret(secret.as_bytes());
    let mut validation = jsonwebtoken::Validation::new(jsonwebtoken::Algorithm::HS256);
    validation.validate_exp = false;
    let data = jsonwebtoken::decode::<serde_json::Value>(token, &key, &validation).ok()?;
    let subject = data.claims.get("sub")?.as_str()?.to_string();
    let expiration = data.claims.get("exp")?.as_u64()?;
    Some((subject, expiration))
}

/// Issues a token for `email`, expiring a fixed lifetime after
/// `now_seconds`.
pub fn generate_token(jwt_secret: &str, email: &str, now_seconds: u64) -> (token: String)
    requires
        now_seconds + TOKEN_LIFETIME_SECONDS <= u64::MAX,
    ensures
        decoded_claims(token@, jwt_secret@) == Some(
            (email@, (now_seconds + TOKEN_LIFETIME_SECONDS) as u64),
        ),
{
    let expiration = now_seconds + TOKEN_LIFETIME_SECONDS;
    encode_claims(email, expiration, jwt_secret)
}

/// Signature and expiry check, total over arbitrary input strings: a
/// malformed, unsigned or expired token yields `false`, never an error.
pub fn valid_token(jwt_secret: &str, token: &str, now_seconds: u64) -> (valid: bool)
    ensures
        valid == token_accepted(token@, jwt_secret@, now_seconds),
{
    match decode_claims(token, jwt_secret) {
        Some(claims) => now_seconds < claims.1,
        None => false,
    }
}

/// The subject claim of a token already known to decode under the secret.
/// Callers must have confirmed validity first; the authorization path
/// does so before every call.
pub fn get_email_by_token(jwt_secret: &str, token: &str) -> (email: String)
    requires
        decoded_claims(token@, jwt_secret@) is Some,
    ensures
        email@ == decoded_claims(token@, jwt_secret@).unwrap().0,
{
    match decode_claims(token, jwt_secret) {
        Some(claims) => claims.0,
        None => vstd::pervasive::unreached(),
    }
}

/// A token whose claims assert an expiration one fixed lifetime past its
/// issuance time is accepted at issuance, and no longer accepted at any
/// time from that expiration on.
pub proof fn lemma_token_lifetime(
    token: Seq<char>,
    secret: Seq<char>,
    subject: Seq<char>,
    issued_at: u64,
    expiration: u64,
    later: u64,
)
    requires
        decoded_claims(token, secret) == Some((subject, expiration)),
        expiration == issued_at + TOKEN_LIFETIME_SECONDS,
        later >= expiration,
    ensures
        token_accepted(token, secret, issued_at),
        !token_accepted(token, secret, later),
{
}

} // verus!
