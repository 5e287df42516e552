//! JSON web tokens: the API's claims signed with HS256 under the server's
//! secret, and read back.

use vstd::prelude::*;
use crate::auth::Claims;
use crate::responses::{api_error, internal_error_res, is_error, utc_now, ApiError, ClockReading, UNAUTHORIZED};

verus! {

/// Errors of the `jsonwebtoken` crate.
#[verifier::external_type_specification]
#[verifier::external_body]
pub struct ExJsonWebTokenError(jsonwebtoken::errors::Error);

/// Claims as plain values: audience, issued at, issuer, subject, expiration.
pub type ClaimsView = (Seq<char>, usize, Seq<char>, Seq<char>, Option<usize>);

impl View for Claims {
    type V = ClaimsView;

    open spec fn view(&self) -> ClaimsView {
        (self.aud@, self.iat, self.iss@, self.sub@, self.exp)
    }
}

/// The token `jsonwebtoken::encode` gives for claims under an HS256
/// secret: a function of the claims and the secret alone.
pub uninterp spec fn jwt_token(claims: ClaimsView, secret: Seq<u8>) -> Seq<char>;

/// The claims a token carries when its header names HS256, its signature
/// is valid for the secret, and its payload is a JSON object, with no
/// member named twice, whose `aud`, `iss` and `sub` are strings, whose
/// `iat` is an unsigned integer and whose `exp` is absent, null or an
/// unsigned integer; `None` otherwise. This checks no time.
pub uninterp spec fn jwt_claims(token: Seq<char>, secret: Seq<u8>) -> Option<ClaimsView>;

/// Signs claims that carry the expiration `exp` as a JSON object, in field
/// order, with the default header (HS256) and the secret
/// (`jsonwebtoken::encode`, which cannot fail for an HMAC key and header).
/// A token so made carries exactly these claims under this secret.
#[verifier::external_body]
fn jwt_encode_with_exp(claims: &Claims, exp: usize, secret: &[u8]) -> (r: Result<String, jsonwebtoken::errors::Error>)
    requires
        claims.exp == Some(exp),
    ensures
        r is Ok,
        r matches Ok(t) ==> t@ == jwt_token(claims@, secret@) && jwt_claims(t@, secret@) == Some(claims@),
{
    let mut m = serde_json::Map::new();
    m.insert("aud".to_string(), serde_json::Value::from(claims.aud.clone()));
    m.insert("iat".to_string(), serde_json::Value::from(claims.iat));
    m.insert("iss".to_string(), serde_json::Value::from(claims.iss.clone()));
    m.insert("sub".to_string(), serde_json::Value::from(claims.sub.clone()));
    m.insert("exp".to_string(), serde_json::Value::from(exp));
    let key = jsonwebtoken::EncodingKey::from_secret(secret);
    jsonwebtoken::encode(&jsonwebtoken::Header::default(), &m, &key)
}

/// Signs claims without an expiration as a JSON object, in field order and
/// without an `exp` member, with the default header (HS256) and the secret
/// (`jsonwebtoken::encode`, which cannot fail for an HMAC key and header).
/// A token so made carries exactly these claims under this secret.
#[verifier::external_body]
fn jwt_encode_without_exp(claims: &Claims, secret: &[u8]) -> (r: Result<String, jsonwebtoken::errors::Error>)
    requires
        claims.exp is None,
    ensures
        r is Ok,
        r matches Ok(t) ==> t@ == jwt_token(claims@, secret@) && jwt_claims(t@, secret@) == Some(claims@),
{
    let mut m = serde_json::Map::new();
    m.insert("aud".to_string(), serde_json::Value::from(claims.aud.clone()));
    m.insert("iat".to_string(), serde_json::Value::from(claims.iat));
    m.insert("iss".to_string(), serde_json::Value::from(claims.iss.clone()));
    m.insert("sub".to_string(), serde_json::Value::from(claims.sub.clone()));
    let key = jsonwebtoken::EncodingKey::from_secret(secret);
    jsonwebtoken::encode(&jsonwebtoken::Header::default(), &m, &key)
}

/// Whether `claims` are claims that carry an expiration.
pub open spec fn has_expiration(claims: Option<ClaimsView>) -> bool {
    claims matches Some(c) && c.4 is Some
}

/// Reads a token signed with HS256 under the secret
/// (`jsonwebtoken::decode`), requiring an expiration but not checking it
/// against the clock (that check is `decode`'s). The audience is not
/// checked: no audience is configured, and with audience checking on,
/// `jsonwebtoken` 9 refuses every token that names one, as all of the API's
/// tokens do. It succeeds exactly for the tokens that carry claims with an
/// expiration, and gives those claims.
#[verifier::external_body]
fn jwt_decode(token: &str, secret: &[u8]) -> (r: Result<Claims, jsonwebtoken::errors::Error>)
    ensures
        r matches Ok(c) ==> jwt_claims(token@, secret@) == Some(c@) && c.exp is Some,
        has_expiration(jwt_claims(token@, secret@)) ==> r is Ok,
{
    let mut validation = jsonwebtoken::Validation::new(jsonwebtoken::Algorithm::HS256);
    validation.validate_aud = false;
    validation.validate_exp = false;
    let key = jsonwebtoken::DecodingKey::from_secret(secret);
    let c = jsonwebtoken::decode::<serde_json::Value>(token, &key, &validation)?.claims;
    Ok(Claims {
        aud: serde_json::from_value(c["aud"].clone())?,
        iat: serde_json::from_value(c["iat"].clone())?,
        iss: serde_json::from_value(c["iss"].clone())?,
        sub: serde_json::from_value(c["sub"].clone())?,
        exp: serde_json::from_value(c["exp"].clone())?,
    })
}

/// Seconds a token is still accepted after its expiration, to allow for
/// clocks that differ (`jsonwebtoken`'s default leeway).
pub const EXPIRATION_LEEWAY_SECS: i64 = 60;

/// The claims `decode` accepts for `token` under `secret` when the clock
/// reads `now`: those the token carries, if they hold an expiration that,
/// with the leeway, has not passed.
pub open spec fn decode_outcome(token: Seq<char>, secret: Seq<u8>, now: i64) -> Option<ClaimsView> {
    match jwt_claims(token, secret) {
        Some(c) => match c.4 {
            Some(exp) => if exp + EXPIRATION_LEEWAY_SECS < now { None } else { Some(c) },
            None => None,
        },
        None => None,
    }
}

/// Whether `r` is what `decode` answers for `token` under `secret` at the
/// clock reading `reading`.
pub open spec fn decoded_at_reading(
    r: Result<Claims, ApiError>,
    token: Seq<char>,
    secret: Seq<u8>,
    reading: ClockReading,
) -> bool {
    match r {
        Ok(c) => decode_outcome(token, secret, reading.spec_time().secs) == Some(c@),
        Err(_) => decode_outcome(token, secret, reading.spec_time().secs) is None,
    }
}

/// A token carrying claims with an expiration is accepted, with those
/// claims, as long as its expiration plus the leeway has not passed.
pub proof fn lemma_unexpired_token_is_accepted(token: Seq<char>, secret: Seq<u8>, claims: ClaimsView, now: i64)
    requires
        jwt_claims(token, secret) == Some(claims),
        claims.4 matches Some(exp) && now <= exp + 60,
    ensures
        decode_outcome(token, secret, now) == Some(claims),
{
}

/// A token whose expiration plus the leeway has passed, or that carries no
/// valid claims, is refused.
pub proof fn lemma_expired_token_is_refused(token: Seq<char>, secret: Seq<u8>, now: i64)
    requires
        jwt_claims(token, secret) matches Some(c) ==> c.4 matches Some(exp) && exp + 60 < now,
    ensures
        decode_outcome(token, secret, now) is None,
{
}

/// Signs `claims` with the server's `secret`: the claims in field order,
/// the expiration left out when there is none.
pub fn encode(claims: &Claims, secret: &[u8]) -> (r: Result<String, ApiError>)
    ensures
        r is Ok,
        r matches Ok(t) ==> t@ == jwt_token(claims@, secret@) && jwt_claims(t@, secret@) == Some(claims@),
{
    let signed = match claims.exp {
        Some(exp) => jwt_encode_with_exp(claims, exp, secret),
        None => jwt_encode_without_exp(claims, secret),
    };
    match signed {
        Ok(t) => Ok(t),
        Err(_) => Err(internal_error_res()),
    }
}

/// Reads the claims of a token signed with the server's `secret`; a token
/// that is forged, malformed or expired (at the clock reading the call
/// takes) is answered `401 invalid token`.
pub fn decode(token: &str, secret: &[u8]) -> (r: Result<Claims, ApiError>)
    ensures
        r matches Ok(c) ==> jwt_claims(token@, secret@) == Some(c@) && c.exp is Some,
        jwt_claims(token@, secret@) is None ==> r is Err,
        r matches Err(e) ==> is_error(e, UNAUTHORIZED, "invalid token"@),
        exists|reading: ClockReading| #[trigger] decoded_at_reading(r, token@, secret@, reading),
{
    let reading = utc_now();
    let now = reading.time().secs;
    let r = match jwt_decode(token, secret) {
        Ok(c) => match c.exp {
            Some(exp) => if (exp as i128) + (EXPIRATION_LEEWAY_SECS as i128) < now as i128 {
                Err(api_error(UNAUTHORIZED, "invalid token"))
            } else {
                Ok(c)
            },
            None => Err(api_error(UNAUTHORIZED, "invalid token")),
        },
        Err(_) => Err(api_error(UNAUTHORIZED, "invalid token")),
    };
    assert(decoded_at_reading(r, token@, secret@, reading));
    r
}

} // verus!
