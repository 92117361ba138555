use crate::error::ApiError;
use crate::model::User;
use vstd::prelude::*;

verus! {

#[verifier::external_type_specification]
#[verifier::external_body]
pub struct ExJwtError(jsonwebtoken::errors::Error);

/// How long an issued token stays valid, in seconds (24 hours).
pub const TOKEN_TTL: u64 = 86400;

/// The symmetric secret with which tokens are signed and checked.
pub struct TokenKey {
    pub secret: String,
}

impl TokenKey {
    pub fn new(secret: &str) -> (r: TokenKey)
        ensures
            r.secret@ == secret@,
    {
        TokenKey { secret: secret.to_string() }
    }
}

/// The claim set of a token: its subject and its expiry, in seconds since the
/// Unix epoch.
pub struct Claims {
    pub sub: String,
    pub exp: u64,
}

/// The claims `(subject, expiry)` that `token` carries, as HS256 decoding
/// under `secret` reads them: `None` when the signature does not match, the
/// token is malformed, or it lacks a string subject or a numeric expiry.
/// Expiry is not compared with any clock here.
pub uninterp spec fn jwt_claims(token: Seq<char>, secret: Seq<char>) -> Option<(Seq<char>, u64)>;

/// The token that HS256 signing of the claims `(sub, exp)` under `secret`
/// gives.
pub uninterp spec fn jwt_token_of(sub: Seq<char>, exp: u64, secret: Seq<char>) -> Seq<char>;

/// A character of the URL-safe base64 alphabet, or the `.` between parts.
pub open spec fn is_token_char(c: char) -> bool {
    ('A' <= c && c <= 'Z') || ('a' <= c && c <= 'z') || ('0' <= c && c <= '9') || c == '-' || c == '_'
        || c == '.'
}

/// Whether every character of `t` may stand in a compact token.
pub open spec fn token_chars(t: Seq<char>) -> bool {
    forall|i: int| 0 <= i < t.len() ==> is_token_char(#[trigger] t[i])
}

/// Relies on `jsonwebtoken::encode` with the default header (HS256): with an
/// HMAC key and a map of a string and a number it cannot fail; the token
/// depends on the claims and the secret alone, is made of unpadded URL-safe
/// base64 parts joined by `.`, and decodes under the same secret to the
/// claims it was given.
#[verifier::external_body]
fn jwt_encode(claims: &Claims, secret: &str) -> (r: Result<String, jsonwebtoken::errors::Error>)
    ensures
        r is Ok,
        r matches Ok(t) ==> t@ == jwt_token_of(claims.sub@, claims.exp, secret@),
        r matches Ok(t) ==> token_chars(t@),
        r matches Ok(t) ==> jwt_claims(t@, secret@) == Some((claims.sub@, claims.exp)),
{
    let mut fields = serde_json::Map::new();
    fields.insert("sub".to_string(), serde_json::Value::from(claims.sub.as_str()));
    fields.insert("exp".to_string(), serde_json::Value::from(claims.exp));
    let key = jsonwebtoken::EncodingKey::from_secret(secret.as_bytes());
    jsonwebtoken::encode(&jsonwebtoken::Header::default(), &fields, &key)
}

/// Relies on `jsonwebtoken::decode` with the default validation (HS256, an
/// `exp` claim required) but without its clock check: the subject and expiry
/// of a token whose signature matches the secret.
#[verifier::external_body]
fn jwt_decode(token: &str, secret: &str) -> (r: Option<Claims>)
    ensures
        match r {
            Some(c) => jwt_claims(token@, secret@) == Some((c.sub@, c.exp)),
            None => jwt_claims(token@, secret@) is None,
        },
{
    let mut validation = jsonwebtoken::Validation::default();
    validation.validate_exp = false;
    let key = jsonwebtoken::DecodingKey::from_secret(secret.as_bytes());
    let data = jsonwebtoken::decode::<serde_json::Value>(token, &key, &validation).ok()?;
    let sub = data.claims.get("sub")?.as_str()?.to_string();
    Some(Claims { sub, exp: data.claims.get("exp")?.as_u64()? })
}

/// Relies on `jsonwebtoken::get_current_timestamp`: the system clock, in
/// seconds since the Unix epoch. Nothing is known of its value.
#[verifier::external_body]
pub(crate) fn clock_now() -> u64 {
    jsonwebtoken::get_current_timestamp()
}

/// What checking `token` against `secret` at time `now` gives: the subject of
/// a well-signed, unexpired token, else `Unauthorized`, whatever the cause.
pub open spec fn token_subject(token: Seq<char>, secret: Seq<char>, now: u64) -> Result<Seq<char>, ApiError> {
    match jwt_claims(token, secret) {
        Some((sub, exp)) => if now < exp {
            Ok(sub)
        } else {
            Err(ApiError::Unauthorized)
        },
        None => Err(ApiError::Unauthorized),
    }
}

/// Issues a token for `username` at time `now`, valid until `now + TOKEN_TTL`.
/// Fails with `Internal` exactly when that time does not fit in a `u64`.
pub fn issue_token(username: &str, now: u64, key: &TokenKey) -> (r: Result<String, ApiError>)
    ensures
        now > u64::MAX - TOKEN_TTL ==> r == Err::<String, ApiError>(ApiError::Internal),
        now <= u64::MAX - TOKEN_TTL ==> r is Ok,
        r matches Ok(t) ==> t@ == jwt_token_of(username@, (now + TOKEN_TTL) as u64, key.secret@),
        r matches Ok(t) ==> token_chars(t@),
        r matches Ok(t) ==> jwt_claims(t@, key.secret@) == Some((username@, (now + TOKEN_TTL) as u64)),
{
    if now > u64::MAX - TOKEN_TTL {
        return Err(ApiError::Internal);
    }
    let claims = Claims { sub: username.to_string(), exp: now + TOKEN_TTL };
    match jwt_encode(&claims, key.secret.as_str()) {
        Ok(t) => Ok(t),
        Err(_) => Err(ApiError::Internal),
    }
}

/// Checks `token` at time `now`: its signature against the key, then that its
/// expiry lies after `now`. Every failure is the same `Unauthorized`.
pub fn verify_token(token: &str, key: &TokenKey, now: u64) -> (r: Result<String, ApiError>)
    ensures
        match r {
            Ok(s) => token_subject(token@, key.secret@, now) == Ok::<Seq<char>, ApiError>(s@),
            Err(e) => token_subject(token@, key.secret@, now) == Err::<Seq<char>, ApiError>(e),
        },
{
    match jwt_decode(token, key.secret.as_str()) {
        Some(claims) => if now < claims.exp {
            Ok(claims.sub)
        } else {
            Err(ApiError::Unauthorized)
        },
        None => Err(ApiError::Unauthorized),
    }
}

/// Issues a token for `user` at the current time: only the username enters
/// it. `Internal` only when the clock lies within `TOKEN_TTL` of `u64::MAX`.
pub fn generate_jwt(user: &User, key: &TokenKey) -> (r: Result<String, ApiError>)
    ensures
        r matches Ok(t) ==> token_chars(t@),
        r matches Ok(t) ==> jwt_claims(t@, key.secret@) matches Some((sub, exp)) && sub == user.username@
            && exp >= TOKEN_TTL,
        r matches Err(e) ==> e == ApiError::Internal,
{
    let now = clock_now();
    issue_token(user.username.as_str(), now, key)
}

/// Checks `token` at the current time and gives its subject.
pub fn decode_token_and_get_username(token: &str, key: &TokenKey) -> (r: Result<String, ApiError>)
    ensures
        match r {
            Ok(s) => jwt_claims(token@, key.secret@) matches Some((sub, _)) && sub == s@,
            Err(e) => e == ApiError::Unauthorized,
        },
{
    let now = clock_now();
    verify_token(token, key, now)
}

/// A token issued at time `issued` names its subject at every time before
/// `issued + TOKEN_TTL`, and is refused at every time from then on.
pub proof fn lemma_issued_token_round_trip(username: Seq<char>, secret: Seq<char>, token: Seq<char>, issued: u64, now: u64)
    requires
        issued <= u64::MAX - TOKEN_TTL,
        jwt_claims(token, secret) == Some((username, (issued + TOKEN_TTL) as u64)),
    ensures
        now < issued + TOKEN_TTL ==> token_subject(token, secret, now) == Ok::<Seq<char>, ApiError>(username),
        now >= issued + TOKEN_TTL ==> token_subject(token, secret, now) == Err::<Seq<char>, ApiError>(ApiError::Unauthorized),
{
}

} // verus!
