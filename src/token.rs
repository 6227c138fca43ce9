//! Bearer tokens: signed, time-bound credentials that name one user.
//!
//! A token is an HS256 JSON Web Token whose claims are the subject (`sub`,
//! the user id) and the expiry instant (`exp`, whole seconds since the Unix
//! epoch). Signing and signature checks are done by `jsonwebtoken`; whether a
//! token has expired is decided here, against an instant the caller passes.

use vstd::prelude::*;

use crate::clock::current_timestamp;
use crate::text::has_prefix;

verus! {

/// `jsonwebtoken::errors::Error`, what the signing library reports; it is
/// only told apart from success.
#[verifier::external_type_specification]
#[verifier::external_body]
pub struct ExJwtError(jsonwebtoken::errors::Error);

/// Lifetime of a token, in seconds, when the configuration gives none.
pub const DEFAULT_TOKEN_TTL: u64 = 86400;

/// The token that `jsonwebtoken` signs with `secret` for these claims.
pub uninterp spec fn signed_token(secret: Seq<u8>, subject: Seq<char>, expires_at: u64) -> Seq<char>;

/// What a signature-checked decoding of `token` with `secret` yields: `None`
/// when the token is malformed or its signature does not match, else the
/// subject and the expiry, each when present with the right JSON type.
pub uninterp spec fn token_payload(secret: Seq<u8>, token: Seq<char>) -> Option<
    (Option<Seq<char>>, Option<u64>),
>;

/// The text of an optional string.
pub open spec fn opt_text(s: Option<String>) -> Option<Seq<char>> {
    match s {
        Some(t) => Some(t@),
        None => None,
    }
}

/// Relies on `jsonwebtoken::encode` with the default header (HS256) and
/// `EncodingKey::from_secret`, over a JSON object holding `sub` and `exp`:
/// the token is determined by the secret and the two claims, and
/// `jsonwebtoken::decode` with the same secret gives the two claims back.
/// With an HMAC key and the HS256 header the call always succeeds: the key
/// family matches, the header and a string-keyed map always serialise, and
/// HMAC signing cannot fail.
#[verifier::external_body]
fn encode_claims(subject: &str, expires_at: u64, secret: &[u8]) -> (r: Result<
    String,
    jsonwebtoken::errors::Error,
>)
    ensures
        r is Ok,
        r is Ok ==> r->Ok_0@ == signed_token(secret@, subject@, expires_at),
        r is Ok ==> token_payload(secret@, r->Ok_0@) == Some((Some(subject@), Some(expires_at))),
{
    let mut claims = serde_json::Map::new();
    claims.insert("sub".to_string(), serde_json::Value::from(subject));
    claims.insert("exp".to_string(), serde_json::Value::from(expires_at));
    let key = jsonwebtoken::EncodingKey::from_secret(secret);
    jsonwebtoken::encode(&jsonwebtoken::Header::default(), &claims, &key)
}

/// Relies on `jsonwebtoken::decode` with `Validation::default()` (HS256, `exp`
/// required) but with `validate_exp` off, so that no clock is read: it checks
/// the signature and hands back the `sub` text and the `exp` number. The
/// outcome depends on the token and the secret alone.
#[verifier::external_body]
fn decode_claims(token: &str, secret: &[u8]) -> (r: Result<
    (Option<String>, Option<u64>),
    jsonwebtoken::errors::Error,
>)
    ensures
        r is Ok <==> token_payload(secret@, token@) is Some,
        r is Ok ==> token_payload(secret@, token@) == Some(
            (opt_text(r->Ok_0.0), r->Ok_0.1),
        ),
{
    let mut validation = jsonwebtoken::Validation::default();
    validation.validate_exp = false;
    let key = jsonwebtoken::DecodingKey::from_secret(secret);
    let data = jsonwebtoken::decode::<serde_json::Map<String, serde_json::Value>>(token, &key, &validation)?;
    let sub = data.claims.get("sub").and_then(serde_json::Value::as_str).map(String::from);
    let exp = data.claims.get("exp").and_then(serde_json::Value::as_u64);
    Ok((sub, exp))
}

/// The claims of a token.
#[derive(Clone, Debug)]
pub struct Claims {
    /// The user id.
    pub sub: String,
    /// Expiry instant, in whole seconds since the Unix epoch.
    pub exp: u64,
}

/// How tokens are signed and how long they live.
#[derive(Clone, Debug)]
pub struct JwtConfig {
    pub secret: Vec<u8>,
    pub ttl_seconds: u64,
}

/// Why a token could not be issued.
#[derive(Clone, Copy, Debug, PartialEq, Eq, Structural)]
pub enum TokenError {
    /// `now + ttl` is not an instant that a token can carry.
    ExpiryOutOfRange,
}

/// A token that is malformed, wrongly signed, lacks its claims or has expired.
/// The cause is deliberately not told apart.
#[derive(Clone, Copy, Debug, PartialEq, Eq, Structural)]
pub struct InvalidToken;

/// Issues a token for `user_id` at instant `now`, expiring `ttl_seconds` later.
pub fn issue(user_id: &str, now: i64, ttl_seconds: u64, secret: &[u8]) -> (r: Result<
    String,
    TokenError,
>)
    ensures
        (now + ttl_seconds < 0 || now + ttl_seconds > u64::MAX) <==> r == Err::<
            String,
            TokenError,
        >(TokenError::ExpiryOutOfRange),
        0 <= now + ttl_seconds <= u64::MAX ==> r is Ok,
        r is Ok ==> r->Ok_0@ == signed_token(secret@, user_id@, (now + ttl_seconds) as u64),
        r is Ok ==> token_payload(secret@, r->Ok_0@) == Some(
            (Some(user_id@), Some((now + ttl_seconds) as u64)),
        ),
{
    let expires_at: i128 = now as i128 + ttl_seconds as i128;
    if expires_at < 0 || expires_at > u64::MAX as i128 {
        return Err(TokenError::ExpiryOutOfRange);
    }
    Ok(encode_claims(user_id, expires_at as u64, secret).unwrap())
}

/// The subject that a token with this payload proves at `now`: the subject,
/// if the token carries both claims and expires after `now`.
pub open spec fn accepted_subject(payload: Option<(Option<Seq<char>>, Option<u64>)>, now: int) -> Option<
    Seq<char>,
> {
    match payload {
        Some((Some(sub), Some(exp))) => if exp > now {
            Some(sub)
        } else {
            None
        },
        _ => None,
    }
}

/// The claims and the outcome of a check, as values.
pub open spec fn outcome_of(r: Result<Claims, InvalidToken>) -> Option<(Seq<char>, u64)> {
    match r {
        Ok(c) => Some((c.sub@, c.exp)),
        Err(_) => None,
    }
}

/// `outcome` is what checking a token with this payload at `now` gives.
pub open spec fn checked_as(
    payload: Option<(Option<Seq<char>>, Option<u64>)>,
    now: int,
    outcome: Option<(Seq<char>, u64)>,
) -> bool {
    match outcome {
        Some((s, e)) => accepted_subject(payload, now) == Some(s) && payload == Some(
            (Some(s), Some(e)),
        ),
        None => accepted_subject(payload, now) is None,
    }
}

/// Accepts decoded claims at `now`: both must be present and the expiry must
/// lie after `now`.
pub fn accept_claims(sub: Option<String>, exp: Option<u64>, now: i64) -> (r: Result<Claims, InvalidToken>)
    ensures
        match (opt_text(sub), exp) {
            (Some(s), Some(e)) => if e > now {
                outcome_of(r) == Some((s, e))
            } else {
                r is Err
            },
            _ => r is Err,
        },
{
    match (sub, exp) {
        (Some(sub), Some(exp)) => {
            if exp as i128 > now as i128 {
                Ok(Claims { sub, exp })
            } else {
                Err(InvalidToken)
            }
        },
        _ => Err(InvalidToken),
    }
}

/// Checks `token` at instant `now`: the signature must match `secret`, both
/// claims must be present, and the token must expire after `now`.
pub fn verify(token: &str, now: i64, secret: &[u8]) -> (r: Result<Claims, InvalidToken>)
    ensures
        checked_as(token_payload(secret@, token@), now as int, outcome_of(r)),
{
    match decode_claims(token, secret) {
        Ok((sub, exp)) => accept_claims(sub, exp, now),
        Err(_) => Err(InvalidToken),
    }
}

/// Issuing then checking: a token that carries the claims `issue` gives it,
/// for `user` at `issued_at` with lifetime `ttl`, is accepted as `user` at
/// every instant before `issued_at + ttl`, and at none from then on.
pub proof fn lemma_issue_then_verify(
    secret: Seq<u8>,
    token: Seq<char>,
    user: Seq<char>,
    issued_at: int,
    ttl: int,
    now: int,
)
    requires
        0 <= issued_at + ttl <= u64::MAX,
        token_payload(secret, token) == Some((Some(user), Some((issued_at + ttl) as u64))),
    ensures
        accepted_subject(token_payload(secret, token), now) == if now < issued_at + ttl {
            Some(user)
        } else {
            None
        },
{
}

/// Issues a token for `user_id` now, with the configured lifetime.
pub fn create_jwt(user_id: &str, config: &JwtConfig) -> (r: Result<String, TokenError>)
    ensures
        r is Ok ==> exists|now: i64|
            {
                &&& r->Ok_0@ == #[trigger] signed_token(
                    config.secret@,
                    user_id@,
                    (now + config.ttl_seconds) as u64,
                )
                &&& token_payload(config.secret@, r->Ok_0@) == Some(
                    (Some(user_id@), Some((now + config.ttl_seconds) as u64)),
                )
            },
{
    let now = current_timestamp();
    issue(user_id, now, config.ttl_seconds, config.secret.as_slice())
}

/// Checks `token` now.
pub fn decode_jwt(token: &str, config: &JwtConfig) -> (r: Result<Claims, InvalidToken>)
    ensures
        exists|now: i64|
            #[trigger] checked_as(token_payload(config.secret@, token@), now as int, outcome_of(r)),
{
    let now = current_timestamp();
    verify(token, now, config.secret.as_slice())
}

/// Why a request was refused before reaching its handler.
#[derive(Clone, Copy, Debug, PartialEq, Eq, Structural)]
pub enum AuthRejection {
    /// No `Authorization` header, or one that is not a bearer credential.
    MissingHeader,
    /// A bearer token that does not check out.
    InvalidToken,
}

impl AuthRejection {
    /// The message shown to the client.
    pub fn message(&self) -> (r: &'static str)
        ensures
            r@ == match self {
                AuthRejection::MissingHeader => "Missing or invalid authorization header"@,
                AuthRejection::InvalidToken => "Invalid token"@,
            },
    {
        match self {
            AuthRejection::MissingHeader => "Missing or invalid authorization header",
            AuthRejection::InvalidToken => "Invalid token",
        }
    }
}

/// The scheme word and the space that open a bearer credential.
pub open spec fn bearer_prefix() -> Seq<char> {
    seq!['B', 'e', 'a', 'r', 'e', 'r', ' ']
}

/// The token of a bearer `Authorization` header value: what follows `Bearer `.
pub open spec fn spec_bearer_token(header: Seq<char>) -> Option<Seq<char>> {
    if header.len() >= 7 && header.subrange(0, 7) == bearer_prefix() {
        Some(header.subrange(7, header.len() as int))
    } else {
        None
    }
}

/// The token of a bearer `Authorization` header value.
pub fn bearer_token(header: &str) -> (r: Option<&str>)
    ensures
        match spec_bearer_token(header@) {
            Some(t) => r is Some && r->Some_0@ == t,
            None => r is None,
        },
{
    let prefix = "Bearer ";
    proof {
        reveal_strlit("Bearer ");
        assert(prefix@ =~= bearer_prefix());
    }
    if has_prefix(header, prefix) {
        Some(header.substring_char(7, header.unicode_len()))
    } else {
        None
    }
}

/// The text of an optional header value.
pub open spec fn header_text(header: Option<&str>) -> Option<Seq<char>> {
    match header {
        Some(h) => Some(h@),
        None => None,
    }
}

/// The outcome of an access check, as a value.
pub open spec fn access_of(r: Result<String, AuthRejection>) -> Result<Seq<char>, AuthRejection> {
    match r {
        Ok(user) => Ok(user@),
        Err(e) => Err(e),
    }
}

/// Who a request with this `Authorization` value acts as at `now`, or why it is
/// refused: without a bearer credential it is refused as missing one, and with
/// a token that does not check out as invalid.
pub open spec fn access(header: Option<Seq<char>>, secret: Seq<u8>, now: int) -> Result<
    Seq<char>,
    AuthRejection,
> {
    match header {
        None => Err(AuthRejection::MissingHeader),
        Some(h) => match spec_bearer_token(h) {
            None => Err(AuthRejection::MissingHeader),
            Some(t) => match accepted_subject(token_payload(secret, t), now) {
                Some(user) => Ok(user),
                None => Err(AuthRejection::InvalidToken),
            },
        },
    }
}

/// Decides whether a request carrying `header` as its `Authorization` value is
/// let through at `now`, and as which user.
pub fn authenticate(header: Option<&str>, now: i64, secret: &[u8]) -> (r: Result<String, AuthRejection>)
    ensures
        access_of(r) == access(header_text(header), secret@, now as int),
{
    match header {
        None => Err(AuthRejection::MissingHeader),
        Some(h) => match bearer_token(h) {
            None => Err(AuthRejection::MissingHeader),
            Some(token) => match verify(token, now, secret) {
                Ok(claims) => Ok(claims.sub),
                Err(_) => Err(AuthRejection::InvalidToken),
            },
        },
    }
}

/// Decides, now, whether a request carrying `header` is let through.
pub fn authorize(header: Option<&str>, config: &JwtConfig) -> (r: Result<String, AuthRejection>)
    ensures
        exists|now: i64| access_of(r) == #[trigger] access(header_text(header), config.secret@, now as int),
{
    let now = current_timestamp();
    authenticate(header, now, config.secret.as_slice())
}

} // verus!
