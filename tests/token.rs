use alpha_bank::token::{
    accept_claims, authenticate, bearer_token, create_jwt, decode_jwt, issue, verify,
    AuthRejection, InvalidToken, JwtConfig, TokenError, DEFAULT_TOKEN_TTL,
};

const SECRET: &[u8] = b"test-signing-secret";
const T: i64 = 1_700_000_000;

#[test]
fn issued_token_verifies_until_expiry() {
    let token = issue("u1", T, 3600, SECRET).unwrap();
    let claims = verify(&token, T + 1800, SECRET).unwrap();
    assert_eq!(claims.sub, "u1");
    assert_eq!(claims.exp, (T + 3600) as u64);
    assert_eq!(verify(&token, T + 7200, SECRET).err(), Some(InvalidToken));
}

#[test]
fn expiry_instant_itself_is_expired() {
    let token = issue("u1", T, 3600, SECRET).unwrap();
    assert!(verify(&token, T + 3599, SECRET).is_ok());
    assert_eq!(verify(&token, T + 3600, SECRET).err(), Some(InvalidToken));
}

#[test]
fn other_secret_is_rejected() {
    let token = issue("u1", T, 3600, SECRET).unwrap();
    assert_eq!(verify(&token, T, b"another-secret").err(), Some(InvalidToken));
}

#[test]
fn tampered_or_malformed_token_is_rejected() {
    let token = issue("u1", T, 3600, SECRET).unwrap();
    let mut tampered = token.clone();
    tampered.push('x');
    assert!(verify(&tampered, T, SECRET).is_err());
    assert!(verify("", T, SECRET).is_err());
    assert!(verify("not.a.token", T, SECRET).is_err());
}

#[test]
fn token_differs_from_subject() {
    let token = issue("u1", T, 3600, SECRET).unwrap();
    assert_ne!(token, "u1");
    assert_eq!(token.matches('.').count(), 2);
}

#[test]
fn expiry_out_of_range() {
    assert_eq!(issue("u1", -10, 5, SECRET), Err(TokenError::ExpiryOutOfRange));
    assert!(issue("u1", -10, 10, SECRET).is_ok());
}

#[test]
fn accept_claims_needs_both_and_a_future_expiry() {
    let c = accept_claims(Some("u".to_string()), Some(10), 9).unwrap();
    assert_eq!((c.sub.as_str(), c.exp), ("u", 10));
    assert_eq!(accept_claims(Some("u".to_string()), Some(10), 10).err(), Some(InvalidToken));
    assert_eq!(accept_claims(None, Some(10), 0).err(), Some(InvalidToken));
    assert_eq!(accept_claims(Some("u".to_string()), None, 0).err(), Some(InvalidToken));
    assert!(accept_claims(Some("u".to_string()), Some(0), -1).is_ok());
}

#[test]
fn bearer_header_parsing() {
    assert_eq!(bearer_token("Bearer abc.def"), Some("abc.def"));
    assert_eq!(bearer_token("Bearer "), Some(""));
    assert_eq!(bearer_token("Bearer"), None);
    assert_eq!(bearer_token("bearer abc"), None);
    assert_eq!(bearer_token("Basic abc"), None);
}

#[test]
fn authenticate_outcomes() {
    let token = issue("user-7", T, 60, SECRET).unwrap();
    let header = format!("Bearer {token}");
    assert_eq!(authenticate(Some(&header), T, SECRET), Ok("user-7".to_string()));
    assert_eq!(authenticate(Some(&header), T + 60, SECRET), Err(AuthRejection::InvalidToken));
    assert_eq!(authenticate(None, T, SECRET), Err(AuthRejection::MissingHeader));
    assert_eq!(authenticate(Some(&token), T, SECRET), Err(AuthRejection::MissingHeader));
    assert_eq!(authenticate(Some("Bearer junk"), T, SECRET), Err(AuthRejection::InvalidToken));
}

#[test]
fn rejection_messages() {
    assert_eq!(AuthRejection::MissingHeader.message(), "Missing or invalid authorization header");
    assert_eq!(AuthRejection::InvalidToken.message(), "Invalid token");
}

#[test]
fn create_and_decode_with_the_clock() {
    let config = JwtConfig { secret: SECRET.to_vec(), ttl_seconds: DEFAULT_TOKEN_TTL };
    let token = create_jwt("someone", &config).unwrap();
    let claims = decode_jwt(&token, &config).unwrap();
    assert_eq!(claims.sub, "someone");
    let expired = JwtConfig { secret: SECRET.to_vec(), ttl_seconds: 0 };
    let token = create_jwt("someone", &expired).unwrap();
    assert!(decode_jwt(&token, &expired).is_err());
}

#[test]
fn issue_succeeds_across_the_expiry_range() {
    let top = u64::MAX - i64::MAX as u64;
    let token = issue("edge", i64::MAX, top, SECRET).unwrap();
    let claims = verify(&token, i64::MAX - 1, SECRET).unwrap();
    assert_eq!((claims.sub.as_str(), claims.exp), ("edge", u64::MAX));
    assert_eq!(issue("edge", 0, 0, SECRET).map(|t| t.is_empty()), Ok(false));
}
