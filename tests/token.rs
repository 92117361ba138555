use todo_api::error::ApiError;
use todo_api::model::User;
use todo_api::token::{
    decode_token_and_get_username, generate_jwt, issue_token, verify_token, TokenKey, TOKEN_TTL,
};

fn key() -> TokenKey {
    TokenKey::new("SECRET-REDACTED")
}

#[test]
fn issued_token_names_its_subject_until_expiry() {
    let k = key();
    let t = issue_token("alice", 1_000, &k).unwrap();
    assert_ne!(t, "alice");
    assert_eq!(t.split('.').count(), 3);
    assert_eq!(verify_token(&t, &k, 1_000), Ok("alice".to_string()));
    assert_eq!(verify_token(&t, &k, 1_000 + TOKEN_TTL - 1), Ok("alice".to_string()));
    assert_eq!(verify_token(&t, &k, 1_000 + TOKEN_TTL), Err(ApiError::Unauthorized));
    assert_eq!(verify_token(&t, &k, 1_000 + 2 * TOKEN_TTL), Err(ApiError::Unauthorized));
}

#[test]
fn ttl_is_one_day() {
    assert_eq!(TOKEN_TTL, 86400);
}

#[test]
fn tampering_with_any_byte_is_refused() {
    let k = key();
    let t = issue_token("alice", 5_000, &k).unwrap();
    let bytes = t.as_bytes();
    for i in 0..bytes.len() {
        let mut changed = bytes.to_vec();
        changed[i] = if bytes[i] == b'A' { b'B' } else { b'A' };
        let tampered = String::from_utf8(changed).unwrap();
        assert_eq!(verify_token(&tampered, &k, 5_000), Err(ApiError::Unauthorized), "byte {}", i);
    }
}

#[test]
fn another_secret_is_refused() {
    let t = issue_token("alice", 5_000, &key()).unwrap();
    let other = TokenKey::new("another");
    assert_eq!(verify_token(&t, &other, 5_000), Err(ApiError::Unauthorized));
}

#[test]
fn malformed_token_is_refused() {
    let k = key();
    assert_eq!(verify_token("", &k, 0), Err(ApiError::Unauthorized));
    assert_eq!(verify_token("a.b.c", &k, 0), Err(ApiError::Unauthorized));
}

#[test]
fn expiry_beyond_the_clock_range_is_an_internal_error() {
    assert_eq!(issue_token("alice", u64::MAX, &key()), Err(ApiError::Internal));
    assert_eq!(issue_token("alice", u64::MAX - TOKEN_TTL + 1, &key()), Err(ApiError::Internal));
    assert!(issue_token("alice", u64::MAX - TOKEN_TTL, &key()).is_ok());
}

#[test]
fn generated_token_decodes_now() {
    let k = key();
    let user = User { username: "bob".to_string(), password: String::new(), todos: vec![] };
    let t = generate_jwt(&user, &k).unwrap();
    assert_eq!(decode_token_and_get_username(&t, &k), Ok("bob".to_string()));
    assert_eq!(decode_token_and_get_username(&t, &TokenKey::new("x")), Err(ApiError::Unauthorized));
}

#[test]
fn token_depends_on_username_time_and_secret_only() {
    let k = key();
    let a = issue_token("alice", 42, &k).unwrap();
    let b = issue_token("alice", 42, &k).unwrap();
    assert_eq!(a, b);
    assert_ne!(a, issue_token("alice", 43, &k).unwrap());
    assert!(a.chars().all(|c| c.is_ascii_alphanumeric() || c == '-' || c == '_' || c == '.'));
}
