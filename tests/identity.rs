use todo_api::error::ApiError;
use todo_api::identity::{get_jwt_from_header, get_username_from_jwt, resolve, AuthOutcome};
use todo_api::token::{issue_token, TokenKey, TOKEN_TTL};

#[test]
fn token_follows_the_delimiter_and_is_trimmed() {
    assert_eq!(get_jwt_from_header(Some("Bearer: abc.def.ghi")), Some("abc.def.ghi".to_string()));
    assert_eq!(get_jwt_from_header(Some("Bearer:   tok \t")), Some("tok".to_string()));
    assert_eq!(get_jwt_from_header(Some("Bearer: a:b")), Some("a".to_string()));
    assert_eq!(get_jwt_from_header(Some("Bearer:")), Some(String::new()));
    assert_eq!(get_jwt_from_header(Some(":\u{3000}x\u{a0}")), Some("x".to_string()));
}

#[test]
fn no_header_or_no_delimiter_gives_no_token() {
    assert_eq!(get_jwt_from_header(None), None);
    assert_eq!(get_jwt_from_header(Some("Bearer abc")), None);
    assert_eq!(get_jwt_from_header(Some("")), None);
}

#[test]
fn resolve_tells_the_outcomes_apart() {
    let k = TokenKey::new("SECRET-REDACTED");
    let t = issue_token("alice", 100, &k).unwrap();
    let header = format!("Bearer: {t}");
    assert_eq!(resolve(Some(&header), &k, 100), AuthOutcome::Authenticated("alice".to_string()));
    assert_eq!(resolve(Some(&header), &k, 100 + TOKEN_TTL), AuthOutcome::InvalidOrExpiredToken);
    assert_eq!(resolve(Some("Bearer: junk"), &k, 100), AuthOutcome::InvalidOrExpiredToken);
    assert_eq!(resolve(None, &k, 100), AuthOutcome::MissingCredential);
    assert_eq!(resolve(Some("Bearer"), &k, 100), AuthOutcome::MissingCredential);
}

#[test]
fn username_from_header_at_the_current_time() {
    let k = TokenKey::new("SECRET-REDACTED");
    let user = todo_api::model::User { username: "carol".to_string(), password: String::new(), todos: vec![] };
    let t = todo_api::token::generate_jwt(&user, &k).unwrap();
    let header = format!("Bearer: {t}");
    assert_eq!(get_username_from_jwt(Some(&header), &k), Ok("carol".to_string()));
    assert_eq!(get_username_from_jwt(None, &k), Err(ApiError::Unauthorized));
    let old = issue_token("carol", 0, &k).unwrap();
    assert_eq!(get_username_from_jwt(Some(&format!("Bearer: {old}")), &k), Err(ApiError::Unauthorized));
}

#[test]
fn bearer_header_gives_the_issued_token_back() {
    let k = TokenKey::new("SECRET-REDACTED");
    let t = issue_token("alice", 7, &k).unwrap();
    assert_eq!(get_jwt_from_header(Some(&format!("Bearer: {t}"))), Some(t));
}

#[test]
fn username_at_a_given_time() {
    let k = TokenKey::new("SECRET-REDACTED");
    let t = issue_token("erin", 10, &k).unwrap();
    let header = format!("Bearer: {t}");
    assert_eq!(todo_api::identity::get_username_at(Some(&header), &k, 10), Ok("erin".to_string()));
    assert_eq!(
        todo_api::identity::get_username_at(Some(&header), &k, 10 + TOKEN_TTL),
        Err(ApiError::Unauthorized)
    );
}
