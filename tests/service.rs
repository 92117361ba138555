use todo_api::service::{delete_todo_at, get_todos_at, login_at, post_todo_at, register_at};
use todo_api::token::TOKEN_TTL;
use todo_api::error::ApiError;
use todo_api::model::{NewTodo, NewUser, UserResponse};
use todo_api::server::Server;
use todo_api::service::{delete_todo, get_todos, login, post_todo, register};
use todo_api::store::UserStore;
use todo_api::token::TokenKey;

fn credentials(username: &str, password: &str) -> NewUser {
    NewUser { username: username.to_string(), password: password.to_string() }
}

fn texts(v: &[&str]) -> Vec<String> {
    v.iter().map(|s| s.to_string()).collect()
}

#[test]
fn register_login_and_manage_items() {
    let key = TokenKey::new("SECRET-REDACTED");
    let mut store = UserStore::new();
    let alice = credentials("alice", "secret1");
    let a = register(&mut store, &key, &alice).unwrap();
    let b = login(&store, &key, &alice).unwrap();
    let header_a = format!("Bearer: {a}");
    let header_b = format!("Bearer: {b}");
    assert_eq!(get_todos(&store, &key, Some(&header_a)), Ok(vec![]));
    let milk = NewTodo { content: "buy milk".to_string() };
    assert_eq!(post_todo(&mut store, &key, Some(&header_b), &milk), Ok(texts(&["buy milk"])));
    let dog = NewTodo { content: "walk dog".to_string() };
    assert_eq!(
        post_todo(&mut store, &key, Some(&header_b), &dog),
        Ok(texts(&["buy milk", "walk dog"]))
    );
    assert_eq!(delete_todo(&mut store, &key, Some(&header_b), 0), Ok(texts(&["walk dog"])));
    let missing = get_todos(&store, &key, None);
    assert_eq!(missing, Err(ApiError::Unauthorized));
    assert_eq!(missing.unwrap_err().status_code(), 401);
    assert_eq!(get_todos(&store, &key, Some(&header_a)), Ok(texts(&["walk dog"])));
}

#[test]
fn registration_and_login_failures() {
    let key = TokenKey::new("SECRET-REDACTED");
    let mut store = UserStore::new();
    register(&mut store, &key, &credentials("alice", "secret1")).unwrap();
    let again = register(&mut store, &key, &credentials("alice", "other"));
    assert_eq!(again, Err(ApiError::Conflict));
    assert_eq!(ApiError::Conflict.status_code(), 409);
    assert_eq!(login(&store, &key, &credentials("bob", "secret1")), Err(ApiError::NotFound));
    assert_eq!(ApiError::NotFound.status_code(), 404);
    assert_eq!(login(&store, &key, &credentials("alice", "other")), Err(ApiError::Unauthorized));
    let digest = store.find_by_username("alice").unwrap().password;
    assert_ne!(digest, "secret1");
}

#[test]
fn item_operations_need_a_valid_token() {
    let key = TokenKey::new("SECRET-REDACTED");
    let mut store = UserStore::new();
    store.create_principal("alice", "d").unwrap();
    let item = NewTodo { content: "x".to_string() };
    assert_eq!(post_todo(&mut store, &key, Some("Bearer: junk"), &item), Err(ApiError::Unauthorized));
    assert_eq!(delete_todo(&mut store, &key, None, 0), Err(ApiError::Unauthorized));
    assert_eq!(store.find_by_username("alice").unwrap().todos, Vec::<String>::new());
}

#[test]
fn out_of_range_delete_is_invalid_input() {
    let key = TokenKey::new("SECRET-REDACTED");
    let mut store = UserStore::new();
    store.create_principal("dave", "d").unwrap();
    let user = store.find_by_username("dave").unwrap();
    let t = todo_api::token::generate_jwt(&user, &key).unwrap();
    let header = format!("Bearer: {t}");
    let r = delete_todo(&mut store, &key, Some(&header), 3);
    assert_eq!(r, Err(ApiError::InvalidInput));
    assert_eq!(ApiError::InvalidInput.status_code(), 400);
    assert_eq!(ApiError::Internal.status_code(), 500);
    let response = UserResponse::from_user(&store.find_by_username("dave").unwrap());
    assert_eq!(response.username, "dave");
    assert!(response.todos.is_empty());
}

#[test]
fn server_keeps_its_address() {
    let s = Server::new("0.0.0.0:8080");
    assert_eq!(s.addr(), "0.0.0.0:8080");
}

#[test]
fn scenario_at_fixed_times() {
    let key = TokenKey::new("SECRET-REDACTED");
    let mut store = UserStore::new();
    let alice = credentials("alice", "secret1");
    let a = register_at(&mut store, &key, &alice, 1_000).unwrap();
    let b = login_at(&store, &key, &alice, 1_005).unwrap();
    assert_ne!(a, b);
    let header_b = format!("Bearer: {b}");
    let milk = NewTodo { content: "buy milk".to_string() };
    assert_eq!(post_todo_at(&mut store, &key, Some(&header_b), &milk, 1_010), Ok(texts(&["buy milk"])));
    let dog = NewTodo { content: "walk dog".to_string() };
    assert_eq!(
        post_todo_at(&mut store, &key, Some(&header_b), &dog, 1_020),
        Ok(texts(&["buy milk", "walk dog"]))
    );
    assert_eq!(delete_todo_at(&mut store, &key, Some(&header_b), 0, 1_030), Ok(texts(&["walk dog"])));
    let header_a = format!("Bearer: {a}");
    assert_eq!(get_todos_at(&store, &key, Some(&header_a), 1_040), Ok(texts(&["walk dog"])));
    assert_eq!(get_todos_at(&store, &key, None, 1_040), Err(ApiError::Unauthorized));
    assert_eq!(get_todos_at(&store, &key, Some(&header_a), 1_000 + TOKEN_TTL), Err(ApiError::Unauthorized));
    let late = NewTodo { content: "late".to_string() };
    assert_eq!(
        post_todo_at(&mut store, &key, Some(&header_a), &late, 1_000 + TOKEN_TTL),
        Err(ApiError::Unauthorized)
    );
    assert_eq!(register_at(&mut store, &key, &alice, 2_000), Err(ApiError::Conflict));
    assert_eq!(login_at(&store, &key, &credentials("alice", "nope"), 2_000), Err(ApiError::Unauthorized));
    assert_eq!(register_at(&mut store, &key, &credentials("zed", "p"), u64::MAX), Err(ApiError::Internal));
    assert!(!store.contains("zed"));
}
