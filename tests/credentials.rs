use todo_api::credentials::hash_password_with_salt;
use todo_api::credentials::{hash_password, verify_password};
use todo_api::error::ApiError;

#[test]
fn hashed_password_verifies_and_others_do_not() {
    let password = "secret1".to_string();
    let digest = hash_password(&password).expect("hashing succeeds");
    assert_ne!(digest, password);
    assert!(digest.starts_with("$argon2"));
    assert_eq!(verify_password(&digest, &password), Ok(true));
    assert_eq!(verify_password(&digest, &"secret2".to_string()), Ok(false));
}

#[test]
fn each_hash_has_its_own_salt() {
    let password = "same".to_string();
    let a = hash_password(&password).unwrap();
    let b = hash_password(&password).unwrap();
    assert_ne!(a, b);
}

#[test]
fn malformed_digest_is_an_internal_error() {
    let r = verify_password(&"not a digest".to_string(), &"secret1".to_string());
    assert_eq!(r, Err(ApiError::Internal));
    assert_eq!(verify_password(&String::new(), &String::new()), Err(ApiError::Internal));
}

#[test]
fn salted_hash_is_bounded_by_the_salt_length() {
    let password = "secret1".to_string();
    assert_eq!(hash_password_with_salt(&password, &vec![]), None);
    assert_eq!(hash_password_with_salt(&password, &vec![7u8; 2]), None);
    assert_eq!(hash_password_with_salt(&password, &vec![7u8; 4]), None);
    assert_eq!(hash_password_with_salt(&password, &vec![7u8; 7]), None);
    assert!(hash_password_with_salt(&password, &vec![7u8; 8]).is_some());
    assert!(hash_password_with_salt(&password, &vec![7u8; 48]).is_some());
    assert_eq!(hash_password_with_salt(&password, &vec![7u8; 49]), None);
    let a = hash_password_with_salt(&password, &vec![7u8; 16]).unwrap();
    let b = hash_password_with_salt(&password, &vec![7u8; 16]).unwrap();
    assert_eq!(a, b);
    assert!(a.starts_with("$argon2id$v=19$"));
    assert_eq!(verify_password(&a, &password), Ok(true));
}

#[test]
fn empty_password_is_hashed() {
    let digest = hash_password(&String::new()).unwrap();
    assert!(digest.starts_with("$argon2id$v=19$"));
    assert_eq!(verify_password(&digest, &String::new()), Ok(true));
}

#[test]
fn different_salts_give_different_digests() {
    let password = "secret1".to_string();
    let a = hash_password_with_salt(&password, &vec![1u8; 16]).unwrap();
    let b = hash_password_with_salt(&password, &vec![2u8; 16]).unwrap();
    assert_ne!(a, b);
    assert_eq!(verify_password(&b, &password), Ok(true));
}
