use crate::error::ApiError;
use argon2::password_hash::rand_core::OsRng;
use argon2::password_hash::rand_core::RngCore;
use argon2::password_hash::SaltString;
use argon2::{Argon2, PasswordHash, PasswordHasher, PasswordVerifier};
use vstd::prelude::*;

verus! {

#[verifier::external_type_specification]
#[verifier::external_body]
pub struct ExPasswordHashError(argon2::password_hash::Error);

/// What checking `password` against the self-describing Argon2 digest
/// `digest` gives: `None` when the digest does not parse, else whether the
/// password matches it.
pub uninterp spec fn phc_check(digest: Seq<char>, password: Seq<char>) -> Option<bool>;

/// The number of random salt bytes drawn for each digest.
pub const SALT_LEN: usize = 16;

/// The longest password, in characters, that is always hashed: its UTF-8
/// form then stays within Argon2's limit of `0xFFFF_FFFF` bytes.
pub const MAX_PASSWORD_CHARS: usize = 0x3FFF_FFFF;

/// The start of every digest: the PHC identifier of Argon2id, version 19.
pub open spec fn digest_prefix() -> Seq<char> {
    seq!['$', 'a', 'r', 'g', 'o', 'n', '2', 'i', 'd', '$', 'v', '=', '1', '9', '$']
}

/// Whether `d` is a digest in Argon2id PHC string form.
pub open spec fn is_phc_digest(d: Seq<char>) -> bool {
    d.len() > digest_prefix().len() && d.subrange(0, digest_prefix().len() as int) == digest_prefix()
}

/// Relies on `RngCore::fill_bytes` of `OsRng`: the buffer is overwritten with
/// bytes from the operating system's random source, keeping its length. Like
/// `SaltString::generate`, it panics only if that source itself fails.
#[verifier::external_body]
fn fill_random(buf: &mut Vec<u8>)
    ensures
        final(buf)@.len() == old(buf)@.len(),
{
    OsRng.fill_bytes(buf.as_mut_slice())
}

/// The salt bytes that the PHC digest `d` carries, decoded from its B64
/// salt field.
pub uninterp spec fn phc_salt(d: Seq<char>) -> Seq<u8>;

/// The fewest salt bytes that are hashed.
pub const MIN_SALT_BYTES: usize = 8;

/// The most salt bytes that are hashed: a B64 salt holds at most 64
/// characters.
pub const MAX_SALT_BYTES: usize = 48;

/// Relies on `SaltString::encode_b64` and `PasswordHasher::hash_password` of
/// `Argon2::default()`: for a salt of 8 to 48 bytes (shorter ones can make
/// `hash_password` panic) and a password within Argon2's length limit the
/// hash is made, as a PHC string that starts with `$argon2id$v=19$`, carries
/// the salt in its salt field, and against which the same password verifies.
#[verifier::external_body]
fn argon2_hash(password: &str, salt: &[u8]) -> (r: Result<String, argon2::password_hash::Error>)
    requires
        MIN_SALT_BYTES <= salt@.len() <= MAX_SALT_BYTES,
    ensures
        r matches Ok(d) ==> phc_check(d@, password@) == Some(true) && is_phc_digest(d@),
        r matches Ok(d) ==> phc_salt(d@) == salt@,
        password@.len() <= MAX_PASSWORD_CHARS ==> r is Ok,
{
    let salt = SaltString::encode_b64(salt)?;
    Argon2::default().hash_password(password.as_bytes(), &salt).map(|h| h.to_string())
}

/// Relies on `PasswordHash::new` (parsing the digest) and on
/// `PasswordVerifier::verify_password` of `Argon2` (recomputing the hash with
/// the digest's salt and parameters and comparing).
#[verifier::external_body]
fn argon2_verify(digest: &str, password: &str) -> (r: Option<bool>)
    ensures
        r == phc_check(digest@, password@),
{
    match PasswordHash::new(digest) {
        Ok(h) => Some(Argon2::default().verify_password(password.as_bytes(), &h).is_ok()),
        Err(_) => None,
    }
}

/// What checking a password against a stored digest reports.
pub open spec fn verify_outcome(digest: Seq<char>, password: Seq<char>) -> Result<bool, ApiError> {
    match phc_check(digest, password) {
        Some(b) => Ok(b),
        None => Err(ApiError::Internal),
    }
}

/// Hashes `password` with the given salt bytes. A salt outside
/// `MIN_SALT_BYTES..=MAX_SALT_BYTES` gives `None`. A salt within it and a
/// password of at most `MAX_PASSWORD_CHARS` characters always give a digest,
/// in Argon2id PHC form, that carries the salt and against which the same
/// password verifies.
pub fn hash_password_with_salt(password: &String, salt: &Vec<u8>) -> (r: Option<String>)
    ensures
        !(MIN_SALT_BYTES <= salt@.len() <= MAX_SALT_BYTES) ==> r is None,
        MIN_SALT_BYTES <= salt@.len() <= MAX_SALT_BYTES && password@.len() <= MAX_PASSWORD_CHARS ==> r is Some,
        r matches Some(d) ==> verify_outcome(d@, password@) == Ok::<bool, ApiError>(true) && is_phc_digest(d@),
        r matches Some(d) ==> phc_salt(d@) == salt@,
{
    if salt.len() < MIN_SALT_BYTES || salt.len() > MAX_SALT_BYTES {
        return None;
    }
    match argon2_hash(password.as_str(), salt.as_slice()) {
        Ok(d) => Some(d),
        Err(_) => None,
    }
}

/// Hashes `password` with a fresh random salt of `SALT_LEN` bytes. Every
/// password of at most `MAX_PASSWORD_CHARS` characters gets a digest, in
/// Argon2id PHC form, against which the same password verifies.
pub fn hash_password(password: &String) -> (r: Option<String>)
    ensures
        password@.len() <= MAX_PASSWORD_CHARS ==> r is Some,
        r matches Some(d) ==> verify_outcome(d@, password@) == Ok::<bool, ApiError>(true) && is_phc_digest(d@),
{
    let mut salt: Vec<u8> = Vec::new();
    let mut i: usize = 0;
    while i < SALT_LEN
        invariant
            i <= SALT_LEN,
            salt@.len() == i,
        decreases SALT_LEN - i,
    {
        salt.push(0);
        i = i + 1;
    }
    fill_random(&mut salt);
    hash_password_with_salt(password, &salt)
}

/// Checks `login_password` against the stored digest `password`: `Ok(true)`
/// when it matches, `Ok(false)` when it does not, and `Internal` when the
/// digest is malformed.
pub fn verify_password(password: &String, login_password: &String) -> (r: Result<bool, ApiError>)
    ensures
        r == verify_outcome(password@, login_password@),
{
    match argon2_verify(password.as_str(), login_password.as_str()) {
        Some(b) => Ok(b),
        None => Err(ApiError::Internal),
    }
}

/// Hashing one password with two different salts gives two different
/// digests.
pub proof fn lemma_distinct_salts_distinct_digests(d1: Seq<char>, d2: Seq<char>, s1: Seq<u8>, s2: Seq<u8>)
    requires
        phc_salt(d1) == s1,
        phc_salt(d2) == s2,
        s1 != s2,
    ensures
        d1 != d2,
{
}

/// A digest made from a password verifies against that same password.
pub proof fn lemma_hashed_password_verifies(password: Seq<char>, digest: Seq<char>)
    requires
        phc_check(digest, password) == Some(true),
    ensures
        verify_outcome(digest, password) == Ok::<bool, ApiError>(true),
{
}

} // verus!
