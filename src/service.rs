//! The request flows of the service (register, login, and reading and
//! changing a user's list) over the in-memory `UserStore`, which models the
//! persistent store's per-user record. Their `_at` forms take the time and
//! state each result exactly; the others read the clock. A deployment on a
//! database server composes the same pieces (`prepare_registration`,
//! `check_login`, `get_username_from_jwt`, `remove_index`, and the store
//! result mappings) around its own round trips.
use crate::credentials::{hash_password, is_phc_digest, verify_outcome, verify_password, MAX_PASSWORD_CHARS};
use crate::error::ApiError;
use crate::identity::{get_username_at, header_subject, header_token};
use crate::model::{items_of, NewTodo, NewUser, User};
use crate::store::{append_outcome, items_result, remove_outcome, UserStore};
use crate::token::{clock_now, issue_token, jwt_claims, jwt_token_of, token_chars, TokenKey, TOKEN_TTL};
use vstd::prelude::*;

verus! {

/// Whether `token` is signed with `key` and names `username`.
pub open spec fn names(token: Seq<char>, key: &TokenKey, username: Seq<char>) -> bool {
    jwt_claims(token, key.secret@) matches Some((sub, _)) && sub == username
}

/// Whether the `Authorization` header value carries a token, signed with
/// `key`, that names `username`.
pub open spec fn proves(header: Option<&str>, key: &TokenKey, username: Seq<char>) -> bool {
    header matches Some(h) && header_token(h@) matches Some(t) && names(t, key, username)
}

/// The text of a result.
pub open spec fn text_result(r: Result<String, ApiError>) -> Result<Seq<char>, ApiError> {
    match r {
        Ok(t) => Ok(t@),
        Err(e) => Err(e),
    }
}

/// The token issued for `username` at time `now`, or `Internal` when its
/// expiry does not fit.
pub open spec fn issued(username: Seq<char>, now: u64, secret: Seq<char>) -> Result<Seq<char>, ApiError> {
    if now > u64::MAX - TOKEN_TTL {
        Err(ApiError::Internal)
    } else {
        Ok(jwt_token_of(username, (now + TOKEN_TTL) as u64, secret))
    }
}

/// What a login with `password` against the stored `digest` of `username`
/// gives at time `now`.
pub open spec fn login_outcome(digest: Seq<char>, username: Seq<char>, password: Seq<char>, now: u64, secret: Seq<char>) -> Result<Seq<char>, ApiError> {
    match verify_outcome(digest, password) {
        Err(_) => Err(ApiError::Internal),
        Ok(false) => Err(ApiError::Unauthorized),
        Ok(true) => issued(username, now, secret),
    }
}

/// Issues a token for `username` at `now`, with the facts callers need.
fn issue(username: &str, now: u64, key: &TokenKey) -> (r: Result<String, ApiError>)
    ensures
        text_result(r) == issued(username@, now, key.secret@),
        r matches Ok(t) ==> names(t@, key, username@) && token_chars(t@),
        r matches Ok(t) ==> jwt_claims(t@, key.secret@) == Some((username@, (now + TOKEN_TTL) as u64)),
{
    issue_token(username, now, key)
}

/// The record and the token for a new user at time `now`: the password is
/// hashed with a fresh salt and a token is issued. Both always succeed for a
/// password of at most `MAX_PASSWORD_CHARS` characters and a time whose
/// expiry fits; else `Internal`.
pub fn prepare_registration(user: &NewUser, key: &TokenKey, now: u64) -> (r: Result<(User, String), ApiError>)
    ensures
        user.password@.len() <= MAX_PASSWORD_CHARS && now <= u64::MAX - TOKEN_TTL ==> r is Ok,
        match r {
            Ok((u, t)) => {
                &&& u.username@ == user.username@
                &&& u.todos@.len() == 0
                &&& verify_outcome(u.password@, user.password@) == Ok::<bool, ApiError>(true)
                &&& is_phc_digest(u.password@)
                &&& text_result(Ok(t)) == issued(user.username@, now, key.secret@)
                &&& names(t@, key, user.username@)
                &&& token_chars(t@)
                &&& jwt_claims(t@, key.secret@) == Some((user.username@, (now + TOKEN_TTL) as u64))
            },
            Err(e) => e == ApiError::Internal,
        },
{
    let digest = match hash_password(&user.password) {
        Some(d) => d,
        None => return Err(ApiError::Internal),
    };
    let token = match issue(user.username.as_str(), now, key) {
        Ok(t) => t,
        Err(e) => return Err(e),
    };
    Ok((User { username: user.username.clone(), password: digest, todos: Vec::new() }, token))
}

/// Registers `user` at time `now` and gives its session token. `Conflict`
/// exactly when the username is taken. A free username, a password of at
/// most `MAX_PASSWORD_CHARS` characters and a time whose expiry fits always
/// succeed. On failure the store is unchanged; on success it holds the new
/// user with an empty list and an Argon2id digest against which the password
/// verifies.
pub fn register_at(store: &mut UserStore, key: &TokenKey, user: &NewUser, now: u64) -> (r: Result<String, ApiError>)
    requires
        old(store).wf(),
    ensures
        final(store).wf(),
        old(store)@.contains_key(user.username@) ==> r == Err::<String, ApiError>(ApiError::Conflict),
        r == Err::<String, ApiError>(ApiError::Conflict) ==> old(store)@.contains_key(user.username@),
        !old(store)@.contains_key(user.username@) && user.password@.len() <= MAX_PASSWORD_CHARS && now
            <= u64::MAX - TOKEN_TTL ==> r is Ok,
        match r {
            Ok(t) => {
                &&& final(store)@ == old(store)@.insert(
                    user.username@,
                    (final(store)@[user.username@].0, Seq::empty()),
                )
                &&& verify_outcome(final(store)@[user.username@].0, user.password@) == Ok::<bool, ApiError>(true)
                &&& is_phc_digest(final(store)@[user.username@].0)
                &&& text_result(Ok(t)) == issued(user.username@, now, key.secret@)
                &&& names(t@, key, user.username@)
                &&& token_chars(t@)
                &&& jwt_claims(t@, key.secret@) == Some((user.username@, (now + TOKEN_TTL) as u64))
            },
            Err(e) => final(store)@ == old(store)@ && (e == ApiError::Conflict || e == ApiError::Internal),
        },
{
    if store.contains(user.username.as_str()) {
        return Err(ApiError::Conflict);
    }
    let (new_user, token) = match prepare_registration(user, key, now) {
        Ok(p) => p,
        Err(e) => return Err(e),
    };
    proof {
        assert(items_of(new_user.todos@) =~= Seq::<Seq<char>>::empty());
    }
    match store.create_principal(new_user.username.as_str(), new_user.password.as_str()) {
        Ok(()) => Ok(token),
        Err(e) => Err(e),
    }
}

/// Registers `user` at the current time and gives its session token.
pub fn register(store: &mut UserStore, key: &TokenKey, user: &NewUser) -> (r: Result<String, ApiError>)
    requires
        old(store).wf(),
    ensures
        final(store).wf(),
        old(store)@.contains_key(user.username@) ==> r == Err::<String, ApiError>(ApiError::Conflict),
        r == Err::<String, ApiError>(ApiError::Conflict) ==> old(store)@.contains_key(user.username@),
        match r {
            Ok(t) => {
                &&& final(store)@ == old(store)@.insert(
                    user.username@,
                    (final(store)@[user.username@].0, Seq::empty()),
                )
                &&& verify_outcome(final(store)@[user.username@].0, user.password@) == Ok::<bool, ApiError>(true)
                &&& names(t@, key, user.username@)
                &&& token_chars(t@)
                &&& jwt_claims(t@, key.secret@) matches Some((sub, exp)) && sub == user.username@ && exp >= TOKEN_TTL
            },
            Err(e) => final(store)@ == old(store)@ && (e == ApiError::Conflict || e == ApiError::Internal),
        },
{
    let now = clock_now();
    register_at(store, key, user, now)
}

/// Checks `password` against the stored user `found` and, when it matches,
/// issues a token for that user at time `now`.
pub fn check_login(found: &User, password: &String, key: &TokenKey, now: u64) -> (r: Result<String, ApiError>)
    ensures
        text_result(r) == login_outcome(found.password@, found.username@, password@, now, key.secret@),
        r matches Ok(t) ==> names(t@, key, found.username@) && token_chars(t@),
        r matches Ok(t) ==> jwt_claims(t@, key.secret@) == Some((found.username@, (now + TOKEN_TTL) as u64)),
{
    match verify_password(&found.password, password) {
        Ok(true) => issue(found.username.as_str(), now, key),
        Ok(false) => Err(ApiError::Unauthorized),
        Err(e) => Err(e),
    }
}

/// Logs `user` in at time `now` and gives a session token for it: `NotFound`
/// for an unknown username, else as `login_outcome` says.
pub fn login_at(store: &UserStore, key: &TokenKey, user: &NewUser, now: u64) -> (r: Result<String, ApiError>)
    requires
        store.wf(),
    ensures
        !store@.contains_key(user.username@) ==> r == Err::<String, ApiError>(ApiError::NotFound),
        store@.contains_key(user.username@) ==> text_result(r) == login_outcome(
            store@[user.username@].0,
            user.username@,
            user.password@,
            now,
            key.secret@,
        ),
        r matches Ok(t) ==> names(t@, key, user.username@) && token_chars(t@),
        r matches Ok(t) ==> jwt_claims(t@, key.secret@) == Some((user.username@, (now + TOKEN_TTL) as u64)),
{
    let found = match store.find_by_username(user.username.as_str()) {
        Ok(u) => u,
        Err(e) => return Err(e),
    };
    check_login(&found, &user.password, key, now)
}

/// Logs `user` in at the current time and gives a session token for it.
/// `NotFound` for an unknown username, `Unauthorized` for a wrong password,
/// `Internal` for a malformed stored digest.
pub fn login(store: &UserStore, key: &TokenKey, user: &NewUser) -> (r: Result<String, ApiError>)
    requires
        store.wf(),
    ensures
        !store@.contains_key(user.username@) ==> r == Err::<String, ApiError>(ApiError::NotFound),
        store@.contains_key(user.username@) ==> match verify_outcome(store@[user.username@].0, user.password@) {
            Err(_) => r == Err::<String, ApiError>(ApiError::Internal),
            Ok(false) => r == Err::<String, ApiError>(ApiError::Unauthorized),
            Ok(true) => match r {
                Ok(t) => jwt_claims(t@, key.secret@) matches Some((sub, exp)) && sub == user.username@
                    && exp >= TOKEN_TTL && token_chars(t@),
                Err(e) => e == ApiError::Internal,
            },
        },
{
    let now = clock_now();
    login_at(store, key, user, now)
}

/// The items of the user that the header proves at time `now`:
/// `Unauthorized` without a valid, unexpired token, `NotFound` when that user
/// is not stored.
pub fn get_todos_at(store: &UserStore, key: &TokenKey, header: Option<&str>, now: u64) -> (r: Result<Vec<String>, ApiError>)
    requires
        store.wf(),
    ensures
        match header_subject(header, key.secret@, now) {
            None => r == Err::<Vec<String>, ApiError>(ApiError::Unauthorized),
            Some(u) => if store@.contains_key(u) {
                items_result(r) == Ok::<Seq<Seq<char>>, ApiError>(store@[u].1)
            } else {
                r == Err::<Vec<String>, ApiError>(ApiError::NotFound)
            },
        },
{
    let username = match get_username_at(header, key, now) {
        Ok(u) => u,
        Err(e) => return Err(e),
    };
    match store.find_by_username(username.as_str()) {
        Ok(u) => Ok(u.todos),
        Err(e) => Err(e),
    }
}

/// The items of the user that the header proves at the current time.
pub fn get_todos(store: &UserStore, key: &TokenKey, header: Option<&str>) -> (r: Result<Vec<String>, ApiError>)
    requires
        store.wf(),
    ensures
        header is None ==> r == Err::<Vec<String>, ApiError>(ApiError::Unauthorized),
        match r {
            Ok(v) => exists|u: Seq<char>|
                proves(header, key, u) && #[trigger] store@.contains_key(u) && items_of(v@) == store@[u].1,
            Err(e) => e == ApiError::Unauthorized || (e == ApiError::NotFound && exists|u: Seq<char>|
                proves(header, key, u) && !#[trigger] store@.contains_key(u)),
        },
{
    let now = clock_now();
    let r = get_todos_at(store, key, header, now);
    proof {
        if let Some(u) = header_subject(header, key.secret@, now) {
            assert(proves(header, key, u));
            assert(store@.contains_key(u) || !store@.contains_key(u));
        }
    }
    r
}

/// Appends the new item, in one step, to the list of the user that the header
/// proves at time `now`, and gives the list afterwards. Without a valid,
/// unexpired token: `Unauthorized`, and the store is unchanged.
pub fn post_todo_at(store: &mut UserStore, key: &TokenKey, header: Option<&str>, todo: &NewTodo, now: u64) -> (r: Result<Vec<String>, ApiError>)
    requires
        old(store).wf(),
    ensures
        final(store).wf(),
        match header_subject(header, key.secret@, now) {
            None => r == Err::<Vec<String>, ApiError>(ApiError::Unauthorized) && final(store)@ == old(store)@,
            Some(u) => (items_result(r), final(store)@) == append_outcome(old(store)@, u, todo.content@),
        },
{
    let username = match get_username_at(header, key, now) {
        Ok(u) => u,
        Err(e) => return Err(e),
    };
    store.append_item(username.as_str(), todo.content.as_str())
}

/// Appends the new item to the list of the user that the header proves at
/// the current time and gives the list afterwards.
pub fn post_todo(store: &mut UserStore, key: &TokenKey, header: Option<&str>, todo: &NewTodo) -> (r: Result<Vec<String>, ApiError>)
    requires
        old(store).wf(),
    ensures
        final(store).wf(),
        header is None ==> r == Err::<Vec<String>, ApiError>(ApiError::Unauthorized),
        r == Err::<Vec<String>, ApiError>(ApiError::Unauthorized) ==> final(store)@ == old(store)@,
        r != Err::<Vec<String>, ApiError>(ApiError::Unauthorized) ==> exists|u: Seq<char>|
            #[trigger] proves(header, key, u) && (items_result(r), final(store)@) == append_outcome(
                old(store)@,
                u,
                todo.content@,
            ),
{
    let now = clock_now();
    let r = post_todo_at(store, key, header, todo, now);
    proof {
        if let Some(u) = header_subject(header, key.secret@, now) {
            assert(proves(header, key, u));
        }
    }
    r
}

/// Removes the item at `index` from the list of the user that the header
/// proves at time `now`, checked against the list as it is, and gives the
/// list afterwards. Without a valid, unexpired token: `Unauthorized`, and the
/// store is unchanged.
pub fn delete_todo_at(store: &mut UserStore, key: &TokenKey, header: Option<&str>, index: isize, now: u64) -> (r: Result<Vec<String>, ApiError>)
    requires
        old(store).wf(),
    ensures
        final(store).wf(),
        match header_subject(header, key.secret@, now) {
            None => r == Err::<Vec<String>, ApiError>(ApiError::Unauthorized) && final(store)@ == old(store)@,
            Some(u) => (items_result(r), final(store)@) == remove_outcome(old(store)@, u, index as int),
        },
{
    let username = match get_username_at(header, key, now) {
        Ok(u) => u,
        Err(e) => return Err(e),
    };
    store.remove_at(username.as_str(), index)
}

/// Removes the item at `index` from the list of the user that the header
/// proves at the current time and gives the list afterwards.
pub fn delete_todo(store: &mut UserStore, key: &TokenKey, header: Option<&str>, index: isize) -> (r: Result<Vec<String>, ApiError>)
    requires
        old(store).wf(),
    ensures
        final(store).wf(),
        header is None ==> r == Err::<Vec<String>, ApiError>(ApiError::Unauthorized),
        r == Err::<Vec<String>, ApiError>(ApiError::Unauthorized) ==> final(store)@ == old(store)@,
        r != Err::<Vec<String>, ApiError>(ApiError::Unauthorized) ==> exists|u: Seq<char>|
            #[trigger] proves(header, key, u) && (items_result(r), final(store)@) == remove_outcome(
                old(store)@,
                u,
                index as int,
            ),
{
    let now = clock_now();
    let r = delete_todo_at(store, key, header, index, now);
    proof {
        if let Some(u) = header_subject(header, key.secret@, now) {
            assert(proves(header, key, u));
        }
    }
    r
}

} // verus!
