use crate::error::ApiError;
use crate::model::{copy_items, items_of, User};
use vstd::prelude::*;

verus! {

/// What the store holds for one user: the password digest and the items.
pub type Record = (Seq<char>, Seq<Seq<char>>);

/// The contents of a store: each username with its record.
pub type Contents = Map<Seq<char>, Record>;

pub open spec fn record_of(u: User) -> Record {
    (u.password@, items_of(u.todos@))
}

/// Creating a principal: `Conflict` when the username is taken, and then
/// nothing changes; else the user is added with an empty list.
pub open spec fn create_outcome(m: Contents, username: Seq<char>, digest: Seq<char>) -> (Result<(), ApiError>, Contents) {
    if m.contains_key(username) {
        (Err(ApiError::Conflict), m)
    } else {
        (Ok(()), m.insert(username, (digest, Seq::empty())))
    }
}

/// Appending an item: `NotFound` for an unknown user, else the item is added
/// at the end of that user's list, in one step.
pub open spec fn append_outcome(m: Contents, username: Seq<char>, text: Seq<char>) -> (Result<Seq<Seq<char>>, ApiError>, Contents) {
    if m.contains_key(username) {
        let items = m[username].1.push(text);
        (Ok(items), m.insert(username, (m[username].0, items)))
    } else {
        (Err(ApiError::NotFound), m)
    }
}

/// Whether `index` addresses an item of a list of `len` items.
pub open spec fn in_range(index: int, len: int) -> bool {
    0 <= index < len
}

/// Removing the item at `index`: `NotFound` for an unknown user,
/// `InvalidInput` for a position outside the list, and in both cases nothing
/// changes; else the item is taken out and the rest keep their order.
pub open spec fn remove_outcome(m: Contents, username: Seq<char>, index: int) -> (Result<Seq<Seq<char>>, ApiError>, Contents) {
    if !m.contains_key(username) {
        (Err(ApiError::NotFound), m)
    } else if !in_range(index, m[username].1.len() as int) {
        (Err(ApiError::InvalidInput), m)
    } else {
        let items = m[username].1.remove(index);
        (Ok(items), m.insert(username, (m[username].0, items)))
    }
}

/// The contents after appending each of `texts` in turn to the list of
/// `username`, each append taking effect in one step.
pub open spec fn after_appends(m: Contents, username: Seq<char>, texts: Seq<Seq<char>>) -> Contents
    decreases texts.len(),
{
    if texts.len() == 0 {
        m
    } else {
        append_outcome(after_appends(m, username, texts.drop_last()), username, texts.last()).1
    }
}

/// Once a username has been registered, registering it again is refused with
/// `Conflict` and leaves the store as it was: there is never a second record.
pub proof fn lemma_second_registration_conflicts(m: Contents, username: Seq<char>, first: Seq<char>, second: Seq<char>)
    ensures
        create_outcome(m, username, first).1.contains_key(username),
        create_outcome(create_outcome(m, username, first).1, username, second) == (
        Err::<(), ApiError>(ApiError::Conflict),
        create_outcome(m, username, first).1,
        ),
{
}

/// Appends for one user, applied one after another in whatever order they
/// arrive, lose none: the list ends as it began followed by every appended
/// text, so it grows by exactly their number and holds each of them.
pub proof fn lemma_appends_lose_nothing(m: Contents, username: Seq<char>, texts: Seq<Seq<char>>)
    requires
        m.contains_key(username),
    ensures
        after_appends(m, username, texts).contains_key(username),
        after_appends(m, username, texts)[username].0 == m[username].0,
        after_appends(m, username, texts)[username].1 == m[username].1 + texts,
        after_appends(m, username, texts)[username].1.len() == m[username].1.len() + texts.len(),
        forall|i: int| 0 <= i < texts.len() ==> after_appends(m, username, texts)[username].1.contains(
            #[trigger] texts[i],
        ),
    decreases texts.len(),
{
    let end = after_appends(m, username, texts)[username].1;
    if texts.len() > 0 {
        lemma_appends_lose_nothing(m, username, texts.drop_last());
        assert(m[username].1 + texts.drop_last() + seq![texts.last()] =~= m[username].1 + texts);
    } else {
        assert(m[username].1 + texts =~= m[username].1);
    }
    assert forall|i: int| 0 <= i < texts.len() implies end.contains(#[trigger] texts[i]) by {
        assert(end[m[username].1.len() + i] == texts[i]);
    }
}

/// On a user whose list is empty, appending `first`, then `second`, then
/// removing position 0 gives `[first]`, `[first, second]` and `[second]`, and
/// the list ends as `[second]`.
pub proof fn lemma_append_append_remove(m: Contents, username: Seq<char>, first: Seq<char>, second: Seq<char>)
    requires
        m.contains_key(username),
        m[username].1.len() == 0,
    ensures
        append_outcome(m, username, first).0 == Ok::<Seq<Seq<char>>, ApiError>(seq![first]),
        append_outcome(append_outcome(m, username, first).1, username, second).0 == Ok::<
            Seq<Seq<char>>,
            ApiError,
        >(seq![first, second]),
        remove_outcome(
            append_outcome(append_outcome(m, username, first).1, username, second).1,
            username,
            0,
        ).0 == Ok::<Seq<Seq<char>>, ApiError>(seq![second]),
        remove_outcome(
            append_outcome(append_outcome(m, username, first).1, username, second).1,
            username,
            0,
        ).1[username].1 == seq![second],
{
    let m1 = append_outcome(m, username, first).1;
    assert(m[username].1.push(first) =~= seq![first]);
    let m2 = append_outcome(m1, username, second).1;
    assert(m1[username].1.push(second) =~= seq![first, second]);
    assert(m2[username].1.remove(0) =~= seq![second]);
}

/// Removing at a position outside `[0, length)` is refused with
/// `InvalidInput` and leaves the list, and the whole store, unchanged.
pub proof fn lemma_out_of_range_removal_changes_nothing(m: Contents, username: Seq<char>, index: int)
    requires
        m.contains_key(username),
        index < 0 || index >= m[username].1.len(),
    ensures
        remove_outcome(m, username, index) == (Err::<Seq<Seq<char>>, ApiError>(ApiError::InvalidInput), m),
{
}

/// The items of a list result, as text.
pub open spec fn items_result(r: Result<Vec<String>, ApiError>) -> Result<Seq<Seq<char>>, ApiError> {
    match r {
        Ok(v) => Ok(items_of(v@)),
        Err(e) => Err(e),
    }
}

/// How a round trip to the persistent store failed.
#[derive(Clone, Copy, Debug, PartialEq, Eq, Structural)]
pub enum StoreFault {
    /// The write broke the unique index on usernames.
    Duplicate,
    /// Any other failure: connection, I/O, encoding.
    Unavailable,
}

/// The store server's error code for a write that breaks a unique index.
pub const DUPLICATE_KEY_CODE: i32 = 11000;

/// How a failed round trip is classed, given the code of the write error it
/// reported, if any: only a duplicate-key write is `Duplicate`.
pub fn fault_of_write_code(code: Option<i32>) -> (r: StoreFault)
    ensures
        r == (if code == Some(DUPLICATE_KEY_CODE) {
            StoreFault::Duplicate
        } else {
            StoreFault::Unavailable
        }),
{
    match code {
        Some(c) => if c == DUPLICATE_KEY_CODE {
            StoreFault::Duplicate
        } else {
            StoreFault::Unavailable
        },
        None => StoreFault::Unavailable,
    }
}

/// What an insertion into the persistent store means to callers: a
/// uniqueness violation is `Conflict`, any other failure `Internal`.
pub fn insert_result(r: Result<(), StoreFault>) -> (res: Result<(), ApiError>)
    ensures
        res == match r {
            Ok(()) => Ok::<(), ApiError>(()),
            Err(StoreFault::Duplicate) => Err(ApiError::Conflict),
            Err(StoreFault::Unavailable) => Err(ApiError::Internal),
        },
{
    match r {
        Ok(()) => Ok(()),
        Err(StoreFault::Duplicate) => Err(ApiError::Conflict),
        Err(StoreFault::Unavailable) => Err(ApiError::Internal),
    }
}

/// What a lookup or an update by username in the persistent store means to
/// callers: the user found, `NotFound` when there is none, and `Internal` on
/// any failure of the store.
pub fn lookup_result(r: Result<Option<User>, StoreFault>) -> (res: Result<User, ApiError>)
    ensures
        match r {
            Ok(Some(u)) => res == Ok::<User, ApiError>(u),
            Ok(None) => res == Err::<User, ApiError>(ApiError::NotFound),
            Err(_) => res == Err::<User, ApiError>(ApiError::Internal),
        },
{
    match r {
        Ok(Some(u)) => Ok(u),
        Ok(None) => Err(ApiError::NotFound),
        Err(_) => Err(ApiError::Internal),
    }
}

/// Takes the item at `index` out of `todos` when `index` addresses one, and
/// reports `InvalidInput`, leaving `todos` as it was, when it does not.
pub fn remove_index(todos: &mut Vec<String>, index: isize) -> (r: Result<(), ApiError>)
    ensures
        in_range(index as int, old(todos)@.len() as int) ==> r is Ok && final(todos)@ == old(todos)@.remove(index as int),
        !in_range(index as int, old(todos)@.len() as int) ==> r == Err::<(), ApiError>(ApiError::InvalidInput) && final(todos)@ == old(todos)@,
{
    if index >= 0 && (index as usize) < todos.len() {
        todos.remove(index as usize);
        Ok(())
    } else {
        Err(ApiError::InvalidInput)
    }
}

/// Whether two texts are equal, character by character.
fn same_text(a: &str, b: &str) -> (r: bool)
    ensures
        r == (a@ == b@),
{
    let n = a.unicode_len();
    if n != b.unicode_len() {
        return false;
    }
    let mut i: usize = 0;
    while i < n
        invariant
            n == a@.len(),
            n == b@.len(),
            i <= n,
            a@.subrange(0, i as int) == b@.subrange(0, i as int),
        decreases n - i,
    {
        if a.get_char(i) != b.get_char(i) {
            assert(a@[i as int] != b@[i as int]);
            return false;
        }
        assert(a@.subrange(0, i + 1) =~= a@.subrange(0, i as int).push(a@[i as int]));
        assert(b@.subrange(0, i + 1) =~= b@.subrange(0, i as int).push(b@[i as int]));
        i = i + 1;
    }
    assert(a@ =~= a@.subrange(0, n as int));
    assert(b@ =~= b@.subrange(0, n as int));
    true
}

/// An in-memory store of users, keyed by a unique username.
pub struct UserStore {
    users: Vec<User>,
    contents: Ghost<Contents>,
}

impl UserStore {
    /// Each username with its record.
    pub closed spec fn view(&self) -> Contents {
        self.contents@
    }

    /// The stored users have distinct usernames, and the contents are exactly
    /// their records.
    pub closed spec fn wf(&self) -> bool {
        &&& forall|i: int, j: int|
            0 <= i < j < self.users@.len() ==> self.users@[i].username@ != self.users@[j].username@
        &&& forall|i: int|
            0 <= i < self.users@.len() ==> #[trigger] self.contents@.contains_key(self.users@[i].username@)
                && self.contents@[self.users@[i].username@] == record_of(self.users@[i])
        &&& forall|k: Seq<char>|
            #[trigger] self.contents@.contains_key(k) ==> exists|i: int|
                0 <= i < self.users@.len() && self.users@[i].username@ == k
    }

    /// An empty store.
    pub fn new() -> (r: UserStore)
        ensures
            r.wf(),
            r@ == Contents::empty(),
    {
        UserStore { users: Vec::new(), contents: Ghost(Map::empty()) }
    }

    /// The position of the user named `username`, if there is one.
    fn position(&self, username: &str) -> (r: Option<usize>)
        requires
            self.wf(),
        ensures
            match r {
                Some(i) => i < self.users@.len() && self.users@[i as int].username@ == username@
                    && self@.contains_key(username@) && self@[username@] == record_of(self.users@[i as int]),
                None => !self@.contains_key(username@),
            },
    {
        let mut i: usize = 0;
        while i < self.users.len()
            invariant
                self.wf(),
                i <= self.users@.len(),
                forall|j: int| 0 <= j < i ==> self.users@[j].username@ != username@,
            decreases self.users@.len() - i,
        {
            if same_text(self.users[i].username.as_str(), username) {
                assert(self.contents@.contains_key(self.users@[i as int].username@));
                return Some(i);
            }
            i = i + 1;
        }
        None
    }

    /// Whether a user named `username` is stored.
    pub fn contains(&self, username: &str) -> (r: bool)
        requires
            self.wf(),
        ensures
            r == self@.contains_key(username@),
    {
        self.position(username).is_some()
    }

    /// The user named `username`, or `NotFound`.
    pub fn find_by_username(&self, username: &str) -> (r: Result<User, ApiError>)
        requires
            self.wf(),
        ensures
            match r {
                Ok(u) => self@.contains_key(username@) && u.username@ == username@ && record_of(u) == self@[username@],
                Err(e) => !self@.contains_key(username@) && e == ApiError::NotFound,
            },
    {
        match self.position(username) {
            Some(i) => {
                let u = &self.users[i];
                Ok(User { username: u.username.clone(), password: u.password.clone(), todos: copy_items(&u.todos) })
            },
            None => Err(ApiError::NotFound),
        }
    }

    /// Adds a user with the password digest `digest` and an empty list, unless
    /// the username is taken.
    pub fn create_principal(&mut self, username: &str, digest: &str) -> (r: Result<(), ApiError>)
        requires
            old(self).wf(),
        ensures
            final(self).wf(),
            (r, final(self)@) == create_outcome(old(self)@, username@, digest@),
    {
        match self.position(username) {
            Some(_) => Err(ApiError::Conflict),
            None => {
                let u = User { username: username.to_string(), password: digest.to_string(), todos: Vec::new() };
                proof {
                    assert(items_of(u.todos@) =~= Seq::<Seq<char>>::empty());
                }
                let ghost old_users = self.users@;
                self.users.push(u);
                self.contents = Ghost(self.contents@.insert(username@, (digest@, Seq::empty())));
                assert forall|k: Seq<char>| #[trigger] self.contents@.contains_key(k) implies exists|i: int|
                    0 <= i < self.users@.len() && self.users@[i].username@ == k by {
                    if k == username@ {
                        assert(self.users@[old_users.len() as int].username@ == k);
                    } else {
                        let i = choose|i: int| 0 <= i < old_users.len() && old_users[i].username@ == k;
                        assert(self.users@[i].username@ == k);
                    }
                }
                Ok(())
            },
        }
    }

    /// Replaces the list of the user at position `i`.
    fn set_items(&mut self, i: usize, todos: Vec<String>)
        requires
            old(self).wf(),
            i < old(self).users@.len(),
        ensures
            final(self).wf(),
            final(self).users@.len() == old(self).users@.len(),
            final(self).users@[i as int].username@ == old(self).users@[i as int].username@,
            final(self)@ == old(self)@.insert(
                old(self).users@[i as int].username@,
                (old(self).users@[i as int].password@, items_of(todos@)),
            ),
    {
        let ghost old_users = self.users@;
        let ghost name = old_users[i as int].username@;
        let mut u = self.users.remove(i);
        u.todos = todos;
        self.users.insert(i, u);
        assert(self.users@ =~= old_users.update(i as int, self.users@[i as int]));
        self.contents = Ghost(self.contents@.insert(name, record_of(self.users@[i as int])));
        assert forall|a: int| 0 <= a < self.users@.len() implies #[trigger] self.contents@.contains_key(
            self.users@[a].username@,
        ) && self.contents@[self.users@[a].username@] == record_of(self.users@[a]) by {
            if a != i {
                assert(old_users[a].username@ != name);
            }
        }
        assert forall|k: Seq<char>| #[trigger] self.contents@.contains_key(k) implies exists|a: int|
            0 <= a < self.users@.len() && self.users@[a].username@ == k by {
            if k == name {
                assert(self.users@[i as int].username@ == k);
            } else {
                let a = choose|a: int| 0 <= a < old_users.len() && old_users[a].username@ == k;
                assert(self.users@[a].username@ == k);
            }
        }
    }

    /// Appends `text` to the list of `username` in one step and gives the
    /// list as it is afterwards; `NotFound` for an unknown user.
    pub fn append_item(&mut self, username: &str, text: &str) -> (r: Result<Vec<String>, ApiError>)
        requires
            old(self).wf(),
        ensures
            final(self).wf(),
            match r {
                Ok(v) => append_outcome(old(self)@, username@, text@) == (
                Ok::<Seq<Seq<char>>, ApiError>(items_of(v@)),
                final(self)@,
                ),
                Err(e) => append_outcome(old(self)@, username@, text@) == (Err::<Seq<Seq<char>>, ApiError>(e), final(self)@),
            },
    {
        match self.position(username) {
            None => Err(ApiError::NotFound),
            Some(i) => {
                let mut todos = copy_items(&self.users[i].todos);
                let ghost before = todos@;
                todos.push(text.to_string());
                assert(items_of(todos@) =~= items_of(before).push(text@));
                let result = copy_items(&todos);
                self.set_items(i, todos);
                Ok(result)
            },
        }
    }

    /// Removes the item at `index` from the list of `username`, checked
    /// against the list as it is now, and gives the list as it is afterwards.
    /// `NotFound` for an unknown user, `InvalidInput` for a position outside
    /// the list; on either failure the store is unchanged.
    pub fn remove_at(&mut self, username: &str, index: isize) -> (r: Result<Vec<String>, ApiError>)
        requires
            old(self).wf(),
        ensures
            final(self).wf(),
            match r {
                Ok(v) => remove_outcome(old(self)@, username@, index as int) == (
                Ok::<Seq<Seq<char>>, ApiError>(items_of(v@)),
                final(self)@,
                ),
                Err(e) => remove_outcome(old(self)@, username@, index as int) == (Err::<Seq<Seq<char>>, ApiError>(e), final(self)@),
            },
    {
        match self.position(username) {
            None => Err(ApiError::NotFound),
            Some(i) => {
                let mut todos = copy_items(&self.users[i].todos);
                let ghost before = todos@;
                match remove_index(&mut todos, index) {
                    Err(e) => Err(e),
                    Ok(()) => {
                        assert(items_of(todos@) =~= items_of(before).remove(index as int));
                        let result = copy_items(&todos);
                        self.set_items(i, todos);
                        Ok(result)
                    },
                }
            },
        }
    }
}

} // verus!
