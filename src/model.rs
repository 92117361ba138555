use vstd::prelude::*;

verus! {

/// A stored user: the username, the password digest and the item list.
#[derive(Clone, Debug, PartialEq, Eq)]
pub struct User {
    pub username: String,
    pub password: String,
    pub todos: Vec<String>,
}

/// The credentials sent to register or log in.
#[derive(Clone, Debug, PartialEq, Eq)]
pub struct NewUser {
    pub username: String,
    pub password: String,
}

/// A user as shown to clients: the username and the items, no digest.
#[derive(Clone, Debug, PartialEq, Eq)]
pub struct UserResponse {
    pub username: String,
    pub todos: Vec<String>,
}

/// The text of an item to append.
#[derive(Clone, Debug, PartialEq, Eq)]
pub struct NewTodo {
    pub content: String,
}

/// The items of a list, as text.
pub open spec fn items_of(v: Seq<String>) -> Seq<Seq<char>> {
    v.map_values(|s: String| s@)
}

/// A copy of a list of items.
pub fn copy_items(v: &Vec<String>) -> (r: Vec<String>)
    ensures
        r@ == v@,
{
    let mut r: Vec<String> = Vec::new();
    let mut i: usize = 0;
    while i < v.len()
        invariant
            i <= v.len(),
            r@ == v@.subrange(0, i as int),
        decreases v.len() - i,
    {
        let s = v[i].clone();
        r.push(s);
        i = i + 1;
        assert(r@ =~= v@.subrange(0, i as int));
    }
    assert(v@.subrange(0, v@.len() as int) =~= v@);
    r
}

impl UserResponse {
    /// The client view of a user: the username and a copy of the items.
    pub fn from_user(u: &User) -> (r: UserResponse)
        ensures
            r.username@ == u.username@,
            r.todos@ == u.todos@,
    {
        UserResponse { username: u.username.clone(), todos: copy_items(&u.todos) }
    }
}

} // verus!
