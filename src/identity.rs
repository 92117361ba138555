use crate::error::ApiError;
use crate::token::{clock_now, jwt_claims, token_chars, token_subject, verify_token, TokenKey};
use vstd::prelude::*;

verus! {

/// Unicode white space, as `char::is_whitespace` takes it.
pub open spec fn is_ws(c: char) -> bool {
    let n = c as u32;
    (9 <= n && n <= 13) || n == 32 || n == 0x85 || n == 0xA0 || n == 0x1680 || (0x2000 <= n
        && n <= 0x200A) || n == 0x2028 || n == 0x2029 || n == 0x202F || n == 0x205F || n == 0x3000
}

pub open spec fn trim_start(s: Seq<char>) -> Seq<char>
    decreases s.len(),
{
    if s.len() > 0 && is_ws(s[0]) {
        trim_start(s.drop_first())
    } else {
        s
    }
}

pub open spec fn trim_end(s: Seq<char>) -> Seq<char>
    decreases s.len(),
{
    if s.len() > 0 && is_ws(s.last()) {
        trim_end(s.drop_last())
    } else {
        s
    }
}

/// `s` without its leading and trailing white space.
pub open spec fn trimmed(s: Seq<char>) -> Seq<char> {
    trim_end(trim_start(s))
}

pub open spec fn no_colon(s: Seq<char>) -> bool {
    forall|k: int| 0 <= k < s.len() ==> s[k] != ':'
}

/// The position of the first `:` in `s`, or its length when there is none.
pub open spec fn first_colon(s: Seq<char>) -> int {
    if no_colon(s) {
        s.len() as int
    } else {
        choose|p: int| 0 <= p < s.len() && s[p] == ':' && no_colon(s.subrange(0, p))
    }
}

/// The token that an `Authorization` header value carries: the text after
/// the first `:` up to the next `:` (or the end), without surrounding white
/// space. A value without any `:` carries none.
pub open spec fn header_token(h: Seq<char>) -> Option<Seq<char>> {
    if no_colon(h) {
        None
    } else {
        let rest = h.subrange(first_colon(h) + 1, h.len() as int);
        Some(trimmed(rest.subrange(0, first_colon(rest))))
    }
}

proof fn lemma_first_colon_at(s: Seq<char>, i: int)
    requires
        0 <= i < s.len(),
        s[i] == ':',
        no_colon(s.subrange(0, i)),
    ensures
        first_colon(s) == i,
{
    assert(!no_colon(s));
    let p = first_colon(s);
    assert(0 <= p < s.len() && s[p] == ':' && no_colon(s.subrange(0, p)));
    if p < i {
        assert(s.subrange(0, i)[p] == s[p]);
    }
    if p > i {
        assert(s.subrange(0, p)[i] == s[i]);
    }
}

fn is_whitespace(c: char) -> (r: bool)
    ensures
        r == is_ws(c),
{
    let n = c as u32;
    (9 <= n && n <= 13) || n == 32 || n == 0x85 || n == 0xA0 || n == 0x1680 || (0x2000 <= n
        && n <= 0x200A) || n == 0x2028 || n == 0x2029 || n == 0x202F || n == 0x205F || n == 0x3000
}

/// The position of the first `:` in `s`, or its length.
fn colon_index(s: &str) -> (r: usize)
    ensures
        r == first_colon(s@),
        r <= s@.len(),
        r == s@.len() <==> no_colon(s@),
{
    let len = s.unicode_len();
    let mut i: usize = 0;
    while i < len
        invariant
            len == s@.len(),
            i <= len,
            no_colon(s@.subrange(0, i as int)),
        decreases len - i,
    {
        if s.get_char(i) == ':' {
            proof {
                lemma_first_colon_at(s@, i as int);
            }
            assert(!no_colon(s@));
            return i;
        }
        i = i + 1;
        assert(no_colon(s@.subrange(0, i as int))) by {
            assert forall|k: int| 0 <= k < i implies s@.subrange(0, i as int)[k] != ':' by {
                if k < i - 1 {
                    assert(s@.subrange(0, i - 1)[k] == s@[k]);
                }
            }
        }
    }
    assert(s@.subrange(0, len as int) =~= s@);
    len
}

/// `s` without its leading and trailing white space.
fn trim_ws(s: &str) -> (r: String)
    ensures
        r@ == trimmed(s@),
{
    let len = s.unicode_len();
    let mut i: usize = 0;
    assert(s@.subrange(0, len as int) =~= s@);
    while i < len && is_whitespace(s.get_char(i))
        invariant
            len == s@.len(),
            i <= len,
            trim_start(s@) == trim_start(s@.subrange(i as int, len as int)),
        decreases len - i,
    {
        assert(s@.subrange(i as int, len as int).drop_first() =~= s@.subrange(i + 1, len as int));
        i = i + 1;
    }
    assert(trim_start(s@) == s@.subrange(i as int, len as int));
    let mut j: usize = len;
    while j > i && is_whitespace(s.get_char(j - 1))
        invariant
            len == s@.len(),
            i <= j <= len,
            trim_end(s@.subrange(i as int, len as int)) == trim_end(s@.subrange(i as int, j as int)),
        decreases j - i,
    {
        assert(s@.subrange(i as int, j as int).drop_last() =~= s@.subrange(i as int, j - 1));
        j = j - 1;
    }
    assert(trim_end(s@.subrange(i as int, j as int)) == s@.subrange(i as int, j as int));
    s.substring_char(i, j).to_string()
}

/// The token that the `Authorization` header carries, if the header is
/// present and holds a `:`.
pub fn get_jwt_from_header(header: Option<&str>) -> (r: Option<String>)
    ensures
        match header {
            None => r is None,
            Some(h) => match header_token(h@) {
                None => r is None,
                Some(t) => r matches Some(x) && x@ == t,
            },
        },
{
    match header {
        None => None,
        Some(h) => {
            let len = h.unicode_len();
            let p = colon_index(h);
            if p == len {
                return None;
            }
            let rest = h.substring_char(p + 1, len);
            let q = colon_index(rest);
            let segment = rest.substring_char(0, q);
            Some(trim_ws(segment))
        },
    }
}

/// The outcome of resolving a request's identity.
#[derive(Debug, PartialEq, Eq)]
pub enum AuthOutcome {
    Authenticated(String),
    MissingCredential,
    InvalidOrExpiredToken,
}

/// Resolves the identity that the `Authorization` header value claims at time
/// `now`: `MissingCredential` when no token is present, the token's subject
/// when it is well signed and unexpired, and `InvalidOrExpiredToken` otherwise.
pub fn resolve(header: Option<&str>, key: &TokenKey, now: u64) -> (r: AuthOutcome)
    ensures
        match header {
            None => r is MissingCredential,
            Some(h) => match header_token(h@) {
                None => r is MissingCredential,
                Some(t) => match token_subject(t, key.secret@, now) {
                    Ok(s) => r matches AuthOutcome::Authenticated(u) && u@ == s,
                    Err(_) => r is InvalidOrExpiredToken,
                },
            },
        },
{
    match get_jwt_from_header(header) {
        None => AuthOutcome::MissingCredential,
        Some(t) => match verify_token(t.as_str(), key, now) {
            Ok(u) => AuthOutcome::Authenticated(u),
            Err(_) => AuthOutcome::InvalidOrExpiredToken,
        },
    }
}

/// The username that the `Authorization` header value proves at time `now`:
/// the subject of the token it carries, when that token is well signed and
/// unexpired.
pub open spec fn header_subject(header: Option<&str>, secret: Seq<char>, now: u64) -> Option<Seq<char>> {
    match header {
        Some(h) => match header_token(h@) {
            Some(t) => match token_subject(t, secret, now) {
                Ok(s) => Some(s),
                Err(_) => None,
            },
            None => None,
        },
        None => None,
    }
}

/// The header value that carries `token`: `Bearer: <token>`.
pub open spec fn bearer(token: Seq<char>) -> Seq<char> {
    seq!['B', 'e', 'a', 'r', 'e', 'r', ':', ' '] + token
}

/// An issued token, sent as `Bearer: <token>`, is read back unchanged.
pub proof fn lemma_bearer_round_trip(token: Seq<char>)
    requires
        token_chars(token),
    ensures
        header_token(bearer(token)) == Some(token),
{
    let h = bearer(token);
    assert(no_colon(h.subrange(0, 6))) by {
        assert forall|k: int| 0 <= k < 6 implies h.subrange(0, 6)[k] != ':' by {
            assert(h.subrange(0, 6)[k] == h[k]);
        }
    }
    assert(h[6] == ':');
    lemma_first_colon_at(h, 6);
    let rest = h.subrange(7, h.len() as int);
    assert(rest =~= seq![' '] + token);
    assert(no_colon(rest)) by {
        assert forall|k: int| 0 <= k < rest.len() implies rest[k] != ':' by {
            if k > 0 {
                assert(rest[k] == token[k - 1]);
            }
        }
    }
    assert(rest.subrange(0, rest.len() as int) =~= rest);
    assert(rest.drop_first() =~= token);
    assert(is_ws(' '));
    if token.len() > 0 {
        assert(!is_ws(token[0]));
        assert(!is_ws(token.last()));
    }
    assert(trim_start(token) == token);
    assert(trim_start(rest) == trim_start(rest.drop_first()));
    assert(trim_start(rest) == token);
    assert(trim_end(token) == token);
}

/// A token that names `username` until `exp`, sent as `Bearer: <token>`,
/// proves `username` at every time before `exp`, and nothing from then on.
pub proof fn lemma_bearer_session(token: Seq<char>, secret: Seq<char>, username: Seq<char>, exp: u64, now: u64)
    requires
        token_chars(token),
        jwt_claims(token, secret) == Some((username, exp)),
    ensures
        header_token(bearer(token)) == Some(token),
        now < exp ==> token_subject(token, secret, now) == Ok::<Seq<char>, ApiError>(username),
        now >= exp ==> token_subject(token, secret, now) is Err,
{
    lemma_bearer_round_trip(token);
}

/// The username that the `Authorization` header value proves at time `now`,
/// or `Unauthorized`.
pub fn get_username_at(header: Option<&str>, key: &TokenKey, now: u64) -> (r: Result<String, ApiError>)
    ensures
        match header_subject(header, key.secret@, now) {
            Some(s) => r matches Ok(u) && u@ == s,
            None => r == Err::<String, ApiError>(ApiError::Unauthorized),
        },
{
    match resolve(header, key, now) {
        AuthOutcome::Authenticated(u) => Ok(u),
        _ => Err(ApiError::Unauthorized),
    }
}

/// The username that the `Authorization` header value proves at the current
/// time, or `Unauthorized`.
pub fn get_username_from_jwt(header: Option<&str>, key: &TokenKey) -> (r: Result<String, ApiError>)
    ensures
        match r {
            Ok(u) => header matches Some(h) && header_token(h@) matches Some(t)
                && jwt_claims(t, key.secret@) matches Some((sub, _)) && sub == u@,
            Err(e) => e == ApiError::Unauthorized,
        },
        header is None ==> r is Err,
        (header matches Some(h) && header_token(h@) is None) ==> r is Err,
{
    let now = clock_now();
    get_username_at(header, key, now)
}

} // verus!
