use vstd::prelude::*;

verus! {

/// The request methods that the routing table tells apart.
#[derive(Clone, Copy, Debug, PartialEq, Eq, Structural)]
pub enum Method {
    Get,
    Post,
    Put,
    Delete,
    Other,
}

/// What a request asks for, decided from its method and path alone.
#[derive(Clone, Copy, Debug, PartialEq, Eq, Structural)]
pub enum Route {
    /// GET `/`: the static page.
    Page,
    /// POST `/users`: store the record in the body under its own id.
    Create,
    /// PUT `/users/{id}`: store the record in the body under the path's id.
    Update(u64),
    /// DELETE `/users/{id}`: drop the record under the path's id.
    Remove(u64),
    /// PUT or DELETE under `/users/` whose id segment is not a `u64`.
    InvalidId,
    /// Every other request.
    NotFound,
}

impl Route {
    /// Whether the route reads a record from the request body.
    pub open spec fn spec_needs_body(self) -> bool {
        self is Create || self is Update
    }

    pub fn needs_body(&self) -> (r: bool)
        ensures
            r == self.spec_needs_body(),
    {
        match self {
            Route::Create => true,
            Route::Update(_) => true,
            _ => false,
        }
    }
}

pub open spec fn root_path() -> Seq<char> {
    seq!['/']
}

pub open spec fn users_path() -> Seq<char> {
    seq!['/', 'u', 's', 'e', 'r', 's']
}

pub open spec fn users_prefix() -> Seq<char> {
    users_path().push('/')
}

pub open spec fn has_prefix(s: Seq<char>, p: Seq<char>) -> bool {
    p.len() <= s.len() && s.subrange(0, p.len() as int) == p
}

/// `s` with every leading copy of `p` taken off.
pub open spec fn strip_prefixes(s: Seq<char>, p: Seq<char>) -> Seq<char>
    decreases s.len(),
{
    if p.len() > 0 && has_prefix(s, p) {
        strip_prefixes(s.subrange(p.len() as int, s.len() as int), p)
    } else {
        s
    }
}

pub open spec fn is_digit(c: char) -> bool {
    '0' <= c && c <= '9'
}

pub open spec fn all_digits(s: Seq<char>) -> bool {
    forall|i: int| 0 <= i < s.len() ==> is_digit(#[trigger] s[i])
}

/// The number that a string of decimal digits denotes.
pub open spec fn digits_value(s: Seq<char>) -> nat
    decreases s.len(),
{
    if s.len() == 0 {
        0
    } else {
        digits_value(s.drop_last()) * 10 + (s.last() as nat - '0' as nat) as nat
    }
}

/// The digits of an unsigned number's text: one leading `+` is allowed.
pub open spec fn unsigned_digits(s: Seq<char>) -> Seq<char> {
    if s.len() > 0 && s[0] == '+' {
        s.drop_first()
    } else {
        s
    }
}

/// The `u64` that `s` denotes, if it is an optional `+` followed by one or
/// more decimal digits whose value fits.
pub open spec fn parsed_u64(s: Seq<char>) -> Option<u64> {
    let d = unsigned_digits(s);
    if d.len() > 0 && all_digits(d) && digits_value(d) <= u64::MAX {
        Some(digits_value(d) as u64)
    } else {
        None
    }
}

/// The id named by the path below `/users/`.
pub open spec fn path_id(path: Seq<char>) -> Option<u64> {
    parsed_u64(strip_prefixes(path, users_prefix()))
}

/// The routing table; the first matching row wins.
pub open spec fn route_spec(method: Method, path: Seq<char>) -> Route {
    if method == Method::Get && path == root_path() {
        Route::Page
    } else if method == Method::Post && path == users_path() {
        Route::Create
    } else if (method == Method::Put || method == Method::Delete) && has_prefix(
        path,
        users_prefix(),
    ) {
        match path_id(path) {
            Some(id) => if method == Method::Put {
                Route::Update(id)
            } else {
                Route::Remove(id)
            },
            None => Route::InvalidId,
        }
    } else {
        Route::NotFound
    }
}

/// Relies on `str::parse::<u64>` (`u64::from_str`): an optional `+`, then
/// decimal digits only, with no overflow.
#[verifier::external_body]
fn parse_u64(s: &str) -> (r: Option<u64>)
    ensures
        r == parsed_u64(s@),
{
    s.parse::<u64>().ok()
}

fn text_has_prefix(s: &str, p: &str) -> (r: bool)
    ensures
        r == has_prefix(s@, p@),
{
    let n = s.unicode_len();
    let m = p.unicode_len();
    if m > n {
        return false;
    }
    let mut i: usize = 0;
    while i < m
        invariant
            n == s@.len(),
            m == p@.len(),
            m <= n,
            i <= m,
            forall|j: int| 0 <= j < i ==> s@[j] == p@[j],
        decreases m - i,
    {
        if s.get_char(i) != p.get_char(i) {
            assert(s@.subrange(0, m as int)[i as int] != p@[i as int]);
            return false;
        }
        i = i + 1;
    }
    assert(s@.subrange(0, m as int) =~= p@);
    true
}

fn text_equals(s: &str, p: &str) -> (r: bool)
    ensures
        r == (s@ == p@),
{
    let r = s.unicode_len() == p.unicode_len() && text_has_prefix(s, p);
    proof {
        if s@.len() == p@.len() {
            assert(s@ =~= s@.subrange(0, p@.len() as int));
        }
    }
    r
}

fn strip_all<'a>(s: &'a str, p: &str) -> (r: &'a str)
    ensures
        r@ == strip_prefixes(s@, p@),
{
    let m = p.unicode_len();
    let mut cur = s;
    if m == 0 {
        return cur;
    }
    while text_has_prefix(cur, p)
        invariant
            m == p@.len(),
            m > 0,
            strip_prefixes(cur@, p@) == strip_prefixes(s@, p@),
        decreases cur@.len(),
    {
        let n = cur.unicode_len();
        cur = cur.substring_char(m, n);
    }
    cur
}

/// The id in a path under `/users/`: every leading `/users/` is taken off
/// and what remains must be an unsigned decimal `u64`.
pub fn parse_id(path: &str) -> (r: Option<u64>)
    ensures
        r == path_id(path@),
{
    proof {
        reveal_strlit("/users/");
        assert("/users/"@ =~= users_prefix());
    }
    parse_u64(strip_all(path, "/users/"))
}

/// Decides the route of a request from its method and path.
pub fn route(method: Method, path: &str) -> (r: Route)
    ensures
        r == route_spec(method, path@),
{
    proof {
        reveal_strlit("/");
        reveal_strlit("/users");
        reveal_strlit("/users/");
        assert("/"@ =~= root_path());
        assert("/users"@ =~= users_path());
        assert("/users/"@ =~= users_prefix());
    }
    if method == Method::Get && text_equals(path, "/") {
        Route::Page
    } else if method == Method::Post && text_equals(path, "/users") {
        Route::Create
    } else if (method == Method::Put || method == Method::Delete) && text_has_prefix(
        path,
        "/users/",
    ) {
        match parse_id(path) {
            Some(id) => if method == Method::Put {
                Route::Update(id)
            } else {
                Route::Remove(id)
            },
            None => Route::InvalidId,
        }
    } else {
        Route::NotFound
    }
}

} // verus!
