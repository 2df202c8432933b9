use vstd::prelude::*;

use crate::route::{
    all_digits, digits_value, has_prefix, is_digit, parsed_u64, route_spec, strip_prefixes,
    unsigned_digits, users_path, users_prefix, Method, Route,
};
use crate::service::{cors_headers, request_spec, PayloadView};
use crate::user::User;

verus! {

pub open spec fn digit_char(d: nat) -> char {
    if d == 0 { '0' } else if d == 1 { '1' } else if d == 2 { '2' } else if d == 3 { '3' }
    else if d == 4 { '4' } else if d == 5 { '5' } else if d == 6 { '6' } else if d == 7 { '7' }
    else if d == 8 { '8' } else { '9' }
}

/// The canonical decimal text of `n`: no sign, no leading zeros.
pub open spec fn decimal_text(n: nat) -> Seq<char>
    decreases n,
{
    if n < 10 {
        seq![digit_char(n)]
    } else {
        decimal_text(n / 10).push(digit_char(n % 10))
    }
}

/// The path `/users/{id}`.
pub open spec fn user_path(id: u64) -> Seq<char> {
    users_prefix() + decimal_text(id as nat)
}

proof fn lemma_decimal_text(n: nat)
    ensures
        decimal_text(n).len() > 0,
        all_digits(decimal_text(n)),
        digits_value(decimal_text(n)) == n,
    decreases n,
{
    if n < 10 {
        let s = decimal_text(n);
        assert(s.drop_last() =~= Seq::<char>::empty());
        assert(s.last() as nat - '0' as nat == n);
        assert(digits_value(s.drop_last()) == 0);
        assert(digits_value(s) == n);
    } else {
        lemma_decimal_text(n / 10);
        let s = decimal_text(n);
        assert(s.drop_last() =~= decimal_text(n / 10));
        assert(s.last() as nat - '0' as nat == n % 10);
        assert(digits_value(s) == (n / 10) * 10 + n % 10);
        assert((n / 10) * 10 + n % 10 == n) by (nonlinear_arith);
        assert forall|i: int| 0 <= i < s.len() implies is_digit(#[trigger] s[i]) by {
            if i < s.len() - 1 {
                assert(s[i] == decimal_text(n / 10)[i]);
            }
        }
    }
}

proof fn lemma_path_id(id: u64)
    ensures
        has_prefix(user_path(id), users_prefix()),
        parsed_u64(strip_prefixes(user_path(id), users_prefix())) == Some(id),
{
    let p = users_prefix();
    let d = decimal_text(id as nat);
    let s = user_path(id);
    lemma_decimal_text(id as nat);
    assert(s.subrange(0, p.len() as int) =~= p);
    assert(s.subrange(p.len() as int, s.len() as int) =~= d);
    assert(is_digit(d[0]));
    assert(!has_prefix(d, p)) by {
        if has_prefix(d, p) {
            assert(d.subrange(0, p.len() as int)[0] == p[0]);
        }
    }
    assert(strip_prefixes(d, p) == d);
    assert(strip_prefixes(s, p) == d);
    assert(unsigned_digits(d) == d);
}

/// Routing the path `/users/{id}` finds `id`, for PUT and for DELETE.
pub proof fn lemma_user_path_routes(id: u64)
    ensures
        route_spec(Method::Put, user_path(id)) == Route::Update(id),
        route_spec(Method::Delete, user_path(id)) == Route::Remove(id),
{
    lemma_path_id(id);
    let s = user_path(id);
    assert(s.len() > users_path().len());
    assert(s != users_path());
    assert(s != seq!['/']) by {
        assert(s.len() > 1);
    }
}

/// Creating record `r` with POST `/users` answers 200 with `r` itself, and
/// afterwards the store holds exactly `r` under `r.id`.
pub proof fn lemma_create_then_lookup(m: Map<u64, User>, r: User)
    ensures
        ({
            let (after, resp) = request_spec(m, Method::Post, users_path(), Ok(r));
            &&& resp.status == 200
            &&& resp.body == PayloadView::Record(r)
            &&& after.contains_key(r.id)
            &&& after[r.id] == r
        }),
{
    assert(users_path() != seq!['/']) by {
        assert(users_path().len() != 1);
    }
}

/// PUT `/users/{i}` with record `r` stores under `i` a record whose id is
/// `i`, whatever id `r` carries; the other fields come from `r`.
pub proof fn lemma_update_forces_path_id(m: Map<u64, User>, i: u64, r: User)
    ensures
        ({
            let (after, resp) = request_spec(m, Method::Put, user_path(i), Ok(r));
            &&& resp.status == 200
            &&& after.contains_key(i)
            &&& after[i].id == i
            &&& after[i] == r.spec_with_id(i)
            &&& resp.body == PayloadView::Record(after[i])
        }),
{
    lemma_user_path_routes(i);
}

/// DELETE `/users/{i}` twice in a row answers 204 both times, the same
/// response, and the second call leaves the store as the first left it.
pub proof fn lemma_delete_idempotent(
    m: Map<u64, User>,
    i: u64,
    b1: Result<User, Seq<char>>,
    b2: Result<User, Seq<char>>,
)
    ensures
        ({
            let (m1, r1) = request_spec(m, Method::Delete, user_path(i), b1);
            let (m2, r2) = request_spec(m1, Method::Delete, user_path(i), b2);
            &&& r1.status == 204
            &&& r2 == r1
            &&& m1 == m.remove(i)
            &&& m2 == m1
        }),
{
    lemma_user_path_routes(i);
    let m1 = m.remove(i);
    assert(m1.remove(i) =~= m1);
}

/// A request that matches no row of the routing table answers 404 and
/// still carries the cross-origin headers; the store is untouched.
pub proof fn lemma_unknown_route(
    m: Map<u64, User>,
    method: Method,
    path: Seq<char>,
    body: Result<User, Seq<char>>,
)
    requires
        route_spec(method, path) == Route::NotFound,
    ensures
        ({
            let (after, resp) = request_spec(m, method, path, body);
            &&& resp.status == 404
            &&& resp.headers == cors_headers()
            &&& after == m
        }),
{
}

/// Every response, whatever the request and the store, carries the three
/// cross-origin headers.
pub proof fn lemma_cors_everywhere(
    m: Map<u64, User>,
    method: Method,
    path: Seq<char>,
    body: Result<User, Seq<char>>,
)
    ensures
        request_spec(m, method, path, body).1.headers == cors_headers(),
{
}

} // verus!
