use vstd::prelude::*;

use crate::error::ApiError;
use vstd::slice::slice_subrange;
use vstd::string::StringSliceAdditionalSpecFns;

verus! {

/// The request methods that the routes distinguish.
#[derive(Debug, Clone, Copy, PartialEq, Eq, Structural)]
pub enum Method {
    Get,
    Post,
    Delete,
    Other,
}

/// What a request asks of the store.
#[derive(Debug, Clone, Copy, PartialEq, Eq, Structural)]
pub enum Route {
    CreateTodo,
    ListTodos,
    GetTodo(i32),
    UpdateTodo(i32),
    DeleteTodo(i32),
}

pub open spec fn is_digit(c: u8) -> bool {
    48 <= c <= 57
}

/// The value of a run of decimal digits, most significant first.
pub open spec fn digits_value(s: Seq<u8>) -> int
    decreases s.len(),
{
    if s.len() == 0 {
        0
    } else {
        digits_value(s.drop_last()) * 10 + (s.last() - 48)
    }
}

pub open spec fn all_digits(d: Seq<u8>) -> bool {
    forall|i: int| 0 <= i < d.len() ==> is_digit(#[trigger] d[i])
}

/// The length of the sign that may open a decimal integer: `-` or `+`.
pub open spec fn sign_len(s: Seq<u8>) -> int {
    if s.len() > 0 && (s[0] == 45u8 || s[0] == 43u8) {
        1
    } else {
        0
    }
}

/// An integer in decimal: an optional `+` or `-`, then one digit or more,
/// whose value fits in an `i32`.
pub open spec fn id_of(s: Seq<u8>) -> Option<i32> {
    let digits = s.subrange(sign_len(s), s.len() as int);
    let magnitude = digits_value(digits);
    let value = if s.len() > 0 && s[0] == 45u8 { -magnitude } else { magnitude };
    if digits.len() > 0 && all_digits(digits) && i32::MIN <= value <= i32::MAX {
        Some(value as i32)
    } else {
        None
    }
}

proof fn lemma_digits_value_grows(s: Seq<u8>, i: int, j: int)
    requires
        0 <= i <= j <= s.len(),
        forall|k: int| 0 <= k < s.len() ==> is_digit(#[trigger] s[k]),
    ensures
        0 <= digits_value(s.subrange(0, i)) <= digits_value(s.subrange(0, j)),
    decreases j - i,
{
    if i < j {
        lemma_digits_value_grows(s, i, j - 1);
        assert(s.subrange(0, j).drop_last() =~= s.subrange(0, j - 1));
    } else {
        lemma_digits_value_nonneg(s.subrange(0, i));
    }
}

proof fn lemma_digits_value_nonneg(s: Seq<u8>)
    requires
        forall|k: int| 0 <= k < s.len() ==> is_digit(#[trigger] s[k]),
    ensures
        digits_value(s) >= 0,
    decreases s.len(),
{
    if s.len() > 0 {
        lemma_digits_value_nonneg(s.drop_last());
    }
}

/// Reads a path segment as an id: an `i32` in decimal, as `id_of` says.
pub fn parse_id(s: &[u8]) -> (r: Option<i32>)
    ensures
        r == id_of(s@),
{
    let len = s.len();
    let negative = len > 0 && s[0] == 45u8;
    let start: usize = if len > 0 && (s[0] == 45u8 || s[0] == 43u8) { 1 } else { 0 };
    let ghost digits = s@.subrange(start as int, len as int);
    assert(start == sign_len(s@));
    if start >= len {
        assert(digits.len() == 0);
        assert(s@.subrange(sign_len(s@), s@.len() as int) == digits);
        assert(id_of(s@) is None);
        return None;
    }
    // The magnitude may reach 2^31, which an i32 cannot hold.
    let limit: i64 = 2147483648;
    let mut acc: i64 = 0;
    let mut i: usize = start;
    assert(digits.subrange(0, 0) =~= Seq::<u8>::empty());
    while i < len
        invariant
            start <= i <= len,
            start == sign_len(s@),
            len == s@.len(),
            digits == s@.subrange(start as int, len as int),
            forall|k: int| 0 <= k < i - start ==> is_digit(#[trigger] digits[k]),
            acc == digits_value(digits.subrange(0, i - start)),
            limit == 2147483648,
            0 <= acc <= limit,
        decreases len - i,
    {
        let c = s[i];
        if c < 48u8 || c > 57u8 {
            assert(!is_digit(digits[i - start]));
            assert(!all_digits(digits));
            return None;
        }
        assert(digits.subrange(0, i - start + 1).drop_last() =~= digits.subrange(0, i - start));
        let next = acc * 10 + (c - 48u8) as i64;
        if next > limit {
            proof {
                assert(forall|k: int| 0 <= k < i - start + 1 ==> is_digit(#[trigger] digits[k]));
                if all_digits(digits) {
                    lemma_digits_value_grows(digits, i - start + 1, digits.len() as int);
                    assert(digits.subrange(0, digits.len() as int) =~= digits);
                }
                assert(s@.subrange(sign_len(s@), s@.len() as int) == digits);
                assert(id_of(s@) is None);
            }
            return None;
        }
        acc = next;
        i = i + 1;
    }
    assert(digits.subrange(0, i - start) =~= digits);
    if negative {
        Some((0 - acc) as i32)
    } else if acc > 2147483647 {
        None
    } else {
        Some(acc as i32)
    }
}

/// The bytes of `/todos`.
pub open spec fn todos_path() -> Seq<u8> {
    seq![47u8, 116u8, 111u8, 100u8, 111u8, 115u8]
}

/// The last segment of `/todos/{id}`: what follows `/todos/`, where that is
/// not empty and holds no `/`.
pub open spec fn id_segment(p: Seq<u8>) -> Option<Seq<u8>> {
    if p.len() > 7 && p.subrange(0, 7) == todos_path().push(47u8)
        && (forall|i: int| 7 <= i < p.len() ==> #[trigger] p[i] != 47u8) {
        Some(p.subrange(7, p.len() as int))
    } else {
        None
    }
}

/// The route table: `/todos` takes POST (create) and GET (list);
/// `/todos/{id}` takes GET (read), POST (update) and DELETE. A routed path
/// with another method is refused as such before its id is read; an id that
/// is not an `i32` in decimal is bad input; any other path is not found.
pub open spec fn route_of(m: Method, p: Seq<u8>) -> Result<Route, ApiError> {
    if p == todos_path() {
        match m {
            Method::Post => Ok(Route::CreateTodo),
            Method::Get => Ok(Route::ListTodos),
            _ => Err(ApiError::MethodNotAllowed),
        }
    } else {
        match id_segment(p) {
            None => Err(ApiError::NotFound),
            Some(seg) => match (m, id_of(seg)) {
                (Method::Other, _) => Err(ApiError::MethodNotAllowed),
                (_, None) => Err(ApiError::BadInput),
                (Method::Get, Some(id)) => Ok(Route::GetTodo(id)),
                (Method::Post, Some(id)) => Ok(Route::UpdateTodo(id)),
                (Method::Delete, Some(id)) => Ok(Route::DeleteTodo(id)),
            },
        }
    }
}

fn starts_with_todos(b: &[u8]) -> (r: bool)
    ensures
        r == (b@.len() >= 6 && b@.subrange(0, 6) == todos_path()),
{
    if b.len() < 6 {
        return false;
    }
    let r = b[0] == 47u8 && b[1] == 116u8 && b[2] == 111u8 && b[3] == 100u8 && b[4] == 111u8
        && b[5] == 115u8;
    assert(r ==> b@.subrange(0, 6) =~= todos_path());
    r
}

/// Maps a request's method and path to what it asks of the store.
pub fn route(method: Method, path: &str) -> (r: Result<Route, ApiError>)
    ensures
        r == route_of(method, path.spec_bytes()),
{
    let b = path.as_bytes();
    let len = b.len();
    let prefixed = starts_with_todos(b);
    if prefixed && len == 6 {
        assert(b@ =~= b@.subrange(0, 6));
        return match method {
            Method::Post => Ok(Route::CreateTodo),
            Method::Get => Ok(Route::ListTodos),
            _ => Err(ApiError::MethodNotAllowed),
        };
    }
    if !prefixed || len <= 7 || b[6] != 47u8 {
        proof {
            if b@ == todos_path() {
                assert(b@.subrange(0, 6) =~= b@);
            }
        }
        assert(id_segment(b@) is None) by {
            if b@.len() >= 7 && b@.subrange(0, 7) == todos_path().push(47u8) {
                assert(todos_path().push(47u8).subrange(0, 6) =~= todos_path());
                assert(b@.subrange(0, 6) =~= b@.subrange(0, 7).subrange(0, 6));
                assert(b@[6] == b@.subrange(0, 7)[6]);
            }
        }
        return Err(ApiError::NotFound);
    }
    assert(b@.subrange(0, 7) =~= todos_path().push(47u8));
    let mut i: usize = 7;
    while i < len
        invariant
            7 <= i <= len,
            len == b@.len(),
            b@ == path.spec_bytes(),
            b@.subrange(0, 7) == todos_path().push(47u8),
            forall|k: int| 7 <= k < i ==> #[trigger] b@[k] != 47u8,
        decreases len - i,
    {
        if b[i] == 47u8 {
            assert(b@[i as int] == 47u8);
            assert(id_segment(b@) is None);
            return Err(ApiError::NotFound);
        }
        i = i + 1;
    }
    let seg = slice_subrange(b, 7, len);
    assert(id_segment(b@) == Some(seg@));
    if method == Method::Other {
        return Err(ApiError::MethodNotAllowed);
    }
    match parse_id(seg) {
        None => Err(ApiError::BadInput),
        Some(id) => Ok(
            match method {
                Method::Get => Route::GetTodo(id),
                Method::Post => Route::UpdateTodo(id),
                _ => Route::DeleteTodo(id),
            },
        ),
    }
}

} // verus!
