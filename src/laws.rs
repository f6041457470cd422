use vstd::prelude::*;

use crate::error::ApiError;
use crate::handlers::{by_id_response_of, operation_of, Body, Operation};
use crate::models::{NewTodo, Todo, UpdateTodo};
use crate::router::{
    all_digits, digits_value, id_of, id_segment, is_digit, route_of, sign_len, todos_path, Method,
    Route,
};

verus! {

/// A natural number written in decimal, without leading zeros.
pub open spec fn decimal(n: nat) -> Seq<u8>
    decreases n,
{
    if n < 10 {
        seq![(48 + n) as u8]
    } else {
        decimal(n / 10).push((48 + n % 10) as u8)
    }
}

/// An id written in decimal, as a record's `id` is written in JSON.
pub open spec fn id_text(id: i32) -> Seq<u8> {
    if id < 0 {
        seq![45u8] + decimal((-id) as nat)
    } else {
        decimal(id as nat)
    }
}

/// The path `/todos/{id}` of the record `id`.
pub open spec fn item_path(id: i32) -> Seq<u8> {
    todos_path().push(47u8) + id_text(id)
}

proof fn lemma_decimal(n: nat)
    ensures
        decimal(n).len() > 0,
        all_digits(decimal(n)),
        digits_value(decimal(n)) == n,
    decreases n,
{
    if n >= 10 {
        lemma_decimal(n / 10);
        let d = decimal(n);
        assert(d.drop_last() =~= decimal(n / 10));
        assert(d.last() == (48 + n % 10) as u8);
        assert((n / 10) * 10 + n % 10 == n) by (nonlinear_arith);
        assert(d.last() - 48 == n % 10);
        assert(digits_value(d) == digits_value(d.drop_last()) * 10 + (d.last() - 48));
        assert forall|i: int| 0 <= i < d.len() implies is_digit(#[trigger] d[i]) by {
            if i < d.len() - 1 {
                assert(d[i] == decimal(n / 10)[i]);
            }
        }
    } else {
        assert(decimal(n).drop_last() =~= Seq::<u8>::empty());
        assert(decimal(n).last() - 48 == n);
        assert(digits_value(decimal(n)) == digits_value(decimal(n).drop_last()) * 10 + (decimal(n).last() - 48));
    }
}

proof fn lemma_id_text(id: i32)
    ensures
        id_of(id_text(id)) == Some(id),
        forall|i: int| 0 <= i < id_text(id).len() ==> #[trigger] id_text(id)[i] != 47u8,
{
    let t = id_text(id);
    if id < 0 {
        let d = decimal((-id) as nat);
        lemma_decimal((-id) as nat);
        assert(t[0] == 45u8);
        assert(sign_len(t) == 1);
        assert(t.subrange(1, t.len() as int) =~= d);
        assert forall|i: int| 0 <= i < t.len() implies #[trigger] t[i] != 47u8 by {
            if i > 0 {
                assert(t[i] == d[i - 1]);
                assert(is_digit(d[i - 1]));
            }
        }
    } else {
        lemma_decimal(id as nat);
        assert(is_digit(t[0]));
        assert(sign_len(t) == 0);
        assert(t.subrange(0, t.len() as int) =~= t);
        assert forall|i: int| 0 <= i < t.len() implies #[trigger] t[i] != 47u8 by {
            assert(is_digit(t[i]));
        }
    }
}

/// The path of any record, as a client writes it from the record's id,
/// routes a read, an update or a delete to that same id.
pub proof fn lemma_item_path_routes_to_its_id(id: i32)
    ensures
        route_of(Method::Get, item_path(id)) == Ok::<Route, ApiError>(Route::GetTodo(id)),
        route_of(Method::Post, item_path(id)) == Ok::<Route, ApiError>(Route::UpdateTodo(id)),
        route_of(Method::Delete, item_path(id)) == Ok::<Route, ApiError>(Route::DeleteTodo(id)),
{
    lemma_id_text(id);
    let p = item_path(id);
    let t = id_text(id);
    assert(p.len() > 7);
    assert(p.subrange(0, 7) =~= todos_path().push(47u8));
    assert forall|i: int| 7 <= i < p.len() implies #[trigger] p[i] != 47u8 by {
        assert(p[i] == t[i - 7]);
    }
    assert(p.subrange(7, p.len() as int) =~= t);
    assert(p != todos_path());
}

/// A read or an update of the record `id` succeeds only with a record whose
/// id is `id`, whatever the store answered; a store that finds no row, as
/// after a delete, makes it a 404.
pub proof fn lemma_by_id_success_names_its_id(id: i32, outcome: Result<Todo, ApiError>)
    ensures
        by_id_response_of(id, outcome).status == 200 ==> (by_id_response_of(id, outcome).body
            matches Body::One(t) && t.id == id),
        outcome == Err::<Todo, ApiError>(ApiError::NotFound) ==> by_id_response_of(id, outcome).status
            == 404,
{
}

/// An update of the record `id` with a record `{title, content}` hands the
/// store exactly those two fields for that id, and when the store returns
/// the record with them, the answer carries them.
pub proof fn lemma_update_carries_fields(id: i32, body: NewTodo)
    ensures
        operation_of(Route::UpdateTodo(id), Some(body)) == Ok::<Operation, ApiError>(
            Operation::UpdateById(id, UpdateTodo { title: body.title, content: body.content }),
        ),
        ({
            let stored = Todo { id, title: body.title, content: body.content };
            &&& by_id_response_of(id, Ok(stored)).status == 200
            &&& by_id_response_of(id, Ok(stored)).body == Body::One(stored)
        }),
{
}

} // verus!
