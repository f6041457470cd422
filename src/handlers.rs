use vstd::prelude::*;

use crate::error::{error_status, ApiError};
use crate::models::{NewTodo, Todo, UpdateTodo};
use crate::router::Route;

verus! {

/// What a response carries after its status code.
#[derive(Debug, Clone, PartialEq, Eq)]
pub enum Body {
    Empty,
    One(Todo),
    Many(Vec<Todo>),
}

/// An HTTP answer: its status code and what its JSON body holds.
#[derive(Debug, Clone, PartialEq, Eq)]
pub struct Response {
    pub status: u16,
    pub body: Body,
}

/// The single statement that a routed request runs against the store.
#[derive(Debug, Clone, PartialEq, Eq)]
pub enum Operation {
    Insert(NewTodo),
    SelectAll,
    SelectById(i32),
    UpdateById(i32, UpdateTodo),
    DeleteById(i32),
}

/// The statement for a route, given the request's body when it held a
/// well-formed record (`None` when it was missing or malformed).
pub open spec fn operation_of(route: Route, body: Option<NewTodo>) -> Result<Operation, ApiError> {
    match route {
        Route::CreateTodo => match body {
            Some(n) => Ok(Operation::Insert(n)),
            None => Err(ApiError::BadInput),
        },
        Route::ListTodos => Ok(Operation::SelectAll),
        Route::GetTodo(id) => Ok(Operation::SelectById(id)),
        Route::UpdateTodo(id) => match body {
            Some(n) => Ok(Operation::UpdateById(id, UpdateTodo { title: n.title, content: n.content })),
            None => Err(ApiError::BadInput),
        },
        Route::DeleteTodo(id) => Ok(Operation::DeleteById(id)),
    }
}

/// Decides the statement for a routed request; a create or an update
/// without a well-formed body is bad input and reaches no store.
pub fn plan(route: Route, body: Option<NewTodo>) -> (r: Result<Operation, ApiError>)
    ensures
        r == operation_of(route, body),
{
    match route {
        Route::CreateTodo => match body {
            Some(n) => Ok(Operation::Insert(n)),
            None => Err(ApiError::BadInput),
        },
        Route::ListTodos => Ok(Operation::SelectAll),
        Route::GetTodo(id) => Ok(Operation::SelectById(id)),
        Route::UpdateTodo(id) => match body {
            Some(n) => Ok(Operation::UpdateById(id, UpdateTodo { title: n.title, content: n.content })),
            None => Err(ApiError::BadInput),
        },
        Route::DeleteTodo(id) => Ok(Operation::DeleteById(id)),
    }
}

/// The answer to a failed request: its status code and no body.
pub fn error_response(e: ApiError) -> (r: Response)
    ensures
        r.status == error_status(e),
        r.body == Body::Empty,
{
    Response { status: e.status(), body: Body::Empty }
}

/// Answers a create: 201 with the stored record, which carries the id that
/// the store assigned.
pub fn create_todo(outcome: Result<Todo, ApiError>) -> (r: Response)
    ensures
        outcome matches Ok(t) ==> r.status == 201 && r.body == Body::One(t),
        outcome matches Err(e) ==> r == error_response_of(e),
{
    match outcome {
        Ok(t) => Response { status: 201, body: Body::One(t) },
        Err(e) => error_response(e),
    }
}

/// Answers a list: 200 with every record read, possibly none.
pub fn get_todos(outcome: Result<Vec<Todo>, ApiError>) -> (r: Response)
    ensures
        outcome matches Ok(v) ==> r.status == 200 && r.body == Body::Many(v),
        outcome matches Err(e) ==> r == error_response_of(e),
{
    match outcome {
        Ok(v) => Response { status: 200, body: Body::Many(v) },
        Err(e) => error_response(e),
    }
}

/// Answers a statement that reads or writes the record `todo_id`: 200 with
/// the record when the store returned that very record. A row with another
/// id is a failed query, never a success; no row at all is not found.
fn one_by_id(todo_id: i32, outcome: Result<Todo, ApiError>) -> (r: Response)
    ensures
        r == by_id_response_of(todo_id, outcome),
{
    match outcome {
        Ok(t) => {
            if t.id == todo_id {
                Response { status: 200, body: Body::One(t) }
            } else {
                error_response(ApiError::QueryFailed)
            }
        },
        Err(e) => error_response(e),
    }
}

pub open spec fn error_response_of(e: ApiError) -> Response {
    Response { status: error_status(e), body: Body::Empty }
}

/// The answer to a read or an update of the record `todo_id`.
pub open spec fn by_id_response_of(todo_id: i32, outcome: Result<Todo, ApiError>) -> Response {
    match outcome {
        Ok(t) => if t.id == todo_id {
            Response { status: 200, body: Body::One(t) }
        } else {
            error_response_of(ApiError::QueryFailed)
        },
        Err(e) => error_response_of(e),
    }
}

/// Answers a read of the record `todo_id`.
pub fn get_todo(todo_id: i32, outcome: Result<Todo, ApiError>) -> (r: Response)
    ensures
        r == by_id_response_of(todo_id, outcome),
        outcome matches Ok(t) ==> (t.id == todo_id ==> r.status == 200 && r.body == Body::One(t)),
        outcome == Err::<Todo, ApiError>(ApiError::NotFound) ==> r.status == 404,
{
    one_by_id(todo_id, outcome)
}

/// Answers an update of the record `todo_id` with the record as stored
/// after it.
pub fn update_todo(todo_id: i32, outcome: Result<Todo, ApiError>) -> (r: Response)
    ensures
        r == by_id_response_of(todo_id, outcome),
        outcome matches Ok(t) ==> (t.id == todo_id ==> r.status == 200 && r.body == Body::One(t)),
        outcome == Err::<Todo, ApiError>(ApiError::NotFound) ==> r.status == 404,
{
    one_by_id(todo_id, outcome)
}

/// Answers a delete: 204 and no body, whether or not a row matched.
pub fn delete_todo(outcome: Result<usize, ApiError>) -> (r: Response)
    ensures
        outcome is Ok ==> r.status == 204 && r.body == Body::Empty,
        outcome matches Err(e) ==> r == error_response_of(e),
{
    match outcome {
        Ok(_) => Response { status: 204, body: Body::Empty },
        Err(e) => error_response(e),
    }
}

} // verus!
