use todo_rs::error::ApiError;
use todo_rs::router::{parse_id, route, Method, Route};

#[test]
fn parse_id_reads_plain_and_signed_decimals() {
    assert_eq!(parse_id(b"1"), Some(1));
    assert_eq!(parse_id(b"0042"), Some(42));
    assert_eq!(parse_id(b"+7"), Some(7));
    assert_eq!(parse_id(b"-15"), Some(-15));
}

#[test]
fn parse_id_takes_the_extremes_of_i32() {
    assert_eq!(parse_id(b"2147483647"), Some(i32::MAX));
    assert_eq!(parse_id(b"-2147483648"), Some(i32::MIN));
}

#[test]
fn parse_id_refuses_out_of_range() {
    assert_eq!(parse_id(b"2147483648"), None);
    assert_eq!(parse_id(b"-2147483649"), None);
    assert_eq!(parse_id(b"99999999999999999999999"), None);
}

#[test]
fn parse_id_refuses_non_integers() {
    assert_eq!(parse_id(b""), None);
    assert_eq!(parse_id(b"-"), None);
    assert_eq!(parse_id(b"+"), None);
    assert_eq!(parse_id(b"abc"), None);
    assert_eq!(parse_id(b"1a"), None);
    assert_eq!(parse_id(b"1.5"), None);
    assert_eq!(parse_id(b" 1"), None);
    assert_eq!(parse_id(b"--1"), None);
}

#[test]
fn route_collection_path() {
    assert_eq!(route(Method::Post, "/todos"), Ok(Route::CreateTodo));
    assert_eq!(route(Method::Get, "/todos"), Ok(Route::ListTodos));
    assert_eq!(route(Method::Delete, "/todos"), Err(ApiError::MethodNotAllowed));
    assert_eq!(route(Method::Other, "/todos"), Err(ApiError::MethodNotAllowed));
}

#[test]
fn route_item_path() {
    assert_eq!(route(Method::Get, "/todos/1"), Ok(Route::GetTodo(1)));
    assert_eq!(route(Method::Post, "/todos/12"), Ok(Route::UpdateTodo(12)));
    assert_eq!(route(Method::Delete, "/todos/-3"), Ok(Route::DeleteTodo(-3)));
    assert_eq!(route(Method::Other, "/todos/1"), Err(ApiError::MethodNotAllowed));
}

#[test]
fn route_bad_id_is_bad_input() {
    assert_eq!(route(Method::Get, "/todos/abc"), Err(ApiError::BadInput));
    assert_eq!(route(Method::Delete, "/todos/3000000000"), Err(ApiError::BadInput));
    assert_eq!(ApiError::BadInput.status(), 400);
}

#[test]
fn route_unknown_paths_are_not_found() {
    assert_eq!(route(Method::Get, "/"), Err(ApiError::NotFound));
    assert_eq!(route(Method::Get, "/todo"), Err(ApiError::NotFound));
    assert_eq!(route(Method::Get, "/todos/"), Err(ApiError::NotFound));
    assert_eq!(route(Method::Get, "/todos/1/"), Err(ApiError::NotFound));
    assert_eq!(route(Method::Get, "/todos/1/x"), Err(ApiError::NotFound));
    assert_eq!(route(Method::Get, "/todosx"), Err(ApiError::NotFound));
    assert_eq!(route(Method::Get, "/users/1"), Err(ApiError::NotFound));
}

#[test]
fn error_statuses() {
    assert_eq!(ApiError::BadInput.status(), 400);
    assert_eq!(ApiError::NotFound.status(), 404);
    assert_eq!(ApiError::MethodNotAllowed.status(), 405);
    assert_eq!(ApiError::QueryFailed.status(), 500);
    assert_eq!(ApiError::PoolUnavailable.status(), 503);
}

#[test]
fn item_path_of_an_id_routes_to_that_id() {
    for id in [0, 1, 7, 10, 42, 1000, -1, -250, i32::MAX, i32::MIN] {
        let path = format!("/todos/{}", id);
        assert_eq!(route(Method::Get, &path), Ok(Route::GetTodo(id)));
        assert_eq!(route(Method::Post, &path), Ok(Route::UpdateTodo(id)));
        assert_eq!(route(Method::Delete, &path), Ok(Route::DeleteTodo(id)));
    }
}
