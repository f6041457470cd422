use vstd::prelude::*;

verus! {

/// Why a request did not succeed.
#[derive(Debug, Clone, Copy, PartialEq, Eq, Structural)]
pub enum ApiError {
    /// A malformed path parameter or request body.
    BadInput,
    /// No route for the path, or no row for the id.
    NotFound,
    /// The path is routed, but not for this method.
    MethodNotAllowed,
    /// No connection could be had from the pool.
    PoolUnavailable,
    /// The statement failed once a connection was held.
    QueryFailed,
}

/// The HTTP status code that answers each error.
pub open spec fn error_status(e: ApiError) -> u16 {
    match e {
        ApiError::BadInput => 400,
        ApiError::NotFound => 404,
        ApiError::MethodNotAllowed => 405,
        ApiError::PoolUnavailable => 503,
        ApiError::QueryFailed => 500,
    }
}

impl ApiError {
    pub fn status(&self) -> (r: u16)
        ensures
            r == error_status(*self),
    {
        match self {
            ApiError::BadInput => 400,
            ApiError::NotFound => 404,
            ApiError::MethodNotAllowed => 405,
            ApiError::PoolUnavailable => 503,
            ApiError::QueryFailed => 500,
        }
    }
}

} // verus!
