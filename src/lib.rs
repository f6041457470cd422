//! A todo service's library: the record model, the request router, the
//! error taxonomy and the shaping of responses from storage outcomes.
pub mod error;
pub mod handlers;
pub mod laws;
pub mod models;
pub mod router;
