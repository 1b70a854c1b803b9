//! A small CRUD service for book records: the record model, an in-memory
//! storage gateway with unique identifiers, the request handlers, the router
//! that maps a method and a path to a handler, and the error translator.

pub mod clock;
pub mod db;
pub mod error;
pub mod handlers;
pub mod laws;
pub mod model;
pub mod router;

pub use db::Db;
pub use error::ApiError;
pub use model::{book, BookPayload, Timestamp};
