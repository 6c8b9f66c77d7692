//! An in-memory todo service: the data model, a storage interface with an
//! in-memory implementation, input validation, and request handlers that
//! map each operation to a status and a body.

pub mod todo;
pub mod repository;
pub mod validation;
pub mod handlers;
