//! Decision logic of a small HTTP proxy that answers `GET /weather?city=<name>`
//! by asking an upstream weather service and reshaping its answer.

pub mod handler;
pub mod laws;
pub mod query;
pub mod upstream;
