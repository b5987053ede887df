//! Verified core of serving a resource type over HTTP: the five storage operations and
//! the fixed failure of an unimplemented one, page parameters and their defaults, the
//! route table, parsing of a request into a storage call, the response to an outcome,
//! and an in-memory store that assigns identifiers.

pub mod error;
pub mod laws;
pub mod page;
pub mod request;
pub mod routes;
pub mod store;
