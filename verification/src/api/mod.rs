//! What the HTTP interface adds to the services: configuration, the shapes
//! of requests and responses, what a handler reads from a request before it
//! calls a service, and the mapping of errors to status codes.

pub mod config;
pub mod errors;
pub mod handlers;
pub mod requests;
pub mod responses;
