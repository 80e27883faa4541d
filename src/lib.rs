//! Rendering the outcome of a GraphQL query as an HTTP response: the
//! closed set of query failures with their messages, the JSON error
//! objects they become, and the status code of each outcome.
pub mod text;
pub mod error;
pub mod diagnostic;
pub mod response;
pub mod laws;
