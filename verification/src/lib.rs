//! Verified core of a counter service: the command paths that address a
//! counter document, the arithmetic the document applies to its stored count,
//! and the decisions the proxies and GraphQL resolvers take on replies.

pub mod domains;
pub mod infra;
pub mod integration;
pub mod json;
pub mod server;
pub mod text;
