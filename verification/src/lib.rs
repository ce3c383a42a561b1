//! An in-memory user directory behind a GraphQL endpoint.
//!
//! The directory is a [`store::UserStore`], shared between requests through a
//! [`context::Context`]. The resolvers of the schema are in [`schema`]. The
//! HTTP side is a decision at a time: [`dispatch::dispatch`] says what to do
//! with a request, [`request`] and [`query_string`] read a GraphQL request out
//! of it, and [`response`] frames what the executor made of it. Reading from
//! and writing to the network, and walking a GraphQL document, are left to
//! the program that uses the library.

pub mod bind;
pub mod context;
pub mod dispatch;
pub mod query_string;
pub mod request;
pub mod response;
pub mod schema;
pub mod store;
pub mod text;
pub mod user;
