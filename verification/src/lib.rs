//! Request-dispatch and authentication core of a small JSON HTTP API for a
//! blog/news content store.
//!
//! The library classifies a request into a route, decides whether it needs
//! authentication, judges a bearer token against a fetched key set, and maps
//! every outcome to a well-formed HTTP response. All I/O — the listening
//! socket, the key-set fetch, the store — lives outside; callers hand in
//! plain values and perform the actions the dispatcher asks for.

pub mod auth;
pub mod dispatch;
pub mod http;
pub mod json;
pub mod laws;
pub mod models;
pub mod routes;
pub mod strutil;
