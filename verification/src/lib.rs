//! A minimal blog publishing backend: list posts, view a post by slug,
//! create a post.
//!
//! The library holds the whole request-handling logic — the data model,
//! the in-memory model of the posts table, the JSON parsing of a new
//! post, the HTML rendering, and the mapping from query results to HTTP
//! responses — all of it verified.  Process entry, the HTTP listener and
//! the database driver live outside, in an unverified shell that hands
//! this library plain values and takes plain values back.

pub mod handlers;
pub mod json;
pub mod model;
pub mod render;
pub mod store;
pub mod text;
