//! A verified core for a small CRUD backend over two resources — notes and
//! users — with password-based authentication and signed session tokens.
//!
//! The stores model the two database tables as in-memory state behind the
//! uniqueness constraints the schema declares; every operation's effect is
//! stated against a spec-level transition, and the laws module proves the
//! properties the service owes its callers. Password hashing and token
//! signing are outside calls, held behind small trusted wrappers whose
//! contracts name what the calls compute; the HTTP server, the JSON edge
//! and the database driver live outside the library.

pub mod auth;
pub mod clock;
pub mod errors;
pub mod handler;
pub mod ids;
pub mod laws;
pub mod model;
pub mod note_store;
pub mod password;
pub mod schema;
pub mod token;
pub mod user_store;
