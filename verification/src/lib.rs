//! Core of a small web forum: user accounts, top-level messages with
//! threaded replies, and direct messages grouped by conversation ids.
//!
//! The library owns the forum's data model — an in-memory relational
//! store with the five tables of the persisted layout — together with
//! the identity check, the conversation-id resolver, and the pure
//! assembly of render contexts. File backing, HTTP transport and
//! template rendering live outside the library.

pub mod auth;
pub mod context;
pub mod errors;
pub mod resolver;
pub mod routes;
pub mod rows;
pub mod session;
pub mod store;
