//! An in-memory cache with expiring records, and the line protocol of its
//! server: `set`, `get`, `add` and `replace`.
//!
//! - [`store`] holds the records and drops an expired one when a lookup finds it.
//! - [`codec`] reads request lines and writes replies.
//! - [`connection`] is the state machine of one client connection.
//! - [`laws`] and [`grammar`] state what holds of every run of the above.

pub mod clock;
pub mod codec;
pub mod config;
pub mod connection;
pub mod decimal;
pub mod entry;
pub mod grammar;
pub mod laws;
pub mod store;
pub mod text;
