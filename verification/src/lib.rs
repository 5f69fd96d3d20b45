//! Command core of a medicine inventory: accounts with hashed passwords and
//! per-owner medicine records, kept in a document store that the caller
//! talks to.
//!
//! The commands never touch the store. Each is a function from its
//! arguments and the store's reply to a `Step`: a request to carry out, or
//! the result to return. Whoever holds the connection runs the loop.
//!
//! - `model`, `ident`, `error`: the records, their identifiers, the errors.
//! - `hasher`: password hashing.
//! - `store`: the requests, the replies and the steps.
//! - `user`, `cmd`: signup and login.
//! - `commands`: the inventory commands.
//! - `pattern`: a search query as a regular expression.
//! - `memory`: a store in memory, which says what a store is expected to do.
//! - `session`: the commands run against that store.
//! - `laws`: what is proved of those runs.

pub mod cmd;
pub mod commands;
pub mod error;
pub mod hasher;
pub mod ident;
pub mod laws;
pub mod memory;
pub mod model;
pub mod pattern;
pub mod session;
pub mod store;
pub mod user;
