//! Directed block relationships between accounts.
//!
//! One account (the blocker) may suppress interaction with another (the
//! target). This crate holds the rules of that relationship: the guard that
//! decides whether a request may proceed, the keyed store of relationships,
//! and the service that ties guard, store and account lookup together.
//! Every function carries a contract over mathematical models of the data,
//! and the laws that relate several calls are proved in [`laws`].

pub mod account;
pub mod error;
pub mod directory;
pub mod guard;
pub mod laws;
pub mod service;
pub mod store;
