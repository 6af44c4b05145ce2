//! A factory / access-pass library for a host that executes calls one at a
//! time against a piece of state.
//!
//! The factory keeps a registry of collections, each identified by a unique
//! uppercase symbol.  Creating a collection is asynchronous: the factory
//! records a *pending* entry, hands the caller a creation request tagged with
//! a correlation token, and resolves the entry when the host later delivers
//! the acknowledgment carrying that token and the new address.
//!
//! Each collection issues time-windowed, non-transferable passes.  A pass is
//! `Active` until it expires, renewable through a grace period, and removable
//! once the grace period has passed.  Every mint or renewal splits the payment
//! between a house payee and the collection's artist by an exact integer
//! percentage split.
//!
//! All state lives in plain values owned by the caller; the host's storage,
//! identity validation and message encoding stay outside this crate.

pub mod error;
pub mod text;
pub mod payment;
pub mod factory;
pub mod pass;
