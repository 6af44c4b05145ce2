//! The factory: a registry of collections keyed by a unique symbol, an
//! artist index, and the asynchronous creation-correlation protocol that
//! resolves each pending entry exactly once.

pub mod state;
pub mod msg;
pub mod execute;
pub mod query;
