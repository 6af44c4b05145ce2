//! One deployed collection: its configuration, its pass registry and the
//! mint / renew / burn lifecycle, with the payment split applied on every
//! mint and renewal.

pub mod state;
pub mod msg;
pub mod execute;
pub mod query;


