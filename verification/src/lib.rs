//! Bundling token transfers from several signing identities into one atomic
//! transaction, and the on-chain subscription state machine that such a
//! transaction can pay into.

pub mod builder;
pub mod bundle;
pub mod keys;
pub mod vault;
