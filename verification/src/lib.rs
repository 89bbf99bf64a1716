//! Verified state-transition logic for a small family of runtime pallets.

pub mod currency;
pub mod dispatch;
pub mod dpos;
pub mod free_tx;
pub mod hashing;
pub mod multisig;
pub mod origin;
pub mod primitives;
pub mod runtime;
pub mod treasury;
pub mod weight;
