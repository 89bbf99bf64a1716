//! The plain number types that every pallet shares.

use vstd::prelude::*;

verus! {

/// Identifier of an account.
pub type AccountId = u64;

/// An amount of the native currency.
pub type Balance = u128;

/// The height of a block.
pub type BlockNumber = u64;

} // verus!
