//! Who is calling: the caller classes that every entry point checks first.

use vstd::prelude::*;
use crate::primitives::AccountId;

verus! {

/// The caller of an entry point.
#[derive(Clone, Copy, Debug, PartialEq, Eq, Structural)]
pub enum Origin {
    /// The privileged system caller.
    Root,
    /// An ordinary caller who signed with the given account.
    Signed(AccountId),
    /// Nobody: an instruction that carries no signature.
    Unsigned,
}

/// The caller is not of the class that the entry point asks for.
#[derive(Clone, Copy, Debug, PartialEq, Eq, Structural)]
pub struct BadOrigin;

/// The account behind a signed caller; every other caller is refused.
pub fn ensure_signed(origin: Origin) -> (res: Result<AccountId, BadOrigin>)
    ensures
        res == (match origin {
            Origin::Signed(who) => Ok::<AccountId, BadOrigin>(who),
            _ => Err::<AccountId, BadOrigin>(BadOrigin),
        }),
{
    match origin {
        Origin::Signed(who) => Ok(who),
        _ => Err(BadOrigin),
    }
}

/// Passes the privileged system caller; every other caller is refused.
pub fn ensure_root(origin: Origin) -> (res: Result<(), BadOrigin>)
    ensures
        res == (match origin {
            Origin::Root => Ok::<(), BadOrigin>(()),
            _ => Err::<(), BadOrigin>(BadOrigin),
        }),
{
    match origin {
        Origin::Root => Ok(()),
        _ => Err(BadOrigin),
    }
}

} // verus!
