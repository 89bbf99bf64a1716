//! What an entry point hands back to the host: success, or the reason a call was rejected.

use vstd::prelude::*;
use crate::origin::BadOrigin;
use crate::weight::Weight;

verus! {

/// Why an entry point rejected a call. `E` is the error enumeration of the pallet that owns the
/// entry point.
#[derive(Debug, PartialEq, Eq)]
pub enum DispatchError<E> {
    /// The caller is not of the class that the entry point asks for.
    BadOrigin,
    /// A rejection that is described by a fixed message only.
    Other(&'static str),
    /// One of the pallet's own errors.
    Module(E),
}

/// The outcome of an entry point that reports nothing but success.
pub type DispatchResult<E> = Result<(), DispatchError<E>>;

/// Whether the host keeps the fee that was taken for a call.
#[derive(Clone, Copy, Debug, PartialEq, Eq, Structural)]
pub enum Pays {
    /// The fee stays with the host.
    Yes,
    /// The fee is refunded: the call was free.
    No,
}

/// What a successful entry point tells the host about the fee.
#[derive(Clone, Copy, Debug, PartialEq, Eq, Structural)]
pub struct PostDispatchInfo {
    /// The weight that the call used, where it differs from what was announced.
    pub actual_weight: Option<Weight>,
    /// Whether the fee for the call is kept.
    pub pays_fee: Pays,
}

/// A rejection together with what the host is told about the fee.
#[derive(Debug, PartialEq, Eq)]
pub struct DispatchErrorWithPostInfo<H> {
    /// What the host is told about the fee of the rejected call.
    pub post_info: PostDispatchInfo,
    /// Why the call was rejected.
    pub error: H,
}

/// The outcome of an entry point that also decides on the fee. A rejected call always pays.
pub type DispatchResultWithPostInfo<E> = Result<PostDispatchInfo, DispatchError<E>>;

impl PostDispatchInfo {
    /// The report of a call that used what it announced and decides the fee as given.
    pub fn from_pays(pays_fee: Pays) -> (res: Self)
        ensures
            res == (PostDispatchInfo { actual_weight: None, pays_fee }),
    {
        PostDispatchInfo { actual_weight: None, pays_fee }
    }
}

impl<E> DispatchError<E> {
    /// The rejection that stands for a refused caller.
    pub fn from_bad_origin(e: BadOrigin) -> (res: Self)
        ensures
            res == DispatchError::<E>::BadOrigin,
    {
        DispatchError::BadOrigin
    }
}

} // verus!
