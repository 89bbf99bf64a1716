//! Calls on behalf of others: a number that any signer may store and count up, the re-dispatch
//! of a call under the signer's name, and accounts derived from a seed.

use vstd::prelude::*;
use vstd::bytes::spec_u32_to_le_bytes;
use crate::dispatch::{DispatchError, DispatchErrorWithPostInfo, DispatchResult, PostDispatchInfo};
use crate::hashing::{
    account_from_entropy, account_from_entropy_spec, blake2_256, blake2_256_digest,
    encode_tagged_seed,
};
use crate::origin::Origin;
use crate::primitives::AccountId;
use crate::weight::Weight;

verus! {

/// The bytes of `pba/multisig`, which come before the seed of every derived account.
pub const SEED_TAG: [u8; 12] = [112, 98, 97, 47, 109, 117, 108, 116, 105, 115, 105, 103];

/// What the pallet tells its users.
#[derive(Clone, Copy, Debug, PartialEq, Eq, Structural)]
pub enum Event {
    /// A number was stored by `who`.
    SomethingStored { something: u32, who: AccountId },
    /// A call of the given weight was re-dispatched.
    CallWeight { weight: Weight },
}

/// Why this pallet rejects a call.
#[derive(Clone, Copy, Debug, PartialEq, Eq, Structural)]
pub enum Error {
    /// No number has been stored yet.
    NoneValue,
    /// The stored number cannot be counted up any further.
    StorageOverflow,
}

/// A call that the host is asked to dispatch.
#[derive(Clone, Copy, Debug, PartialEq, Eq, Structural)]
pub struct Redispatch {
    /// The caller under whom the call is dispatched.
    pub origin: Origin,
    /// The weight that the call announces.
    pub call_weight: Weight,
}

/// The storage of the pallet as a mathematical value.
pub struct State {
    /// The stored number, if there is one.
    pub something: Option<u32>,
    /// Every event deposited so far, oldest first.
    pub events: Seq<Event>,
}

/// What storing a number does to the storage, and what it answers.
pub open spec fn do_something_spec(before: State, origin: Origin, something: u32) -> (
    State,
    DispatchResult<Error>,
) {
    match origin {
        Origin::Signed(who) => (
            State {
                something: Some(something),
                events: before.events.push(Event::SomethingStored { something, who }),
            },
            Ok(()),
        ),
        _ => (before, Err(DispatchError::BadOrigin)),
    }
}

/// What counting the stored number up does to the storage, and what it answers.
pub open spec fn cause_error_spec(before: State, origin: Origin) -> (State, DispatchResult<Error>) {
    match origin {
        Origin::Signed(_) => match before.something {
            None => (before, Err(DispatchError::Module(Error::NoneValue))),
            Some(old) => if old == u32::MAX {
                (before, Err(DispatchError::Module(Error::StorageOverflow)))
            } else {
                (State { something: Some((old + 1) as u32), ..before }, Ok(()))
            },
        },
        _ => (before, Err(DispatchError::BadOrigin)),
    }
}

/// The account derived from `seed`: read from the digest of the tag followed by the four
/// bytes of the seed, least significant first.
pub open spec fn multi_account_id_spec(seed: u32) -> AccountId {
    account_from_entropy_spec(blake2_256_digest(SEED_TAG@ + spec_u32_to_le_bytes(seed)))
}

/// A call that is rejected leaves the storage as it was.
pub proof fn lemma_rejected_call_keeps_state(before: State, origin: Origin, something: u32)
    ensures
        do_something_spec(before, origin, something).1 is Err ==> do_something_spec(
            before,
            origin,
            something,
        ).0 == before,
        cause_error_spec(before, origin).1 is Err ==> cause_error_spec(before, origin).0 == before,
{
}

/// The pallet: its storage.
pub struct Pallet {
    something: Option<u32>,
    events: Vec<Event>,
}

impl View for Pallet {
    type V = State;

    closed spec fn view(&self) -> State {
        State { something: self.something, events: self.events@ }
    }
}

impl Pallet {
    /// A pallet with empty storage.
    pub fn new() -> (res: Self)
        ensures
            res@.something == None::<u32>,
            res@.events == Seq::<Event>::empty(),
    {
        Pallet { something: None, events: Vec::new() }
    }

    /// A pallet over storage that holds the given number and no event.
    pub fn from_storage(something: Option<u32>) -> (res: Self)
        ensures
            res@.something == something,
            res@.events == Seq::<Event>::empty(),
    {
        Pallet { something, events: Vec::new() }
    }

    /// Stores `something` for a signed caller and deposits `SomethingStored`.
    pub fn do_something(&mut self, origin: Origin, something: u32) -> (res: DispatchResult<Error>)
        ensures
            (final(self)@, res) == do_something_spec(old(self)@, origin, something),
    {
        let who = match crate::origin::ensure_signed(origin) {
            Ok(who) => who,
            Err(e) => {
                return Err(DispatchError::from_bad_origin(e));
            },
        };
        self.something = Some(something);
        self.events.push(Event::SomethingStored { something, who });
        Ok(())
    }

    /// Counts the stored number up by one for a signed caller.
    ///
    /// Fails with `NoneValue` where no number is stored, and with `StorageOverflow` where the
    /// stored number is the greatest there is; the storage is then left as it was.
    pub fn cause_error(&mut self, origin: Origin) -> (res: DispatchResult<Error>)
        ensures
            (final(self)@, res) == cause_error_spec(old(self)@, origin),
    {
        match crate::origin::ensure_signed(origin) {
            Ok(_) => {},
            Err(e) => {
                return Err(DispatchError::from_bad_origin(e));
            },
        }
        match self.something {
            None => Err(DispatchError::Module(Error::NoneValue)),
            Some(old) => match old.checked_add(1) {
                Some(new) => {
                    self.something = Some(new);
                    Ok(())
                },
                None => Err(DispatchError::Module(Error::StorageOverflow)),
            },
        }
    }

    /// First step of re-dispatching a call on behalf of a signed caller: what the host is to
    /// dispatch under. `call_weight` is the weight that the call announces.
    pub fn redispatch(&self, origin: Origin, call_weight: Weight) -> (res: Result<
        Redispatch,
        DispatchError<Error>,
    >)
        ensures
            res == (match origin {
                Origin::Signed(who) => Ok::<Redispatch, DispatchError<Error>>(
                    Redispatch { origin: Origin::Signed(who), call_weight },
                ),
                _ => Err::<Redispatch, DispatchError<Error>>(DispatchError::BadOrigin),
            }),
    {
        let who = match crate::origin::ensure_signed(origin) {
            Ok(who) => who,
            Err(e) => {
                return Err(DispatchError::from_bad_origin(e));
            },
        };
        Ok(Redispatch { origin: Origin::Signed(who), call_weight })
    }

    /// Second step of re-dispatching a call: `dispatched` is what the call answered.
    ///
    /// Whatever it answered, `CallWeight` is deposited with the weight that the call announced.
    /// Success stays success, and of a failure the reason alone is passed on.
    pub fn finish_redispatch<H>(
        &mut self,
        request: Redispatch,
        dispatched: Result<PostDispatchInfo, DispatchErrorWithPostInfo<H>>,
    ) -> (res: Result<(), H>)
        ensures
            final(self)@ == (State {
                events: old(self)@.events.push(Event::CallWeight { weight: request.call_weight }),
                ..old(self)@
            }),
            res == (match dispatched {
                Ok(_) => Ok::<(), H>(()),
                Err(e) => Err::<(), H>(e.error),
            }),
    {
        self.events.push(Event::CallWeight { weight: request.call_weight });
        match dispatched {
            Ok(_) => Ok(()),
            Err(e) => Err(e.error),
        }
    }

    /// Derives an account from a seed. The same seed always gives the same account.
    pub fn multi_account_id(seed: u32) -> (res: AccountId)
        ensures
            res == multi_account_id_spec(seed),
    {
        let preimage = encode_tagged_seed(&SEED_TAG, seed);
        let entropy = blake2_256(preimage.as_slice());
        account_from_entropy(&entropy)
    }

    /// The stored number, if there is one.
    pub fn something(&self) -> (res: Option<u32>)
        ensures
            res == self@.something,
    {
        self.something
    }

    /// Hands out every event deposited so far, oldest first, and starts the record anew.
    pub fn take_events(&mut self) -> (res: Vec<Event>)
        ensures
            res@ == old(self)@.events,
            final(self)@ == (State { events: Seq::<Event>::empty(), ..old(self)@ }),
    {
        let mut taken: Vec<Event> = Vec::new();
        std::mem::swap(&mut self.events, &mut taken);
        taken
    }

    /// The event deposited last, if any.
    pub fn last_event(&self) -> (res: Option<Event>)
        ensures
            res == (if self@.events.len() > 0 {
                Some(self@.events.last())
            } else {
                None
            }),
    {
        let n = self.events.len();
        if n > 0 {
            Some(self.events[n - 1])
        } else {
            None
        }
    }
}

} // verus!
