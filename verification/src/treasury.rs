//! A treasury in the making: a number that any signer may store and count up, a cap on what
//! may be proposed for spending, and transfers of the native currency.

use vstd::prelude::*;
use crate::dispatch::{DispatchError, DispatchResult};
use crate::origin::{BadOrigin, Origin};
use crate::primitives::{AccountId, Balance};

verus! {

/// Identifier of an asset other than the native currency.
pub type AssetId = u32;

/// An amount of an asset other than the native currency.
pub type AssetBalance = u128;

/// The greatest amount that may be proposed for spending.
pub const MAX_SPEND: Balance = 100_000;

/// Says what an amount of one asset is worth in another.
pub trait AssetPriceLookup {
    /// The amount of asset `asset_b_id` that `asset_a_amount` of asset `asset_a_id` is worth.
    fn price_lookup(
        &self,
        asset_a_id: AssetId,
        asset_a_amount: AssetBalance,
        asset_b_id: AssetId,
    ) -> AssetBalance;
}

/// What the pallet tells its users.
#[derive(Clone, Copy, Debug, PartialEq, Eq, Structural)]
pub enum Event {
    /// A number was stored by `who`.
    SomethingStored { something: u32, who: AccountId },
}

/// Why this pallet rejects a call.
#[derive(Clone, Copy, Debug, PartialEq, Eq, Structural)]
pub enum Error {
    /// No number has been stored yet.
    NoneValue,
    /// The stored number cannot be counted up any further.
    StorageOverflow,
}

/// An account together with an amount that is stored in its compact encoding.
#[derive(Clone, Copy, Debug, PartialEq, Eq, Structural)]
pub struct StoreACompactNumber {
    /// The account.
    pub who: AccountId,
    /// The amount.
    pub amount: Balance,
}

/// Whether the sender's account may be emptied by a transfer.
#[derive(Clone, Copy, Debug, PartialEq, Eq, Structural)]
pub enum Preservation {
    /// The account may be emptied and cease to exist.
    Expendable,
    /// The account may be emptied as long as it goes on existing for another reason.
    Protect,
    /// The account must keep what it needs to exist.
    Preserve,
}

/// A transfer of the native currency that the host is asked to make.
#[derive(Clone, Copy, Debug, PartialEq, Eq, Structural)]
pub struct Transfer {
    /// Who pays.
    pub from: AccountId,
    /// Who is paid.
    pub to: AccountId,
    /// How much is paid.
    pub amount: Balance,
    /// Whether the payer's account may be emptied.
    pub preservation: Preservation,
}

/// The storage of the pallet as a mathematical value.
pub struct State {
    /// The stored number, if there is one.
    pub something: Option<u32>,
    /// Every event deposited so far, oldest first.
    pub events: Seq<Event>,
}

/// What storing a number does to the storage, and what it answers.
pub open spec fn do_something_spec(before: State, origin: Origin, something: u32) -> (
    State,
    DispatchResult<Error>,
) {
    match origin {
        Origin::Signed(who) => (
            State {
                something: Some(something),
                events: before.events.push(Event::SomethingStored { something, who }),
            },
            Ok(()),
        ),
        _ => (before, Err(DispatchError::BadOrigin)),
    }
}

/// What counting the stored number up does to the storage, and what it answers.
pub open spec fn cause_error_spec(before: State, origin: Origin) -> (State, DispatchResult<Error>) {
    match origin {
        Origin::Signed(_) => match before.something {
            None => (before, Err(DispatchError::Module(Error::NoneValue))),
            Some(old) => if old == u32::MAX {
                (before, Err(DispatchError::Module(Error::StorageOverflow)))
            } else {
                (State { something: Some((old + 1) as u32), ..before }, Ok(()))
            },
        },
        _ => (before, Err(DispatchError::BadOrigin)),
    }
}

/// Whether `amount` may be proposed for spending by a spender whom the runtime judged as
/// `small_spender`.
pub open spec fn propose_spend_spec(small_spender: Result<(), BadOrigin>, amount: Balance)
    -> DispatchResult<Error> {
    match small_spender {
        Err(_) => Err(DispatchError::BadOrigin),
        Ok(_) => if amount > MAX_SPEND {
            Err(DispatchError::Other("you are spending too much  money!"))
        } else {
            Ok(())
        },
    }
}

/// A call that is rejected leaves the storage as it was.
pub proof fn lemma_rejected_call_keeps_state(before: State, origin: Origin, something: u32)
    ensures
        do_something_spec(before, origin, something).1 is Err ==> do_something_spec(
            before,
            origin,
            something,
        ).0 == before,
        cause_error_spec(before, origin).1 is Err ==> cause_error_spec(before, origin).0 == before,
{
}

/// The pallet: its storage.
pub struct Pallet {
    something: Option<u32>,
    events: Vec<Event>,
}

impl View for Pallet {
    type V = State;

    closed spec fn view(&self) -> State {
        State { something: self.something, events: self.events@ }
    }
}

impl Pallet {
    /// A pallet with empty storage.
    pub fn new() -> (res: Self)
        ensures
            res@.something == None::<u32>,
            res@.events == Seq::<Event>::empty(),
    {
        Pallet { something: None, events: Vec::new() }
    }

    /// A pallet over storage that holds the given number and no event.
    pub fn from_storage(something: Option<u32>) -> (res: Self)
        ensures
            res@.something == something,
            res@.events == Seq::<Event>::empty(),
    {
        Pallet { something, events: Vec::new() }
    }

    /// Stores `something` for a signed caller and deposits `SomethingStored`.
    pub fn do_something(&mut self, origin: Origin, something: u32) -> (res: DispatchResult<Error>)
        ensures
            (final(self)@, res) == do_something_spec(old(self)@, origin, something),
    {
        let who = match crate::origin::ensure_signed(origin) {
            Ok(who) => who,
            Err(e) => {
                return Err(DispatchError::from_bad_origin(e));
            },
        };
        self.something = Some(something);
        self.events.push(Event::SomethingStored { something, who });
        Ok(())
    }

    /// Counts the stored number up by one for a signed caller.
    ///
    /// Fails with `NoneValue` where no number is stored, and with `StorageOverflow` where the
    /// stored number is the greatest there is; the storage is then left as it was.
    pub fn cause_error(&mut self, origin: Origin) -> (res: DispatchResult<Error>)
        ensures
            (final(self)@, res) == cause_error_spec(old(self)@, origin),
    {
        match crate::origin::ensure_signed(origin) {
            Ok(_) => {},
            Err(e) => {
                return Err(DispatchError::from_bad_origin(e));
            },
        }
        match self.something {
            None => Err(DispatchError::Module(Error::NoneValue)),
            Some(old) => match old.checked_add(1) {
                Some(new) => {
                    self.something = Some(new);
                    Ok(())
                },
                None => Err(DispatchError::Module(Error::StorageOverflow)),
            },
        }
    }

    /// Proposes to spend `amount` on `who`.
    ///
    /// `small_spender` is what the runtime's rule for small spenders said of the caller. A
    /// caller who does not pass it is refused; one who does may propose up to `MAX_SPEND`.
    pub fn propose_spend(
        &self,
        small_spender: Result<(), BadOrigin>,
        who: AccountId,
        amount: Balance,
    ) -> (res: DispatchResult<Error>)
        ensures
            res == propose_spend_spec(small_spender, amount),
    {
        match small_spender {
            Ok(_) => {},
            Err(e) => {
                return Err(DispatchError::from_bad_origin(e));
            },
        }
        Self::do_propose_spend(who, amount)
    }

    /// The transfer that the host is to make for a signed caller: `amount` from the caller to
    /// `to`, even if that empties the caller's account.
    pub fn my_transfer_function(&self, origin: Origin, to: AccountId, amount: Balance) -> (res:
        Result<Transfer, DispatchError<Error>>)
        ensures
            res == (match origin {
                Origin::Signed(sender) => Ok::<Transfer, DispatchError<Error>>(
                    Transfer { from: sender, to, amount, preservation: Preservation::Expendable },
                ),
                _ => Err::<Transfer, DispatchError<Error>>(DispatchError::BadOrigin),
            }),
    {
        let sender = match crate::origin::ensure_signed(origin) {
            Ok(sender) => sender,
            Err(e) => {
                return Err(DispatchError::from_bad_origin(e));
            },
        };
        Ok(Transfer { from: sender, to, amount, preservation: Preservation::Expendable })
    }

    /// The check behind `propose_spend`: no more than `MAX_SPEND` may be proposed.
    pub fn do_propose_spend(who: AccountId, amount: Balance) -> (res: DispatchResult<Error>)
        ensures
            res == propose_spend_spec(Ok(()), amount),
    {
        if amount > MAX_SPEND {
            return Err(DispatchError::Other("you are spending too much  money!"));
        }
        Ok(())
    }

    /// The stored number, if there is one.
    pub fn something(&self) -> (res: Option<u32>)
        ensures
            res == self@.something,
    {
        self.something
    }

    /// Hands out every event deposited so far, oldest first, and starts the record anew.
    pub fn take_events(&mut self) -> (res: Vec<Event>)
        ensures
            res@ == old(self)@.events,
            final(self)@ == (State { events: Seq::<Event>::empty(), ..old(self)@ }),
    {
        let mut taken: Vec<Event> = Vec::new();
        std::mem::swap(&mut self.events, &mut taken);
        taken
    }

    /// The event deposited last, if any.
    pub fn last_event(&self) -> (res: Option<Event>)
        ensures
            res == (if self@.events.len() > 0 {
                Some(self@.events.last())
            } else {
                None
            }),
    {
        let n = self.events.len();
        if n > 0 {
            Some(self.events[n - 1])
        } else {
            None
        }
    }
}

} // verus!
