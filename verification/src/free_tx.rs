//! Fee-less transactions: a caller who lets the pallet hold some of their funds may have calls
//! dispatched without a fee.
//!
//! The funds themselves live with the host. An entry point that needs the host to move funds or
//! to dispatch a call comes in two steps: the first decides and names what the host is to do, the
//! second takes the host's answer and finishes the call.

use vstd::prelude::*;
use vstd::std_specs::iter::IteratorSpec;
use std::collections::HashMap;
use crate::dispatch::{
    DispatchError, DispatchErrorWithPostInfo, DispatchResult, DispatchResultWithPostInfo, Pays,
    PostDispatchInfo,
};
use crate::origin::Origin;
use crate::primitives::{AccountId, Balance, BlockNumber};
use crate::weight::{perbill_from_rational_spec, perbill_mul_spec, Perbill, Weight};

verus! {

broadcast use vstd::std_specs::hash::group_hash_axioms;

/// The parameters that the surrounding runtime chooses.
#[derive(Clone, Copy, Debug, PartialEq, Eq, Structural)]
pub struct Config {
    /// How much of a caller's funds is held when they register.
    pub hold_amount: Balance,
    /// The number of blocks in an era.
    pub era_length: BlockNumber,
}

/// A reason for the pallet placing a hold on funds.
#[derive(Clone, Copy, Debug, PartialEq, Eq, Structural)]
pub enum HoldReason {
    /// Funds are held to register for free transactions.
    FreeTxHold,
}

/// How exact the host has to be about an amount.
#[derive(Clone, Copy, Debug, PartialEq, Eq, Structural)]
pub enum Precision {
    /// The whole amount or nothing.
    Exact,
    /// As much of the amount as there is.
    BestEffort,
}

/// What the pallet tells its users.
#[derive(Clone, Copy, Debug, PartialEq, Eq, Structural)]
pub enum Event {
    /// A fee-less call went through.
    TxSuccess,
}

/// Why this pallet rejects a call.
#[derive(Clone, Copy, Debug, PartialEq, Eq, Structural)]
pub enum Error {
    /// The caller asked for the call to fail.
    TxFailed,
    /// A stored number would leave its range.
    StorageOverflow,
    /// A user is trying to hold funds when they already have held funds.
    AlreadyHeld,
    /// A user is trying to release funds when they have no held funds.
    NothingHeld,
}

/// A hold that the host is asked to place.
#[derive(Clone, Copy, Debug, PartialEq, Eq, Structural)]
pub struct Hold {
    /// Why the funds are held.
    pub reason: HoldReason,
    /// Whose funds are held.
    pub who: AccountId,
    /// How much is held.
    pub amount: Balance,
}

/// A release of held funds that the host is asked to make.
#[derive(Clone, Copy, Debug, PartialEq, Eq, Structural)]
pub struct Release {
    /// The reason the funds were held for.
    pub reason: HoldReason,
    /// Whose funds are released.
    pub who: AccountId,
    /// How much is released.
    pub amount: Balance,
    /// How exact the host has to be about the amount.
    pub precision: Precision,
}

/// The storage of the pallet as a mathematical value.
pub struct State {
    /// The amount that the pallet holds of each registered account.
    pub amount_held: Map<AccountId, Balance>,
    /// The weight that each account may still use without a fee.
    pub credits: Map<AccountId, Weight>,
    /// Every event deposited so far, oldest first.
    pub events: Seq<Event>,
}

/// What the fee-less call does to the storage, and what it answers: a signed caller gets a
/// result that pays no fee exactly when `success` is set.
pub open spec fn free_tx_spec(before: State, origin: Origin, success: bool) -> (
    State,
    DispatchResultWithPostInfo<Error>,
) {
    match origin {
        Origin::Signed(_) => if success {
            (
                State { events: before.events.push(Event::TxSuccess), ..before },
                Ok(PostDispatchInfo { actual_weight: None, pays_fee: Pays::No }),
            )
        } else {
            (before, Err(DispatchError::Module(Error::TxFailed)))
        },
        _ => (before, Err(DispatchError::BadOrigin)),
    }
}

/// The hold that a caller's registration asks of the host, or why there is none.
pub open spec fn hold_my_funds_spec(config: Config, before: State, origin: Origin) -> Result<
    Hold,
    DispatchError<Error>,
> {
    match origin {
        Origin::Signed(who) => if before.amount_held.contains_key(who) {
            Err(DispatchError::Module(Error::AlreadyHeld))
        } else {
            Ok(Hold { reason: HoldReason::FreeTxHold, who, amount: config.hold_amount })
        },
        _ => Err(DispatchError::BadOrigin),
    }
}

/// What giving up a registration does to the storage, and the release that it asks of the
/// host: all that was recorded as held, as far as the host still has it.
pub open spec fn release_my_funds_spec(before: State, origin: Origin) -> (
    State,
    Result<Release, DispatchError<Error>>,
) {
    match origin {
        Origin::Signed(who) => if before.amount_held.contains_key(who) {
            (
                State { amount_held: before.amount_held.remove(who), ..before },
                Ok(
                    Release {
                        reason: HoldReason::FreeTxHold,
                        who,
                        amount: before.amount_held[who],
                        precision: Precision::BestEffort,
                    },
                ),
            )
        } else {
            (before, Err(DispatchError::Module(Error::NothingHeld)))
        },
        _ => (before, Err(DispatchError::BadOrigin)),
    }
}

/// The share of `credit` that corresponds to how far `block_number` is into its era: each part
/// of the credit times `floor(10^9 * (block_number mod era_length) / era_length)` billionths,
/// rounded to the nearest integer (an exact half down).
pub open spec fn proportional_credit_spec(
    era_length: BlockNumber,
    block_number: BlockNumber,
    credit: Weight,
) -> (int, int) {
    let blocks_into_era = (block_number % era_length) as u64;
    let parts = perbill_from_rational_spec(blocks_into_era, era_length) as u32;
    (perbill_mul_spec(parts, credit.ref_time), perbill_mul_spec(parts, credit.proof_size))
}

/// A signed caller gets the call for free exactly when `success` is set: the call then succeeds
/// and pays no fee, and otherwise fails with `TxFailed`, which leaves the fee with the host.
pub proof fn lemma_free_tx_is_free_iff_success(before: State, who: AccountId, success: bool)
    ensures
        free_tx_spec(before, Origin::Signed(who), success).1 is Ok <==> success,
        free_tx_spec(before, Origin::Signed(who), success).1 matches Ok(info) ==> info.pays_fee
            == Pays::No,
        !success ==> free_tx_spec(before, Origin::Signed(who), success).1 == Err::<
            PostDispatchInfo,
            DispatchError<Error>,
        >(DispatchError::Module(Error::TxFailed)),
{
}

/// A call that is rejected leaves the storage as it was.
pub proof fn lemma_rejected_call_keeps_state(before: State, origin: Origin, success: bool)
    ensures
        free_tx_spec(before, origin, success).1 is Err ==> free_tx_spec(before, origin, success).0
            == before,
        release_my_funds_spec(before, origin).1 is Err ==> release_my_funds_spec(before, origin).0
            == before,
{
}

/// A signer of whom nothing is held may register once, not twice, and giving the registration
/// up releases exactly what was held and leaves the records as they were before.
pub proof fn lemma_release_undoes_hold(config: Config, before: State, who: AccountId)
    requires
        !before.amount_held.contains_key(who),
    ensures
        ({
            let hold = Hold { reason: HoldReason::FreeTxHold, who, amount: config.hold_amount };
            let held = State {
                amount_held: before.amount_held.insert(hold.who, hold.amount),
                ..before
            };
            let (after, release) = release_my_funds_spec(held, Origin::Signed(who));
            &&& hold_my_funds_spec(config, before, Origin::Signed(who)) == Ok::<
                Hold,
                DispatchError<Error>,
            >(hold)
            &&& hold_my_funds_spec(config, held, Origin::Signed(who)) == Err::<
                Hold,
                DispatchError<Error>,
            >(DispatchError::Module(Error::AlreadyHeld))
            &&& release matches Ok(r) && r.who == who && r.amount == config.hold_amount
            &&& after == before
            &&& release_my_funds_spec(after, Origin::Signed(who)).1 == Err::<
                Release,
                DispatchError<Error>,
            >(DispatchError::Module(Error::NothingHeld))
        }),
{
    let held_map = before.amount_held.insert(who, config.hold_amount);
    assert(held_map.remove(who) =~= before.amount_held);
}

/// The credits after the entries of `initial` were granted on top of `base`, first entry first:
/// where an account occurs twice, its later entry counts.
pub open spec fn genesis_credits(
    base: Map<AccountId, Weight>,
    initial: Seq<(AccountId, Weight, Balance)>,
) -> Map<AccountId, Weight>
    decreases initial.len(),
{
    if initial.len() == 0 {
        base
    } else {
        genesis_credits(base, initial.drop_last()).insert(initial.last().0, initial.last().1)
    }
}

/// The held amounts after the entries of `initial` were recorded on top of `base`, first entry
/// first: where an account occurs twice, its later entry counts.
pub open spec fn genesis_amount_held(
    base: Map<AccountId, Balance>,
    initial: Seq<(AccountId, Weight, Balance)>,
) -> Map<AccountId, Balance>
    decreases initial.len(),
{
    if initial.len() == 0 {
        base
    } else {
        genesis_amount_held(base, initial.drop_last()).insert(initial.last().0, initial.last().2)
    }
}

/// The holds that the entries of `initial` ask of the host: one for each entry, in order.
pub open spec fn genesis_holds(initial: Seq<(AccountId, Weight, Balance)>) -> Seq<Hold> {
    Seq::new(
        initial.len(),
        |i: int| Hold { reason: HoldReason::FreeTxHold, who: initial[i].0, amount: initial[i].2 },
    )
}

/// Granting initial credits leaves the accounts with a credit and the accounts with held funds
/// the same, if they were the same before.
pub proof fn lemma_genesis_keeps_try_state(
    credits: Map<AccountId, Weight>,
    amount_held: Map<AccountId, Balance>,
    initial: Seq<(AccountId, Weight, Balance)>,
)
    requires
        credits.dom() == amount_held.dom(),
    ensures
        genesis_credits(credits, initial).dom() == genesis_amount_held(amount_held, initial).dom(),
    decreases initial.len(),
{
    if initial.len() > 0 {
        lemma_genesis_keeps_try_state(credits, amount_held, initial.drop_last());
        assert(genesis_credits(credits, initial).dom() =~= genesis_amount_held(
            amount_held,
            initial,
        ).dom());
    }
}

/// The state that the chain starts with.
#[derive(Debug, PartialEq, Eq)]
pub struct GenesisConfig {
    /// For each account that starts registered: its credit and the amount held of it.
    pub initial_credits: Vec<(AccountId, Weight, Balance)>,
}

impl GenesisConfig {
    /// Writes the initial credits and held amounts into the storage of `pallet`, and gives back
    /// the holds that the host has to place for them, one for each entry and in their order.
    pub fn build(&self, pallet: &mut Pallet) -> (holds: Vec<Hold>)
        ensures
            final(pallet).config_spec() == old(pallet).config_spec(),
            final(pallet)@.credits == genesis_credits(old(pallet)@.credits, self.initial_credits@),
            final(pallet)@.amount_held == genesis_amount_held(
                old(pallet)@.amount_held,
                self.initial_credits@,
            ),
            final(pallet)@.events == old(pallet)@.events,
            holds@ == genesis_holds(self.initial_credits@),
    {
        let ghost initial = self.initial_credits@;
        let ghost base_credits = pallet.credits@;
        let ghost base_held = pallet.amount_held@;
        let mut holds: Vec<Hold> = Vec::new();
        let n: usize = self.initial_credits.len();
        let mut i: usize = 0;
        while i < n
            invariant
                i <= n,
                n == initial.len(),
                initial == self.initial_credits@,
                pallet.config == old(pallet).config,
                pallet.events@ == old(pallet).events@,
                pallet.credits@ == genesis_credits(base_credits, initial.take(i as int)),
                pallet.amount_held@ == genesis_amount_held(base_held, initial.take(i as int)),
                holds@ == genesis_holds(initial.take(i as int)),
            decreases n - i,
        {
            let (acc, cred, at_hold) = self.initial_credits[i];
            pallet.credits.insert(acc, cred);
            holds.push(Hold { reason: HoldReason::FreeTxHold, who: acc, amount: at_hold });
            pallet.amount_held.insert(acc, at_hold);
            proof {
                let next = initial.take(i + 1);
                assert(next.drop_last() =~= initial.take(i as int));
                assert(next.last() == initial[i as int]);
                assert(holds@ =~= genesis_holds(next));
            }
            i = i + 1;
        }
        proof {
            assert(initial.take(n as int) =~= initial);
        }
        holds
    }
}

/// The pallet: its parameters and its storage.
pub struct Pallet {
    config: Config,
    amount_held: HashMap<AccountId, Balance>,
    credits: HashMap<AccountId, Weight>,
    events: Vec<Event>,
}

impl View for Pallet {
    type V = State;

    closed spec fn view(&self) -> State {
        State { amount_held: self.amount_held@, credits: self.credits@, events: self.events@ }
    }
}

impl Pallet {
    /// The parameters this pallet was set up with.
    pub closed spec fn config_spec(&self) -> Config {
        self.config
    }

    /// A pallet with empty storage.
    pub fn new(config: Config) -> (res: Self)
        ensures
            res.config_spec() == config,
            res@.amount_held == Map::<AccountId, Balance>::empty(),
            res@.credits == Map::<AccountId, Weight>::empty(),
            res@.events == Seq::<Event>::empty(),
    {
        Pallet { config, amount_held: HashMap::new(), credits: HashMap::new(), events: Vec::new() }
    }

    /// A pallet over storage that holds the given records and no event.
    pub fn from_storage(
        config: Config,
        amount_held: HashMap<AccountId, Balance>,
        credits: HashMap<AccountId, Weight>,
    ) -> (res: Self)
        ensures
            res.config_spec() == config,
            res@.amount_held == amount_held@,
            res@.credits == credits@,
            res@.events == Seq::<Event>::empty(),
    {
        Pallet { config, amount_held, credits, events: Vec::new() }
    }

    /// The parameters this pallet was set up with.
    pub fn config(&self) -> (res: Config)
        ensures
            res == self.config_spec(),
    {
        self.config
    }

    /// Whether the parameters can be used: an era has at least one block.
    pub fn integrity_test(&self) -> (ok: bool)
        ensures
            ok == (self.config_spec().era_length != 0),
    {
        self.config.era_length != 0
    }

    /// A call that charges no fee if successful.
    ///
    /// A signed caller who sets `success` gets `TxSuccess` deposited and a result that pays no
    /// fee. With `success` unset the call fails with `TxFailed`, so that the fee is kept.
    pub fn free_tx(&mut self, origin: Origin, success: bool) -> (res: DispatchResultWithPostInfo<
        Error,
    >)
        ensures
            final(self).config_spec() == old(self).config_spec(),
            (final(self)@, res) == free_tx_spec(old(self)@, origin, success),
    {
        match crate::origin::ensure_signed(origin) {
            Ok(_) => {},
            Err(e) => {
                return Err(DispatchError::from_bad_origin(e));
            },
        }
        if !success {
            return Err(DispatchError::Module(Error::TxFailed));
        }
        self.events.push(Event::TxSuccess);
        Ok(PostDispatchInfo::from_pays(Pays::No))
    }

    /// First step of re-dispatching a call on behalf of a signed caller: the caller under whom
    /// the host is to dispatch it.
    ///
    /// `call_weight` is the weight that the call announces. No credit is stored for anybody yet,
    /// so whether the caller's credit covers the call decides nothing.
    pub fn redispatch(&self, origin: Origin, call_weight: Weight) -> (res: Result<
        Origin,
        DispatchError<Error>,
    >)
        ensures
            res == (match origin {
                Origin::Signed(who) => Ok::<Origin, DispatchError<Error>>(Origin::Signed(who)),
                _ => Err::<Origin, DispatchError<Error>>(DispatchError::BadOrigin),
            }),
    {
        let who = match crate::origin::ensure_signed(origin) {
            Ok(who) => who,
            Err(e) => {
                return Err(DispatchError::from_bad_origin(e));
            },
        };
        let credit = Weight::zero();
        let _covered = credit.all_gt(call_weight);
        Ok(Origin::Signed(who))
    }

    /// Second step of re-dispatching a call: the answer to the caller, from what the dispatched
    /// call answered. Success stays success, and of a failure the reason alone is passed on.
    pub fn finish_redispatch<H>(
        &self,
        dispatched: Result<PostDispatchInfo, DispatchErrorWithPostInfo<H>>,
    ) -> (res: Result<(), H>)
        ensures
            res == (match dispatched {
                Ok(_) => Ok::<(), H>(()),
                Err(e) => Err::<(), H>(e.error),
            }),
    {
        match dispatched {
            Ok(_) => Ok(()),
            Err(e) => Err(e.error),
        }
    }

    /// First step of registering: the hold that the host is to place on the signer's funds.
    ///
    /// Only a signer of whom nothing is held yet may register; otherwise `AlreadyHeld`.
    pub fn hold_my_funds(&self, origin: Origin) -> (res: Result<Hold, DispatchError<Error>>)
        ensures
            res == hold_my_funds_spec(self.config_spec(), self@, origin),
    {
        let who = match crate::origin::ensure_signed(origin) {
            Ok(who) => who,
            Err(e) => {
                return Err(DispatchError::from_bad_origin(e));
            },
        };
        if self.amount_held.contains_key(&who) {
            return Err(DispatchError::Module(Error::AlreadyHeld));
        }
        Ok(Hold { reason: HoldReason::FreeTxHold, who, amount: self.config.hold_amount })
    }

    /// Second step of registering: `placed` is what the host answered to `hold`.
    ///
    /// Where the host placed the hold, its amount is recorded for the account. Where it did
    /// not, nothing is recorded and the host's reason is passed on.
    pub fn finish_hold_my_funds<H>(&mut self, hold: Hold, placed: Result<(), H>) -> (res: Result<
        (),
        H,
    >)
        ensures
            final(self).config_spec() == old(self).config_spec(),
            res == placed,
            final(self)@ == (if placed is Ok {
                State {
                    amount_held: old(self)@.amount_held.insert(hold.who, hold.amount),
                    ..old(self)@
                }
            } else {
                old(self)@
            }),
    {
        if placed.is_ok() {
            self.amount_held.insert(hold.who, hold.amount);
        }
        placed
    }

    /// Gives up the signer's registration: forgets what is held of them and names the release
    /// that the host is to make. With nothing held the call fails with `NothingHeld`.
    ///
    /// The amount released is the one that was recorded, whatever the configured hold amount
    /// is by now.
    pub fn release_my_funds(&mut self, origin: Origin) -> (res: Result<
        Release,
        DispatchError<Error>,
    >)
        ensures
            final(self).config_spec() == old(self).config_spec(),
            (final(self)@, res) == release_my_funds_spec(old(self)@, origin),
    {
        let who = match crate::origin::ensure_signed(origin) {
            Ok(who) => who,
            Err(e) => {
                return Err(DispatchError::from_bad_origin(e));
            },
        };
        match self.amount_held.remove(&who) {
            Some(amount_held) => Ok(
                Release {
                    reason: HoldReason::FreeTxHold,
                    who,
                    amount: amount_held,
                    precision: Precision::BestEffort,
                },
            ),
            None => {
                assert(self.amount_held@ =~= old(self).amount_held@);
                Err(DispatchError::Module(Error::NothingHeld))
            },
        }
    }

    /// Accepts from any signed caller a weight that the host converted from a balance. Nothing
    /// is done with it.
    pub fn use_balance_to_weight(&self, origin: Origin, weight: Weight) -> (res: DispatchResult<
        Error,
    >)
        ensures
            res == (match origin {
                Origin::Signed(_) => Ok::<(), DispatchError<Error>>(()),
                _ => Err::<(), DispatchError<Error>>(DispatchError::BadOrigin),
            }),
    {
        match crate::origin::ensure_signed(origin) {
            Ok(_) => Ok(()),
            Err(e) => Err(DispatchError::from_bad_origin(e)),
        }
    }

    /// A call that does nothing for anybody; the host charges `weight` for it.
    pub fn dummy_call_with_weight(&self, origin: Origin, weight: Weight) -> (res: DispatchResult<
        Error,
    >)
        ensures
            res == Ok::<(), DispatchError<Error>>(()),
    {
        Ok(())
    }

    /// The share of `credit` that corresponds to how far `block_number` is into its era. It is
    /// never more than `credit`.
    pub fn proportional_credit(&self, block_number: BlockNumber, credit: Weight) -> (res: Weight)
        requires
            self.config_spec().era_length != 0,
        ensures
            (res.ref_time as int, res.proof_size as int) == proportional_credit_spec(
                self.config_spec().era_length,
                block_number,
                credit,
            ),
            res.ref_time <= credit.ref_time,
            res.proof_size <= credit.proof_size,
    {
        let era_len = self.config.era_length;
        let blocks_into_era: BlockNumber = block_number % era_len;
        let percentage_of_era = Perbill::from_rational(blocks_into_era, era_len);
        percentage_of_era.mul_weight(credit)
    }

    /// Whether exactly the accounts that have a credit are the accounts of which funds are held.
    pub fn do_try_state(&self) -> (ok: bool)
        ensures
            ok == (self@.credits.dom() == self@.amount_held.dom()),
    {
        if self.credits.len() != self.amount_held.len() {
            return false;
        }
        let mut ok = true;
        for k in iter: self.credits.keys()
            invariant
                ok == (forall|j: int|
                    0 <= j < iter.index() ==> self.amount_held@.contains_key(
                        *(#[trigger] iter.seq()[j]),
                    )),
        {
            if !self.amount_held.contains_key(k) {
                ok = false;
            }
        }
        proof {
            let keys = self.credits.keys().remaining();
            assert(keys.unref().to_set() == self.credits@.dom());
            if ok {
                assert forall|a: AccountId| self.credits@.dom().contains(a) implies
                    self.amount_held@.dom().contains(a) by {
                    assert(keys.unref().contains(a));
                    let j = choose|j: int| 0 <= j < keys.unref().len() && keys.unref()[j] == a;
                    assert(*keys[j] == a);
                }
                vstd::set_lib::lemma_subset_equality(
                    self.credits@.dom(),
                    self.amount_held@.dom(),
                );
            } else {
                let j = choose|j: int|
                    0 <= j < keys.len() && !self.amount_held@.contains_key(*(#[trigger] keys[j]));
                assert(keys.unref()[j] == *keys[j]);
                assert(keys.unref().to_set().contains(*keys[j]));
            }
        }
        ok
    }

    /// What the pallet holds of `who`, if anything.
    pub fn amount_held(&self, who: AccountId) -> (res: Option<Balance>)
        ensures
            res == (if self@.amount_held.contains_key(who) {
                Some(self@.amount_held[who])
            } else {
                None
            }),
    {
        match self.amount_held.get(&who) {
            Some(b) => Some(*b),
            None => None,
        }
    }

    /// The weight that `who` may still use without a fee, if any was granted.
    pub fn credits(&self, who: AccountId) -> (res: Option<Weight>)
        ensures
            res == (if self@.credits.contains_key(who) {
                Some(self@.credits[who])
            } else {
                None
            }),
    {
        match self.credits.get(&who) {
            Some(w) => Some(*w),
            None => None,
        }
    }

    /// Hands out every event deposited so far, oldest first, and starts the record anew.
    pub fn take_events(&mut self) -> (res: Vec<Event>)
        ensures
            final(self).config_spec() == old(self).config_spec(),
            res@ == old(self)@.events,
            final(self)@ == (State { events: Seq::<Event>::empty(), ..old(self)@ }),
    {
        let mut taken: Vec<Event> = Vec::new();
        std::mem::swap(&mut self.events, &mut taken);
        taken
    }

    /// The event deposited last, if any.
    pub fn last_event(&self) -> (res: Option<Event>)
        ensures
            res == (if self@.events.len() > 0 {
                Some(self@.events.last())
            } else {
                None
            }),
    {
        let n = self.events.len();
        if n > 0 {
            Some(self.events[n - 1])
        } else {
            None
        }
    }
}

} // verus!
