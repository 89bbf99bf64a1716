//! Delegated proof of stake: the validators that the pallet reports to the runtime, and the
//! records that a ranking of validators by their backing is made of.

use vstd::prelude::*;
use crate::dispatch::{DispatchError, DispatchResult};
use crate::origin::Origin;
use crate::primitives::{AccountId, Balance, BlockNumber};
use crate::weight::{Perbill, Weight};

verus! {

/// Takes note of a new set of validators on behalf of the runtime.
pub trait ReportNewValidatorSet: Sized {
    /// Whether `after` is what the receiver may be once it was told of `new_set`. Unless an
    /// implementation says more, it may be anything.
    open spec fn reported(&self, new_set: Seq<AccountId>, after: &Self) -> bool {
        true
    }

    /// Tells the receiver that `new_set` are the validators from now on.
    fn report_new_validator_set(&mut self, new_set: Vec<AccountId>)
        ensures
            old(self).reported(new_set@, final(self)),
    ;
}

/// Takes a share of the funds of a validator and of those who back it.
pub trait DoSlash {
    /// Reduces what `who` and the delegators of `who` have staked by `amount`.
    fn do_slash(&mut self, who: AccountId, amount: Perbill);
}

/// The parameters that the surrounding runtime chooses.
#[derive(Clone, Copy, Debug, PartialEq, Eq, Structural)]
pub struct Config {
    /// The number of validators that a reported set must stay below.
    pub max_validators: u32,
    /// The number of blocks after which the validators change.
    pub epoch_duration: BlockNumber,
}

/// What a delegator has delegated, and to whom.
#[derive(Clone, Copy, Debug, PartialEq, Eq, Structural)]
pub struct DelegationInfo {
    /// The validator who is getting the delegation.
    pub who: AccountId,
    /// The amount being delegated.
    pub amount: Balance,
}

/// A validator and all that is delegated to it.
#[derive(Clone, Copy, Debug, PartialEq, Eq, Structural)]
pub struct ValidatorBacking {
    /// The validator.
    pub who: AccountId,
    /// The sum of what is delegated to the validator.
    pub amount: Balance,
}

/// What the pallet tells its users.
#[derive(Clone, Copy, Debug, PartialEq, Eq, Structural)]
pub enum Event {
    /// A number was stored by `who`.
    SomethingStored { something: u32, who: AccountId },
}

/// Why this pallet rejects a call.
#[derive(Clone, Copy, Debug, PartialEq, Eq, Structural)]
pub enum Error {
    /// The reported set does not stay below the number of validators allowed.
    TooManyValidators,
}

/// The storage of the pallet as a mathematical value.
pub struct State {
    /// The stored number, if there is one.
    pub something: Option<u32>,
    /// Every event deposited so far, oldest first.
    pub events: Seq<Event>,
}

/// Whether a forced report goes through: only for the system caller, and only with a set
/// whose length, taken as a 32-bit number, is below `max_validators`.
pub open spec fn force_report_new_validators_spec(
    config: Config,
    origin: Origin,
    new_set: Seq<AccountId>,
) -> DispatchResult<Error> {
    match origin {
        Origin::Root => if (new_set.len() as u32) < config.max_validators {
            Ok(())
        } else {
            Err(DispatchError::Module(Error::TooManyValidators))
        },
        _ => Err(DispatchError::BadOrigin),
    }
}

/// What storing a number does to the storage, and what it answers.
pub open spec fn do_something_spec(before: State, origin: Origin, something: u32) -> (
    State,
    DispatchResult<Error>,
) {
    match origin {
        Origin::Signed(who) => if something > 42 {
            (
                State {
                    something: Some(something),
                    events: before.events.push(Event::SomethingStored { something, who }),
                    ..before
                },
                Ok(()),
            )
        } else {
            (before, Err(DispatchError::Other("ErrorsCanBeStaticStringsToo")))
        },
        _ => (before, Err(DispatchError::BadOrigin)),
    }
}

/// The pallet: its parameters and its storage.
pub struct Pallet {
    config: Config,
    something: Option<u32>,
    events: Vec<Event>,
}

impl View for Pallet {
    type V = State;

    closed spec fn view(&self) -> State {
        State { something: self.something, events: self.events@ }
    }
}

impl Pallet {
    /// The parameters this pallet was set up with.
    pub closed spec fn config_spec(&self) -> Config {
        self.config
    }

    /// A pallet with empty storage.
    pub fn new(config: Config) -> (res: Self)
        ensures
            res.config_spec() == config,
            res@.something == None::<u32>,
            res@.events == Seq::<Event>::empty(),
    {
        Pallet { config, something: None, events: Vec::new() }
    }

    /// A pallet over storage that holds the given number and no event.
    pub fn from_storage(config: Config, something: Option<u32>) -> (res: Self)
        ensures
            res.config_spec() == config,
            res@.something == something,
            res@.events == Seq::<Event>::empty(),
    {
        Pallet { config, something, events: Vec::new() }
    }

    /// The parameters this pallet was set up with.
    pub fn config(&self) -> (res: Config)
        ensures
            res == self.config_spec(),
    {
        self.config
    }

    /// Replaces the parameters; the storage stays as it is.
    pub fn set_config(&mut self, config: Config)
        ensures
            final(self).config_spec() == config,
            final(self)@ == old(self)@,
    {
        self.config = config;
    }

    /// Whether an epoch ends with block `n`: the epochs are counted from block zero on.
    pub fn epoch_has_passed(&self, n: BlockNumber) -> (res: bool)
        requires
            self.config_spec().epoch_duration != 0,
        ensures
            res == (n % self.config_spec().epoch_duration == 0),
    {
        n % self.config.epoch_duration == 0
    }

    /// Runs at the start of block `n`. Where an epoch has passed the validators would change
    /// here; so far nothing does, and no weight is used.
    pub fn on_initialize(&self, n: BlockNumber) -> (res: Weight)
        requires
            self.config_spec().epoch_duration != 0,
        ensures
            res == (Weight { ref_time: 0, proof_size: 0 }),
    {
        if self.epoch_has_passed(n) {
            // nothing changes the validators yet
        }
        Weight::zero()
    }

    /// Hands `new_set` to `reporter` as the validators from now on.
    ///
    /// Only the system caller may do so, and only with a set that stays below the number of
    /// validators allowed (`TooManyValidators` otherwise). A rejected call leaves `reporter`
    /// as it was.
    pub fn force_report_new_validators<R: ReportNewValidatorSet>(
        &self,
        origin: Origin,
        new_set: Vec<AccountId>,
        reporter: &mut R,
    ) -> (res: DispatchResult<Error>)
        ensures
            res == force_report_new_validators_spec(self.config_spec(), origin, new_set@),
            res is Ok ==> old(reporter).reported(new_set@, final(reporter)),
            res is Err ==> *final(reporter) == *old(reporter),
    {
        match crate::origin::ensure_root(origin) {
            Ok(_) => {},
            Err(e) => {
                return Err(DispatchError::from_bad_origin(e));
            },
        }
        if !((new_set.len() as u32) < self.config.max_validators) {
            return Err(DispatchError::Module(Error::TooManyValidators));
        }
        reporter.report_new_validator_set(new_set);
        Ok(())
    }

    /// Stores `something` for a signed caller and deposits `SomethingStored`. A number that is
    /// not above 42 is rejected with the message `ErrorsCanBeStaticStringsToo`.
    pub fn do_something(&mut self, origin: Origin, something: u32) -> (res: DispatchResult<Error>)
        ensures
            final(self).config_spec() == old(self).config_spec(),
            (final(self)@, res) == do_something_spec(old(self)@, origin, something),
    {
        let who = match crate::origin::ensure_signed(origin) {
            Ok(who) => who,
            Err(e) => {
                return Err(DispatchError::from_bad_origin(e));
            },
        };
        if !(something > 42) {
            return Err(DispatchError::Other("ErrorsCanBeStaticStringsToo"));
        }
        self.something = Some(something);
        self.events.push(Event::SomethingStored { something, who });
        Ok(())
    }

    /// Lets any signed caller claim that `who` belongs among the top validators. So far the
    /// claim changes nothing.
    pub fn report_top_validator(&self, origin: Origin, who: AccountId) -> (res: DispatchResult<
        Error,
    >)
        ensures
            res == (match origin {
                Origin::Signed(_) => Ok::<(), DispatchError<Error>>(()),
                _ => Err::<(), DispatchError<Error>>(DispatchError::BadOrigin),
            }),
    {
        match crate::origin::ensure_signed(origin) {
            Ok(_) => {},
            Err(e) => {
                return Err(DispatchError::from_bad_origin(e));
            },
        }
        Ok(())
    }

    /// The stored number, if there is one.
    pub fn something(&self) -> (res: Option<u32>)
        ensures
            res == self@.something,
    {
        self.something
    }

    /// Hands out every event deposited so far, oldest first, and starts the record anew.
    pub fn take_events(&mut self) -> (res: Vec<Event>)
        ensures
            final(self).config_spec() == old(self).config_spec(),
            res@ == old(self)@.events,
            final(self)@ == (State { events: Seq::<Event>::empty(), ..old(self)@ }),
    {
        let mut taken: Vec<Event> = Vec::new();
        std::mem::swap(&mut self.events, &mut taken);
        taken
    }

    /// The event deposited last, if any.
    pub fn last_event(&self) -> (res: Option<Event>)
        ensures
            res == (if self@.events.len() > 0 {
                Some(self@.events.last())
            } else {
                None
            }),
    {
        let n = self.events.len();
        if n > 0 {
            Some(self.events[n - 1])
        } else {
            None
        }
    }
}

impl DoSlash for Pallet {
    /// Nothing is staked with the pallet yet, so nothing is reduced.
    fn do_slash(&mut self, who: AccountId, amount: Perbill)
        ensures
            final(self).config_spec() == old(self).config_spec(),
            final(self)@ == old(self)@,
    {
    }
}

/// A reporter that takes no note of anything.
impl ReportNewValidatorSet for () {
    fn report_new_validator_set(&mut self, new_set: Vec<AccountId>) {
    }
}

} // verus!
