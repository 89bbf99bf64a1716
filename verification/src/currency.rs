//! A toy currency: every account may be minted into exactly once, and the sum of what was
//! minted is tracked as the total issuance.

use vstd::prelude::*;
use std::collections::HashMap;
use crate::dispatch::{DispatchError, DispatchResult};
use crate::origin::Origin;
use crate::primitives::{AccountId, Balance};

verus! {

broadcast use vstd::std_specs::hash::group_hash_axioms;

/// This pallet rejects calls by message only: it has no error enumeration of its own.
pub type Error = ();

/// The parameters that the surrounding runtime chooses.
#[derive(Clone, Copy, Debug, PartialEq, Eq, Structural)]
pub struct Config {
    /// The existential deposit: the least amount that an account may be created with.
    pub ed: Balance,
}

/// The ledger as a mathematical value.
pub struct Ledger {
    /// The sum of every amount minted so far.
    pub total_issuance: int,
    /// What each existing account holds.
    pub balances: Map<AccountId, Balance>,
}

/// What a mint does to a ledger, and what it answers.
pub open spec fn mint_spec(ed: Balance, before: Ledger, origin: Origin, amount: Balance) -> (
    Ledger,
    DispatchResult<Error>,
) {
    match origin {
        Origin::Signed(who) => if amount < ed {
            (before, Err(DispatchError::Other("BelowEd")))
        } else if before.balances.contains_key(who) {
            (before, Err(DispatchError::Other("AlreadyExists")))
        } else {
            (
                Ledger {
                    total_issuance: before.total_issuance + amount,
                    balances: before.balances.insert(who, amount),
                },
                Ok(()),
            )
        },
        _ => (before, Err(DispatchError::BadOrigin)),
    }
}

/// The sum of what all accounts of `balances` hold.
pub open spec fn sum_of_balances(balances: Map<AccountId, Balance>) -> int
    decreases balances.dom().len(),
    when balances.dom().finite()
{
    if balances.dom().len() == 0 {
        0
    } else {
        let who = balances.dom().choose();
        balances[who] + sum_of_balances(balances.remove(who))
    }
}

/// Whether the total issuance of `ledger` is the sum of what its accounts hold.
pub open spec fn issuance_is_sum(ledger: Ledger) -> bool {
    ledger.total_issuance == sum_of_balances(ledger.balances)
}

/// The sum of all balances is the balance of any one account plus the sum of the others.
pub proof fn lemma_sum_of_balances_remove(balances: Map<AccountId, Balance>, who: AccountId)
    requires
        balances.dom().finite(),
        balances.contains_key(who),
    ensures
        sum_of_balances(balances) == balances[who] + sum_of_balances(balances.remove(who)),
    decreases balances.dom().len(),
{
    let first = balances.dom().choose();
    if first != who {
        let without_first = balances.remove(first);
        let without_who = balances.remove(who);
        lemma_sum_of_balances_remove(without_first, who);
        lemma_sum_of_balances_remove(without_who, first);
        assert(without_first.remove(who) =~= without_who.remove(first));
    }
}

/// A new account adds what it holds to the sum of all balances.
pub proof fn lemma_sum_of_balances_insert(
    balances: Map<AccountId, Balance>,
    who: AccountId,
    amount: Balance,
)
    requires
        balances.dom().finite(),
        !balances.contains_key(who),
    ensures
        sum_of_balances(balances.insert(who, amount)) == sum_of_balances(balances) + amount,
{
    let after = balances.insert(who, amount);
    lemma_sum_of_balances_remove(after, who);
    assert(after.remove(who) =~= balances);
}

/// Minting keeps the total issuance equal to the sum of all balances: whatever is minted into
/// an account is counted once, and a rejected mint counts for nothing.
pub proof fn lemma_mint_keeps_issuance(
    ed: Balance,
    before: Ledger,
    origin: Origin,
    amount: Balance,
)
    requires
        before.balances.dom().finite(),
        issuance_is_sum(before),
    ensures
        issuance_is_sum(mint_spec(ed, before, origin, amount).0),
        mint_spec(ed, before, origin, amount).0.balances.dom().finite(),
{
    if let Origin::Signed(who) = origin {
        if amount >= ed && !before.balances.contains_key(who) {
            lemma_sum_of_balances_insert(before.balances, who, amount);
        }
    }
}

/// A rejected mint leaves the ledger as it was, and an account can be minted into only once.
pub proof fn lemma_mint_only_once(
    ed: Balance,
    before: Ledger,
    who: AccountId,
    first: Balance,
    second: Balance,
)
    requires
        mint_spec(ed, before, Origin::Signed(who), first).1 is Ok,
    ensures
        mint_spec(
            ed,
            mint_spec(ed, before, Origin::Signed(who), first).0,
            Origin::Signed(who),
            second,
        ).1 is Err,
{
}

/// The currency pallet: its parameters and its storage.
pub struct Pallet {
    config: Config,
    total_issuance: Balance,
    balances: HashMap<AccountId, Balance>,
}

impl View for Pallet {
    type V = Ledger;

    closed spec fn view(&self) -> Ledger {
        Ledger { total_issuance: self.total_issuance as int, balances: self.balances@ }
    }
}

impl Pallet {
    /// The parameters this pallet was set up with.
    pub closed spec fn config_spec(&self) -> Config {
        self.config
    }

    /// An empty ledger: nothing issued, no account.
    pub fn new(config: Config) -> (res: Self)
        ensures
            res.config_spec() == config,
            res@.total_issuance == 0,
            res@.balances == Map::<AccountId, Balance>::empty(),
            issuance_is_sum(res@),
    {
        Pallet { config, total_issuance: 0, balances: HashMap::new() }
    }

    /// A pallet over a ledger with the given issuance and accounts.
    pub fn from_storage(
        config: Config,
        total_issuance: Balance,
        balances: HashMap<AccountId, Balance>,
    ) -> (res: Self)
        ensures
            res.config_spec() == config,
            res@.total_issuance == total_issuance,
            res@.balances == balances@,
    {
        Pallet { config, total_issuance, balances }
    }

    /// The parameters this pallet was set up with.
    pub fn config(&self) -> (res: Config)
        ensures
            res == self.config_spec(),
    {
        self.config
    }

    /// Whether a mint of `amount` by `origin` would be accepted and would take the total
    /// issuance beyond the greatest balance there is: the one mint that `mint_unsafe` must not
    /// be asked for.
    pub fn mint_overflows(&self, origin: Origin, amount: Balance) -> (res: bool)
        ensures
            res == (mint_spec(self.config_spec().ed, self@, origin, amount).1 is Ok
                && self@.total_issuance + amount > u128::MAX),
    {
        match origin {
            Origin::Signed(who) => amount >= self.config.ed && !self.balances.contains_key(&who)
                && amount > u128::MAX - self.total_issuance,
            _ => false,
        }
    }

    /// Creates the signer's account with `amount` in it and adds `amount` to the total issuance.
    ///
    /// Rejected, with the ledger untouched, when the caller is not signed, when `amount` is below
    /// the existential deposit (`"BelowEd"`), or when the signer's account exists already
    /// (`"AlreadyExists"`), in this order.
    pub fn mint_unsafe(&mut self, origin: Origin, amount: Balance) -> (res: DispatchResult<Error>)
        requires
            mint_spec(old(self).config_spec().ed, old(self)@, origin, amount).1 is Ok
                ==> old(self)@.total_issuance + amount <= u128::MAX,
        ensures
            final(self).config_spec() == old(self).config_spec(),
            (final(self)@, res) == mint_spec(old(self).config_spec().ed, old(self)@, origin, amount),
    {
        let who = match crate::origin::ensure_signed(origin) {
            Ok(who) => who,
            Err(e) => {
                return Err(DispatchError::from_bad_origin(e));
            },
        };
        if amount < self.config.ed {
            return Err(DispatchError::Other("BelowEd"));
        }
        if self.balances.contains_key(&who) {
            return Err(DispatchError::Other("AlreadyExists"));
        }
        self.balances.insert(who, amount);
        self.total_issuance = self.total_issuance + amount;
        Ok(())
    }

    /// What `who` holds, if the account exists.
    pub fn balance_of(&self, who: AccountId) -> (res: Option<Balance>)
        ensures
            res == (if self@.balances.contains_key(who) {
                Some(self@.balances[who])
            } else {
                None
            }),
    {
        match self.balances.get(&who) {
            Some(b) => Some(*b),
            None => None,
        }
    }

    /// The sum of every amount minted so far.
    pub fn total_issuance(&self) -> (res: Balance)
        ensures
            res == self@.total_issuance,
    {
        self.total_issuance
    }
}

} // verus!
