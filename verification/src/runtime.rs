//! What the runtime itself adds to its pallets: the validators that were reported last, and
//! the author of a block picked among them.

use vstd::prelude::*;
use crate::dpos::ReportNewValidatorSet;
use crate::primitives::{AccountId, BlockNumber};

verus! {

/// Keeps the validators that were reported last.
#[derive(Debug, PartialEq, Eq)]
pub struct StoreNewValidatorSet {
    /// The validators that were reported last; none before the first report.
    pub validator_set: Vec<AccountId>,
}

impl StoreNewValidatorSet {
    /// A store that has not been told of any validators.
    pub fn new() -> (res: Self)
        ensures
            res.validator_set@ == Seq::<AccountId>::empty(),
    {
        StoreNewValidatorSet { validator_set: Vec::new() }
    }
}

impl ReportNewValidatorSet for StoreNewValidatorSet {
    open spec fn reported(&self, new_set: Seq<AccountId>, after: &Self) -> bool {
        after.validator_set@ == new_set
    }

    fn report_new_validator_set(&mut self, new_set: Vec<AccountId>) {
        self.validator_set = new_set;
    }
}

/// The author of block `block_number` among `validators`: they take turns in the order in
/// which they were reported, and nobody is the author while there are no validators.
pub open spec fn find_author_spec(validators: Seq<AccountId>, block_number: BlockNumber) -> Option<
    AccountId,
> {
    if validators.len() == 0 {
        None
    } else {
        Some(validators[block_number as int % validators.len() as int])
    }
}

/// Every block has an author as soon as there is a validator, and the author is always one
/// of the validators.
pub proof fn lemma_author_is_a_validator(validators: Seq<AccountId>, block_number: BlockNumber)
    ensures
        find_author_spec(validators, block_number) is None <==> validators.len() == 0,
        find_author_spec(validators, block_number) matches Some(author) ==> validators.contains(
            author,
        ),
{
    if validators.len() > 0 {
        let index = block_number as int % validators.len() as int;
        assert(0 <= index < validators.len());
        assert(validators[index] == find_author_spec(validators, block_number)->Some_0);
    }
}

/// Picks the author of a block among the validators that were reported last.
pub struct BlockAuthor;

impl BlockAuthor {
    /// The author of block `block_number`.
    pub fn find_author(store: &StoreNewValidatorSet, block_number: BlockNumber) -> (res: Option<
        AccountId,
    >)
        ensures
            res == find_author_spec(store.validator_set@, block_number),
    {
        let last_known_set = &store.validator_set;
        if last_known_set.len() == 0 {
            return None;
        }
        let index = (block_number % (last_known_set.len() as u64)) as usize;
        Some(last_known_set[index])
    }
}

} // verus!
