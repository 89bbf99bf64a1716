use runtime_pallets::dispatch::{DispatchError, DispatchErrorWithPostInfo, Pays, PostDispatchInfo};
use runtime_pallets::multisig::{Error, Event, Pallet, Redispatch, SEED_TAG};
use runtime_pallets::origin::Origin;
use runtime_pallets::weight::Weight;
use std::collections::HashMap;

/// Stands for the host's balances: the call that the tests re-dispatch is a transfer.
struct Balances {
    free: HashMap<u64, u128>,
}

impl Balances {
    fn new() -> Self {
        Balances { free: HashMap::new() }
    }

    fn set_balance(&mut self, who: u64, amount: u128) {
        self.free.insert(who, amount);
    }

    fn balance(&self, who: u64) -> u128 {
        self.free.get(&who).copied().unwrap_or(0)
    }

    fn transfer_keep_alive(
        &mut self,
        origin: Origin,
        dest: u64,
        value: u128,
    ) -> Result<PostDispatchInfo, DispatchErrorWithPostInfo<&'static str>> {
        let post_info = PostDispatchInfo { actual_weight: None, pays_fee: Pays::Yes };
        let from = match origin {
            Origin::Signed(who) => who,
            _ => return Err(DispatchErrorWithPostInfo { post_info, error: "BadOrigin" }),
        };
        if self.balance(from) <= value {
            return Err(DispatchErrorWithPostInfo { post_info, error: "FundsUnavailable" });
        }
        self.set_balance(from, self.balance(from) - value);
        self.set_balance(dest, self.balance(dest) + value);
        Ok(post_info)
    }
}

#[test]
fn tests_it_works_for_default_value() {
    let mut multisig = Pallet::new();
    // Dispatch a signed extrinsic.
    assert_eq!(multisig.do_something(Origin::Signed(1), 42), Ok(()));
    // Read pallet storage and assert an expected result.
    assert_eq!(multisig.something(), Some(42));
    // Assert that the correct event was deposited
    assert_eq!(multisig.last_event(), Some(Event::SomethingStored { something: 42, who: 1 }));
}

#[test]
fn correct_error_for_none_value() {
    let mut multisig = Pallet::new();
    // Ensure the expected error is thrown when no value is present.
    assert_eq!(
        multisig.cause_error(Origin::Signed(1)),
        Err(DispatchError::Module(Error::NoneValue))
    );
    assert_eq!(multisig.something(), None);
    assert_eq!(multisig.last_event(), None);
}

#[test]
fn redispatch_works() {
    let mut multisig = Pallet::new();
    let mut balances = Balances::new();

    let alice = 1;
    let bob = 2;
    let amount: u128 = 12345;

    // The call is executed on behalf of the caller, so alice needs some balance.
    balances.set_balance(alice, 100_000);

    // This is the weight that a transfer announces.
    let transfer_keep_alive_weight: Weight = Weight::from_parts(163159000, 3593);

    let request = multisig.redispatch(Origin::Signed(alice), transfer_keep_alive_weight).unwrap();
    let dispatched = balances.transfer_keep_alive(request.origin, bob, amount);
    assert_eq!(multisig.finish_redispatch(request, dispatched), Ok(()));

    // We can check the events are correct, and has the weight we might expect.
    assert_eq!(
        multisig.last_event(),
        Some(Event::CallWeight { weight: transfer_keep_alive_weight })
    );

    // ALSO we can see the transfer happened!
    assert_eq!(balances.balance(alice), 100_000 - 12345);
    assert_eq!(balances.balance(bob), 12345);
}

#[test]
fn redispatch_passes_the_reason_of_a_failure_on() {
    let mut multisig = Pallet::new();
    let mut balances = Balances::new();
    let weight = Weight::from_parts(7, 9);

    let request = multisig.redispatch(Origin::Signed(1), weight).unwrap();
    assert_eq!(request, Redispatch { origin: Origin::Signed(1), call_weight: weight });
    let dispatched = balances.transfer_keep_alive(request.origin, 2, 10);
    assert_eq!(multisig.finish_redispatch(request, dispatched), Err("FundsUnavailable"));
    // the weight is told of whatever the call answered
    assert_eq!(multisig.last_event(), Some(Event::CallWeight { weight }));
    assert_eq!(balances.balance(2), 0);
}

#[test]
fn redispatch_needs_a_signed_caller() {
    let multisig = Pallet::new();
    let weight = Weight::from_parts(1, 1);
    assert_eq!(multisig.redispatch(Origin::Root, weight), Err(DispatchError::BadOrigin));
    assert_eq!(multisig.redispatch(Origin::Unsigned, weight), Err(DispatchError::BadOrigin));
    assert_eq!(multisig.last_event(), None);
}

#[test]
fn do_something_needs_a_signed_caller() {
    let mut multisig = Pallet::new();
    assert_eq!(multisig.do_something(Origin::Root, 42), Err(DispatchError::BadOrigin));
    assert_eq!(multisig.do_something(Origin::Unsigned, 42), Err(DispatchError::BadOrigin));
    assert_eq!(multisig.something(), None);
    // any number is stored for a signed caller
    assert_eq!(multisig.do_something(Origin::Signed(9), 0), Ok(()));
    assert_eq!(multisig.something(), Some(0));
}

#[test]
fn cause_error_counts_up_until_the_number_is_full() {
    let mut multisig = Pallet::new();
    assert_eq!(multisig.do_something(Origin::Signed(1), 41), Ok(()));
    assert_eq!(multisig.cause_error(Origin::Signed(2)), Ok(()));
    assert_eq!(multisig.something(), Some(42));
    assert_eq!(multisig.cause_error(Origin::Unsigned), Err(DispatchError::BadOrigin));
    assert_eq!(multisig.something(), Some(42));

    assert_eq!(multisig.do_something(Origin::Signed(1), u32::MAX - 1), Ok(()));
    assert_eq!(multisig.cause_error(Origin::Signed(1)), Ok(()));
    assert_eq!(multisig.something(), Some(u32::MAX));
    assert_eq!(
        multisig.cause_error(Origin::Signed(1)),
        Err(DispatchError::Module(Error::StorageOverflow))
    );
    assert_eq!(multisig.something(), Some(u32::MAX));
}

/// The account of a seed, computed without the library.
fn expected_account(seed: u32) -> u64 {
    let mut preimage = b"pba/multisig".to_vec();
    preimage.extend_from_slice(&seed.to_le_bytes());
    let entropy = sp_io::hashing::blake2_256(&preimage);
    let mut first = [0u8; 8];
    first.copy_from_slice(&entropy[..8]);
    u64::from_le_bytes(first)
}

#[test]
fn multi_account_id_is_read_from_the_digest_of_tag_and_seed() {
    assert_eq!(&SEED_TAG, b"pba/multisig");
    for seed in [0u32, 1, 2, 255, 256, 0x0102_0304, u32::MAX] {
        assert_eq!(Pallet::multi_account_id(seed), expected_account(seed));
    }
    assert_eq!(Pallet::multi_account_id(0), 8058234907293155886);
    assert_eq!(Pallet::multi_account_id(1), 6149727023384091100);
}

#[test]
fn multi_account_id_depends_on_the_seed_alone() {
    assert_eq!(Pallet::multi_account_id(5), Pallet::multi_account_id(5));
    assert_ne!(Pallet::multi_account_id(5), Pallet::multi_account_id(6));
    // the bytes of the seed count in their order
    assert_ne!(Pallet::multi_account_id(0x0000_0100), Pallet::multi_account_id(0x0001_0000));
    // the account is no copy of the seed
    assert_ne!(Pallet::multi_account_id(5), 5);
}

#[test]
fn multisig_events_are_handed_out_oldest_first() {
    let mut multisig = Pallet::from_storage(Some(3));
    assert_eq!(multisig.cause_error(Origin::Signed(1)), Ok(()));
    assert_eq!(multisig.something(), Some(4));
    assert_eq!(multisig.take_events(), vec![]);
    assert_eq!(multisig.do_something(Origin::Signed(1), 8), Ok(()));
    let weight = Weight::from_parts(2, 3);
    let request = multisig.redispatch(Origin::Signed(1), weight).unwrap();
    let paid = PostDispatchInfo { actual_weight: Some(weight), pays_fee: Pays::Yes };
    assert_eq!(multisig.finish_redispatch::<&str>(request, Ok(paid)), Ok(()));
    assert_eq!(
        multisig.take_events(),
        vec![Event::SomethingStored { something: 8, who: 1 }, Event::CallWeight { weight }]
    );
    assert_eq!(multisig.last_event(), None);
}
