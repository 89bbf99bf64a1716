use runtime_pallets::currency::{Config, Pallet};
use runtime_pallets::dispatch::DispatchError;
use runtime_pallets::origin::Origin;

fn new_pallet() -> Pallet {
    Pallet::new(Config { ed: 5 })
}

#[test]
fn mint_works() {
    let mut currency = new_pallet();
    // given
    assert_eq!(currency.balance_of(1), None);

    // when
    assert!(currency.mint_unsafe(Origin::Signed(1), 42).is_ok());

    // then
    assert_eq!(currency.balance_of(1), Some(42));
}

#[test]
fn mint_into_existing_fails() {
    let mut currency = new_pallet();
    assert_eq!(currency.mint_unsafe(Origin::Signed(1), 42), Ok(()));
    assert_eq!(
        currency.mint_unsafe(Origin::Signed(1), 7),
        Err(DispatchError::Other("AlreadyExists"))
    );
    assert_eq!(currency.balance_of(1), Some(42));
    assert_eq!(currency.total_issuance(), 42);
}

#[test]
fn mint_below_ed_fails() {
    let mut currency = new_pallet();
    assert_eq!(
        currency.mint_unsafe(Origin::Signed(1), 4),
        Err(DispatchError::Other("BelowEd"))
    );
    assert_eq!(currency.balance_of(1), None);
    assert_eq!(currency.total_issuance(), 0);
}

#[test]
fn mint_needs_a_signed_caller() {
    let mut currency = new_pallet();
    assert_eq!(currency.mint_unsafe(Origin::Root, 42), Err(DispatchError::BadOrigin));
    assert_eq!(currency.mint_unsafe(Origin::Unsigned, 42), Err(DispatchError::BadOrigin));
    assert_eq!(currency.total_issuance(), 0);
}

#[test]
fn mint_takes_the_existential_deposit_itself() {
    let mut currency = new_pallet();
    assert_eq!(currency.config(), Config { ed: 5 });
    assert_eq!(currency.mint_unsafe(Origin::Signed(3), 5), Ok(()));
    assert_eq!(currency.balance_of(3), Some(5));
}

#[test]
fn the_amount_is_judged_before_the_account() {
    let mut currency = new_pallet();
    assert_eq!(currency.mint_unsafe(Origin::Signed(1), 42), Ok(()));
    assert_eq!(
        currency.mint_unsafe(Origin::Signed(1), 4),
        Err(DispatchError::Other("BelowEd"))
    );
}

#[test]
fn total_issuance_is_the_sum_of_all_balances() {
    let mut currency = new_pallet();
    let minted: [(u64, u128); 5] = [(1, 42), (2, 5), (7, 1_000_000), (3, 99), (9, 6)];
    let mut sum = 0;
    for (who, amount) in minted {
        assert_eq!(currency.mint_unsafe(Origin::Signed(who), amount), Ok(()));
        sum += amount;
        assert_eq!(currency.total_issuance(), sum);
    }
    // rejected mints count for nothing
    assert!(currency.mint_unsafe(Origin::Signed(1), 10).is_err());
    assert!(currency.mint_unsafe(Origin::Signed(4), 1).is_err());
    assert!(currency.mint_unsafe(Origin::Root, 10).is_err());
    assert_eq!(currency.total_issuance(), 1_000_152);
    let held: u128 = minted.iter().map(|(who, _)| currency.balance_of(*who).unwrap()).sum();
    assert_eq!(held, currency.total_issuance());
}

#[test]
fn a_mint_that_would_leave_the_range_is_told_apart() {
    let mut balances = std::collections::HashMap::new();
    balances.insert(1u64, u128::MAX - 10);
    let mut currency = Pallet::from_storage(Config { ed: 5 }, u128::MAX - 10, balances);
    assert_eq!(currency.total_issuance(), u128::MAX - 10);
    assert_eq!(currency.balance_of(1), Some(u128::MAX - 10));

    assert!(currency.mint_overflows(Origin::Signed(2), 11));
    assert!(!currency.mint_overflows(Origin::Signed(2), 10));
    // a mint that is rejected anyway leaves the issuance alone
    assert!(!currency.mint_overflows(Origin::Signed(1), 11));
    assert!(!currency.mint_overflows(Origin::Root, 11));
    assert!(!Pallet::from_storage(Config { ed: u128::MAX }, u128::MAX, std::collections::HashMap::new())
        .mint_overflows(Origin::Signed(2), 11));

    assert_eq!(currency.mint_unsafe(Origin::Signed(2), 10), Ok(()));
    assert_eq!(currency.total_issuance(), u128::MAX);
}
