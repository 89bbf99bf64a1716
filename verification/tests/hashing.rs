use runtime_pallets::hashing::account_from_entropy;
use runtime_pallets::origin::{ensure_root, ensure_signed, BadOrigin, Origin};

#[test]
fn an_account_is_the_first_eight_bytes_of_a_digest() {
    let mut entropy = [0u8; 32];
    assert_eq!(account_from_entropy(&entropy), 0);
    entropy[0] = 1;
    assert_eq!(account_from_entropy(&entropy), 1);
    entropy[1] = 2;
    assert_eq!(account_from_entropy(&entropy), 0x0201);
    entropy[7] = 0x80;
    assert_eq!(account_from_entropy(&entropy), 0x8000_0000_0000_0201);
    // what comes after the eighth byte does not count
    entropy[8] = 0xff;
    entropy[31] = 0xff;
    assert_eq!(account_from_entropy(&entropy), 0x8000_0000_0000_0201);
    assert_eq!(account_from_entropy(&[0xff; 32]), u64::MAX);
}

#[test]
fn callers_are_told_apart() {
    assert_eq!(ensure_signed(Origin::Signed(5)), Ok(5));
    assert_eq!(ensure_signed(Origin::Root), Err(BadOrigin));
    assert_eq!(ensure_signed(Origin::Unsigned), Err(BadOrigin));
    assert_eq!(ensure_root(Origin::Root), Ok(()));
    assert_eq!(ensure_root(Origin::Signed(5)), Err(BadOrigin));
    assert_eq!(ensure_root(Origin::Unsigned), Err(BadOrigin));
}
