use metalog::module::{GenesisConfig, Module};
use metalog::types::{Event, MetalogError, Origin, Payment, DELETE_LICENSE, NAME_PRICE};

/// Storage after genesis gives account 0 the metalog `[1, 2, 3]`, license 0.
fn new_test_ext() -> Module {
    Module::from_genesis(&GenesisConfig { metalog: vec![(0, 0)] }, 0)
}

/// What the balances module answers to `payment` when the payer holds `free_balance`.
fn transfer_funds(free_balance: u64, payment: &Payment) -> Result<(), &'static str> {
    if free_balance < payment.amount {
        Err("balance too low to send value")
    } else {
        Ok(())
    }
}

/// Buys `name` for `did` as a runtime would: ask for the payment, make it
/// with the payer's balance, then hand its outcome back.
fn buy(
    m: &mut Module,
    free_balance: u64,
    origin: Origin,
    did: Vec<u8>,
    name: Vec<u8>,
) -> Result<Event, MetalogError> {
    let payment = m.unique_name_payment(origin, &did, &name)?;
    let paid = transfer_funds(free_balance, &payment);
    m.buy_unique_name(origin, did, name, paid)
}

/// The call fails with `expected` and leaves storage as it was.
fn assert_noop(
    m: &mut Module,
    call: impl FnOnce(&mut Module) -> Result<Event, MetalogError>,
    expected: &str,
) {
    let before = m.duplicate();
    let r = call(m);
    assert_eq!(r.map_err(|e| e.as_str()), Err(expected));
    assert!(m.same_storage(&before));
}

#[test]
fn init_unique_name_account_works() {
    let mut m = new_test_ext();
    assert_eq!(m.init_unique_name_account(Origin::signed(1)), Ok(()));
}

#[test]
fn create_metalog_works() {
    let mut m = new_test_ext();
    let did_new = vec![1, 2];
    let did_claimed = vec![1, 2, 3];
    let mut did_too_long = did_new.clone();
    let mut location_too_long = did_new.clone();
    for _i in 1..100 {
        did_too_long.push(2);
        location_too_long.push(2);
    }
    {
        let (d, l) = (did_new.clone(), did_new.clone());
        assert_noop(
            &mut m,
            |m| m.create_metalog(Origin::signed(20), d, DELETE_LICENSE, l, 0),
            "Invalid license code",
        );
    }
    {
        let (d, l) = (did_claimed.clone(), did_new.clone());
        assert_noop(
            &mut m,
            |m| m.create_metalog(Origin::signed(20), d, 0, l, 0),
            "This DID has already been claimed.",
        );
    }
    {
        let (d, l) = (did_too_long.clone(), did_new.clone());
        assert_noop(
            &mut m,
            |m| m.create_metalog(Origin::signed(20), d, 0, l, 0),
            "DID bytearray is too large",
        );
    }
    {
        let (d, l) = (did_new.clone(), location_too_long.clone());
        assert_noop(
            &mut m,
            |m| m.create_metalog(Origin::signed(20), d, 0, l, 0),
            "Location bytearray is too large",
        );
    }
    assert!(m.create_metalog(Origin::signed(20), did_new.clone(), 0, did_new.clone(), 0).is_ok());
    assert_eq!(m.owner_of_did(&did_new), Some(20));
}

#[test]
fn transfer_ownership_works() {
    let did_claimed = vec![1, 2, 3];
    let did_new = vec![1, 2, 3, 4];
    let mut m = new_test_ext();
    {
        let d = did_new.clone();
        assert_noop(
            &mut m,
            |m| m.transfer_ownership(Origin::signed(0), 2, d),
            "This DID does not exist",
        );
    }
    {
        let d = did_claimed.clone();
        assert_noop(&mut m, |m| m.transfer_ownership(Origin::signed(1), 2, d), "You are not the owner");
    }
    assert!(m.transfer_ownership(Origin::signed(0), 20, did_claimed.clone()).is_ok());
    assert_eq!(m.owner_of_did(&did_claimed), Some(20));
}

#[test]
fn buy_unique_name_works() {
    let did_claimed = vec![1, 2, 3];
    let did_new = vec![1, 2, 3, 4];
    let un = vec![1];
    let mut un_too_long = un.clone();
    for _i in 1..60 {
        un_too_long.push(2);
    }
    let mut m = new_test_ext();
    let mut balance_of_0: u64 = 0;
    {
        let (d, n) = (did_new.clone(), un.clone());
        assert_noop(
            &mut m,
            |m| buy(m, balance_of_0, Origin::signed(0), d, n),
            "This DID does not exist",
        );
    }
    {
        let (d, n) = (did_claimed.clone(), un.clone());
        assert_noop(&mut m, |m| buy(m, 0, Origin::signed(1), d, n), "You are not the owner");
    }
    {
        let (d, n) = (did_claimed.clone(), un.clone());
        assert_noop(
            &mut m,
            |m| buy(m, balance_of_0, Origin::signed(0), d, n),
            "balance too low to send value",
        );
    }
    balance_of_0 = 5000;
    {
        let (d, n) = (did_claimed.clone(), un_too_long.clone());
        assert_noop(
            &mut m,
            |m| buy(m, balance_of_0, Origin::signed(0), d, n),
            "Name bytearray is too large",
        );
    }
    assert!(buy(&mut m, balance_of_0, Origin::signed(0), did_claimed.clone(), un.clone()).is_ok());
    let metadata = m.meta_of_did(&did_claimed);
    assert_eq!(metadata.unique_name, un.clone());
}

#[test]
fn change_license_code_works() {
    let did_claimed = vec![1, 2, 3];
    let did_new = vec![1, 2, 3, 4];
    let mut m = new_test_ext();
    {
        let d = did_new.clone();
        assert_noop(
            &mut m,
            |m| m.change_license_code(Origin::signed(0), d, 1),
            "This DID does not exist",
        );
    }
    {
        let d = did_claimed.clone();
        assert_noop(&mut m, |m| m.change_license_code(Origin::signed(1), d, 1), "You are not the owner");
    }
    assert!(m.change_license_code(Origin::signed(0), did_claimed.clone(), 4).is_ok());
    let metadata = m.meta_of_did(&did_claimed);
    assert_eq!(metadata.license_code, 4);
}

#[test]
fn change_storage_location_works() {
    let did_claimed = vec![1, 2, 3];
    let did_new = vec![1, 2, 3, 4];
    let location = vec![0, 1];
    let mut location_too_long = location.clone();
    for _i in 1..100 {
        location_too_long.push(1);
    }
    let mut m = new_test_ext();
    {
        let (d, l) = (did_new.clone(), location.clone());
        assert_noop(
            &mut m,
            |m| m.change_storage_location(Origin::signed(0), d, l),
            "This DID does not exist",
        );
    }
    {
        let (d, l) = (did_claimed.clone(), location.clone());
        assert_noop(
            &mut m,
            |m| m.change_storage_location(Origin::signed(1), d, l),
            "You are not the owner",
        );
    }
    {
        let (d, l) = (did_claimed.clone(), location_too_long.clone());
        assert_noop(
            &mut m,
            |m| m.change_storage_location(Origin::signed(0), d, l),
            "Location bytearray is too large",
        );
    }
    assert!(m.change_storage_location(Origin::signed(0), did_claimed.clone(), location.clone()).is_ok());
    let metadata = m.meta_of_did(&did_claimed);
    assert_eq!(metadata.storage_location, location.clone());
}
