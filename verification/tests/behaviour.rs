use metalog::module::{GenesisConfig, Module};
use metalog::types::{
    ensure_signed, Event, Metalog, MetalogError, Origin, Payment, DELETE_LICENSE, NAME_PRICE,
};

fn genesis_with(entries: Vec<(u64, u16)>, now: u64) -> Module {
    Module::from_genesis(&GenesisConfig { metalog: entries }, now)
}

fn genesis() -> Module {
    genesis_with(vec![(0, 0)], 0)
}

fn claimed() -> Vec<u8> {
    vec![1, 2, 3]
}

fn genesis_metalog(license_code: u16, time: u64) -> Metalog {
    Metalog {
        did: vec![1, 2, 3],
        unique_name: vec![0],
        license_code,
        storage_location: vec![1, 2, 3],
        time,
    }
}

/// Asks for the name payment, treats it as made, and completes the purchase.
fn buy_paid(m: &mut Module, origin: Origin, did: Vec<u8>, name: Vec<u8>) -> Result<Event, MetalogError> {
    m.unique_name_payment(origin, &did, &name)?;
    m.buy_unique_name(origin, did, name, Ok(()))
}

#[test]
fn empty_storage_reads_defaults() {
    let m = Module::new();
    assert_eq!(m.owner_of_did(&claimed()), None);
    assert_eq!(m.meta_of_did(&claimed()), Metalog::default());
    assert_eq!(m.owner_meta_count(0), 0);
    assert_eq!(m.owned_meta_index(&claimed()), 0);
    assert_eq!(m.metadata_of_owner_by_index((0, 0)), Metalog::default());
    assert_eq!(m.meta_of_un(&vec![1]), Metalog::default());
    assert_eq!(m.owner_of_un(&vec![1]), None);
    assert_eq!(m.unique_name_account(), 0);
}

#[test]
fn genesis_stores_a_metalog_per_entry() {
    let m = genesis_with(vec![(0, 0)], 7);
    assert_eq!(m.owner_of_did(&claimed()), Some(0));
    assert_eq!(m.meta_of_did(&claimed()), genesis_metalog(0, 7));
    assert_eq!(m.owner_meta_count(0), 1);
    assert_eq!(m.owned_meta_index(&claimed()), 1);
    assert_eq!(m.metadata_of_owner_by_index((0, 0)), genesis_metalog(0, 7));
}

#[test]
fn genesis_passes_over_a_claimed_did() {
    let m = genesis_with(vec![(0, 0), (5, 3)], 0);
    assert_eq!(m.owner_of_did(&claimed()), Some(0));
    assert_eq!(m.meta_of_did(&claimed()), genesis_metalog(0, 0));
    assert_eq!(m.owner_meta_count(0), 1);
    assert_eq!(m.owner_meta_count(5), 0);
    assert_eq!(m.metadata_of_owner_by_index((0, 0)), genesis_metalog(0, 0));
    assert_eq!(m.metadata_of_owner_by_index((5, 0)), Metalog::default());
}

#[test]
fn unsigned_calls_are_refused() {
    let mut m = genesis();
    let before = m.duplicate();
    for origin in [Origin::Root, Origin::Unsigned] {
        assert_eq!(ensure_signed(origin), Err(MetalogError::BadOrigin));
        assert_eq!(m.init_unique_name_account(origin), Err(MetalogError::BadOrigin));
        assert_eq!(m.create_metalog(origin, vec![9], 0, vec![9], 0), Err(MetalogError::BadOrigin));
        assert_eq!(m.transfer_ownership(origin, 1, claimed()), Err(MetalogError::BadOrigin));
        assert_eq!(m.unique_name_payment(origin, &claimed(), &vec![1]), Err(MetalogError::BadOrigin));
        assert_eq!(m.buy_unique_name(origin, claimed(), vec![1], Ok(())), Err(MetalogError::BadOrigin));
        assert_eq!(m.change_license_code(origin, claimed(), 2), Err(MetalogError::BadOrigin));
        assert_eq!(m.change_storage_location(origin, claimed(), vec![4]), Err(MetalogError::BadOrigin));
    }
    assert!(m.same_storage(&before));
    assert_eq!(ensure_signed(Origin::signed(4)), Ok(4));
}

#[test]
fn unique_name_account_claimed_once() {
    let mut m = genesis();
    assert_eq!(m.unique_name_account(), 0);
    assert_eq!(m.init_unique_name_account(Origin::signed(1)), Ok(()));
    assert_eq!(m.unique_name_account(), 1);
    assert_eq!(m.init_unique_name_account(Origin::signed(2)), Err(MetalogError::OpenNameAccountClaimed));
    assert_eq!(m.unique_name_account(), 1);
    assert_eq!(
        m.unique_name_payment(Origin::signed(0), &claimed(), &vec![1]),
        Ok(Payment { from: 0, to: 1, amount: NAME_PRICE })
    );
}

#[test]
fn name_payment_goes_to_account_zero_before_a_claim() {
    let m = genesis();
    assert_eq!(
        m.unique_name_payment(Origin::signed(0), &claimed(), &vec![1]),
        Ok(Payment { from: 0, to: 0, amount: 1000 })
    );
}

#[test]
fn create_metalog_records_the_new_metalog() {
    let mut m = genesis();
    let r = m.create_metalog(Origin::signed(20), vec![4, 4], 7, vec![8], 42);
    assert_eq!(r, Ok(Event::Stored(20, 42, vec![4, 4])));
    let expected = Metalog {
        did: vec![4, 4],
        unique_name: vec![0],
        license_code: 7,
        storage_location: vec![8],
        time: 42,
    };
    assert_eq!(m.owner_of_did(&vec![4, 4]), Some(20));
    assert_eq!(m.meta_of_did(&vec![4, 4]), expected);
    assert_eq!(m.owner_meta_count(20), 1);
    assert_eq!(m.owned_meta_index(&vec![4, 4]), 1);
    assert_eq!(m.metadata_of_owner_by_index((20, 0)), expected);
    let r = m.create_metalog(Origin::signed(20), vec![5], 0, vec![], 43);
    assert_eq!(r, Ok(Event::Stored(20, 43, vec![5])));
    assert_eq!(m.owner_meta_count(20), 2);
    assert_eq!(m.owned_meta_index(&vec![5]), 2);
}

#[test]
fn create_metalog_accepts_the_length_limits() {
    let mut m = genesis();
    let did = vec![3u8; 100];
    let location = vec![4u8; 100];
    assert!(m.create_metalog(Origin::signed(2), did.clone(), 0, location, 0).is_ok());
    assert_eq!(m.owner_of_did(&did), Some(2));
    assert_eq!(
        m.create_metalog(Origin::signed(2), vec![3u8; 101], 0, vec![], 0),
        Err(MetalogError::BytearrayLimitDid)
    );
    assert_eq!(
        m.create_metalog(Origin::signed(2), vec![6], 0, vec![1u8; 101], 0),
        Err(MetalogError::BytearrayLimitLocation)
    );
}

#[test]
fn did_claimed_once() {
    let mut m = genesis();
    assert!(m.create_metalog(Origin::signed(20), vec![9], 0, vec![9], 0).is_ok());
    let before = m.duplicate();
    assert_eq!(m.create_metalog(Origin::signed(21), vec![9], 2, vec![1], 1), Err(MetalogError::DidAlreadyClaimed));
    assert_eq!(m.create_metalog(Origin::signed(20), vec![9], 2, vec![1], 1), Err(MetalogError::DidAlreadyClaimed));
    assert!(m.same_storage(&before));
    assert_eq!(m.owner_of_did(&vec![9]), Some(20));
}

#[test]
fn delete_license_refused_at_creation() {
    let mut m = Module::new();
    assert_eq!(
        m.create_metalog(Origin::signed(3), vec![1], DELETE_LICENSE, vec![1], 0),
        Err(MetalogError::LicenseInvalid)
    );
    assert_eq!(m.owner_of_did(&vec![1]), None);
}

#[test]
fn license_change_may_set_the_delete_code() {
    let mut m = genesis();
    assert_eq!(
        m.change_license_code(Origin::signed(0), claimed(), DELETE_LICENSE),
        Ok(Event::LicenseUpdated(0, claimed(), 1))
    );
    assert_eq!(m.meta_of_did(&claimed()).license_code, 1);
    assert_eq!(m.metadata_of_owner_by_index((0, 0)).license_code, 1);
}

#[test]
fn only_owner_acts() {
    let mut m = genesis();
    let before = m.duplicate();
    assert_eq!(m.transfer_ownership(Origin::signed(3), 4, claimed()), Err(MetalogError::NotOwner));
    assert_eq!(buy_paid(&mut m, Origin::signed(3), claimed(), vec![1]), Err(MetalogError::NotOwner));
    assert_eq!(m.buy_unique_name(Origin::signed(3), claimed(), vec![1], Ok(())), Err(MetalogError::NotOwner));
    assert_eq!(m.change_license_code(Origin::signed(3), claimed(), 2), Err(MetalogError::NotOwner));
    assert_eq!(m.change_storage_location(Origin::signed(3), claimed(), vec![2]), Err(MetalogError::NotOwner));
    assert!(m.same_storage(&before));
}

#[test]
fn location_length_is_checked_before_ownership() {
    let mut m = genesis();
    assert_eq!(
        m.change_storage_location(Origin::signed(3), vec![7], vec![1u8; 101]),
        Err(MetalogError::BytearrayLimitLocation)
    );
    assert_eq!(
        m.change_storage_location(Origin::signed(3), vec![7], vec![1u8; 100]),
        Err(MetalogError::DidNotExist)
    );
}

#[test]
fn missing_did_is_refused() {
    let mut m = genesis();
    let did = vec![7, 7];
    assert_eq!(m.transfer_ownership(Origin::signed(0), 4, did.clone()), Err(MetalogError::DidNotExist));
    assert_eq!(buy_paid(&mut m, Origin::signed(0), did.clone(), vec![1]), Err(MetalogError::DidNotExist));
    assert_eq!(m.change_license_code(Origin::signed(0), did.clone(), 2), Err(MetalogError::DidNotExist));
    assert_eq!(m.change_storage_location(Origin::signed(0), did, vec![2]), Err(MetalogError::DidNotExist));
}

#[test]
fn transfer_moves_the_did_metalog_to_the_receiver() {
    let mut m = genesis();
    assert_eq!(
        m.transfer_ownership(Origin::signed(0), 20, claimed()),
        Ok(Event::TransferOwnership(0, 20, claimed()))
    );
    assert_eq!(m.owner_of_did(&claimed()), Some(20));
    assert_eq!(m.meta_of_did(&claimed()), genesis_metalog(0, 0));
    assert_eq!(m.owner_meta_count(0), 0);
    assert_eq!(m.owner_meta_count(20), 1);
    assert_eq!(m.metadata_of_owner_by_index((20, 0)), genesis_metalog(0, 0));
    assert_eq!(m.metadata_of_owner_by_index((0, 0)), Metalog::default());
    assert_eq!(m.owned_meta_index(&claimed()), 1);
    // the new owner can change the metalog and hand it on
    assert!(m.change_license_code(Origin::signed(20), claimed(), 6).is_ok());
    assert_eq!(m.metadata_of_owner_by_index((20, 0)).license_code, 6);
    assert!(m.transfer_ownership(Origin::signed(20), 21, claimed()).is_ok());
    assert_eq!(m.owner_of_did(&claimed()), Some(21));
    assert_eq!(m.owner_meta_count(20), 0);
    assert_eq!(m.owner_meta_count(21), 1);
    assert_eq!(m.metadata_of_owner_by_index((21, 0)).license_code, 6);
}

#[test]
fn transfer_fills_the_freed_slot_with_the_last_metalog() {
    let mut m = genesis();
    assert!(m.create_metalog(Origin::signed(0), vec![9], 0, vec![9], 0).is_ok());
    assert_eq!(m.owned_meta_index(&vec![9]), 2);
    assert!(m.transfer_ownership(Origin::signed(0), 5, claimed()).is_ok());
    assert_eq!(m.owner_of_did(&claimed()), Some(5));
    assert_eq!(m.metadata_of_owner_by_index((5, 0)).did, claimed());
    assert_eq!(m.metadata_of_owner_by_index((0, 0)).did, vec![9]);
    assert_eq!(m.metadata_of_owner_by_index((0, 1)), Metalog::default());
    assert_eq!(m.owner_meta_count(0), 1);
    assert_eq!(m.owner_meta_count(5), 1);
    assert_eq!(m.owned_meta_index(&claimed()), 1);
    assert_eq!(m.owned_meta_index(&vec![9]), 1);
    // both owners can still act on their DIDs
    assert!(m.change_storage_location(Origin::signed(0), vec![9], vec![1]).is_ok());
    assert_eq!(m.metadata_of_owner_by_index((0, 0)).storage_location, vec![1]);
    assert!(m.change_license_code(Origin::signed(5), claimed(), 3).is_ok());
    assert_eq!(m.metadata_of_owner_by_index((5, 0)).license_code, 3);
}

#[test]
fn transfer_there_and_back() {
    let mut m = genesis();
    assert!(m.create_metalog(Origin::signed(0), vec![9], 0, vec![9], 0).is_ok());
    assert!(m.transfer_ownership(Origin::signed(0), 20, claimed()).is_ok());
    assert!(m.transfer_ownership(Origin::signed(20), 0, claimed()).is_ok());
    assert_eq!(m.owner_of_did(&claimed()), Some(0));
    assert_eq!(m.owner_meta_count(0), 2);
    assert_eq!(m.owner_meta_count(20), 0);
    assert_eq!(m.metadata_of_owner_by_index((0, 0)).did, vec![9]);
    assert_eq!(m.metadata_of_owner_by_index((0, 1)).did, claimed());
    assert_eq!(m.owned_meta_index(&vec![9]), 1);
    assert_eq!(m.owned_meta_index(&claimed()), 2);
}

#[test]
fn transfer_to_oneself_changes_nothing() {
    let mut m = genesis();
    let before = m.duplicate();
    assert_eq!(
        m.transfer_ownership(Origin::signed(0), 0, claimed()),
        Ok(Event::TransferOwnership(0, 0, claimed()))
    );
    assert!(m.same_storage(&before));
    assert_eq!(m.owner_meta_count(0), 1);
}

#[test]
fn buy_unique_name_sets_the_name() {
    let mut m = genesis();
    let r = buy_paid(&mut m, Origin::signed(0), claimed(), vec![1]);
    assert_eq!(r, Ok(Event::NameUpdated(0, claimed(), vec![1])));
    let mut named = genesis_metalog(0, 0);
    named.unique_name = vec![1];
    assert_eq!(m.meta_of_did(&claimed()), named);
    assert_eq!(m.meta_of_un(&vec![1]), named);
    assert_eq!(m.owner_of_un(&vec![1]), Some(0));
    assert_eq!(m.metadata_of_owner_by_index((0, 0)), named);
    assert_eq!(m.owner_of_did(&claimed()), Some(0));
}

#[test]
fn unique_name_sold_once() {
    let mut m = genesis();
    assert!(m.create_metalog(Origin::signed(0), vec![5], 0, vec![5], 0).is_ok());
    assert!(m.create_metalog(Origin::signed(6), vec![6], 0, vec![6], 0).is_ok());
    assert!(buy_paid(&mut m, Origin::signed(0), claimed(), vec![1]).is_ok());
    let before = m.duplicate();
    assert_eq!(buy_paid(&mut m, Origin::signed(0), vec![5], vec![1]), Err(MetalogError::UnAlreadyClaimed));
    assert_eq!(buy_paid(&mut m, Origin::signed(6), vec![6], vec![1]), Err(MetalogError::UnAlreadyClaimed));
    assert_eq!(m.buy_unique_name(Origin::signed(0), claimed(), vec![1], Ok(())), Err(MetalogError::UnAlreadyClaimed));
    assert!(m.same_storage(&before));
    assert_eq!(m.owner_of_un(&vec![1]), Some(0));
}

#[test]
fn name_length_limit() {
    let mut m = genesis();
    assert_eq!(
        m.unique_name_payment(Origin::signed(0), &claimed(), &vec![2u8; 51]),
        Err(MetalogError::BytearrayLimitName)
    );
    assert!(buy_paid(&mut m, Origin::signed(0), claimed(), vec![2u8; 50]).is_ok());
    assert_eq!(m.owner_of_un(&vec![2u8; 50]), Some(0));
}

#[test]
fn failed_payment_refuses_the_purchase() {
    let mut m = genesis();
    let before = m.duplicate();
    let r = m.buy_unique_name(Origin::signed(0), claimed(), vec![1], Err("insufficient funds"));
    assert_eq!(r, Err(MetalogError::Payment("insufficient funds")));
    assert_eq!(r.unwrap_err().as_str(), "insufficient funds");
    assert!(m.same_storage(&before));
}

#[test]
fn transfer_of_a_named_metalog_passes_the_name_on() {
    let mut m = genesis();
    assert!(buy_paid(&mut m, Origin::signed(0), claimed(), vec![1]).is_ok());
    assert!(m.transfer_ownership(Origin::signed(0), 20, claimed()).is_ok());
    assert_eq!(m.owner_of_did(&claimed()), Some(20));
    assert_eq!(m.owner_of_un(&vec![1]), Some(20));
    assert_eq!(m.owner_of_un(&claimed()), None);
    assert_eq!(m.meta_of_did(&claimed()).unique_name, vec![1]);
}

#[test]
fn change_storage_location_sets_only_the_location() {
    let mut m = genesis();
    assert_eq!(
        m.change_storage_location(Origin::signed(0), claimed(), vec![0, 1]),
        Ok(Event::LocationUpdated(0, claimed(), vec![0, 1]))
    );
    let mut moved = genesis_metalog(0, 0);
    moved.storage_location = vec![0, 1];
    assert_eq!(m.meta_of_did(&claimed()), moved);
    assert_eq!(m.metadata_of_owner_by_index((0, 0)), moved);
    assert_eq!(m.owner_of_did(&claimed()), Some(0));
}

#[test]
fn error_texts() {
    let cases = [
        (MetalogError::BadOrigin, "bad origin: expected to be a signed origin"),
        (MetalogError::DidAlreadyClaimed, "This DID has already been claimed."),
        (MetalogError::DidNotExist, "This DID does not exist"),
        (MetalogError::DidNoOwner, "No one owens this did"),
        (MetalogError::UnAlreadyClaimed, "This unique name has already been claimed."),
        (MetalogError::LicenseInvalid, "Invalid license code"),
        (MetalogError::Overflow, "Overflow adding new metadata"),
        (MetalogError::Underflow, "Underflow removing metadata"),
        (MetalogError::NotOwner, "You are not the owner"),
        (MetalogError::OpenNameAccountClaimed, "Unique name account already claimed"),
        (MetalogError::BytearrayLimitDid, "DID bytearray is too large"),
        (MetalogError::BytearrayLimitLocation, "Location bytearray is too large"),
        (MetalogError::BytearrayLimitName, "Name bytearray is too large"),
        (MetalogError::Payment("balance too low to send value"), "balance too low to send value"),
    ];
    for (e, text) in cases {
        assert_eq!(e.as_str(), text);
    }
}

#[test]
fn duplicate_and_compare_storage() {
    let mut m = genesis();
    let copy = m.duplicate();
    assert!(m.same_storage(&copy));
    assert!(m.create_metalog(Origin::signed(1), vec![8], 0, vec![8], 0).is_ok());
    assert!(!m.same_storage(&copy));
    assert!(!copy.same_storage(&m));
    assert_eq!(copy.owner_of_did(&vec![8]), None);
    let other = genesis();
    assert!(copy.same_storage(&other));
    assert!(!genesis_with(vec![(0, 2)], 0).same_storage(&other));
}
