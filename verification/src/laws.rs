//! What holds of the metalog module across its calls.
use vstd::prelude::*;
use crate::consistency::{owned_did_is_placed, transfer_keeps_consistency};
use crate::spec::Storage;
use crate::types::{account_of, no_name, MetalogError, MetalogView, Origin, DELETE_LICENSE};

verus! {

/// A call that is not signed is refused with `BadOrigin` and changes nothing.
pub proof fn unsigned_calls_are_refused(
    s: Storage,
    origin: Origin,
    receiver: u64,
    did: Seq<u8>,
    bytes: Seq<u8>,
    license_code: u16,
    now: u64,
    paid: Result<(), &'static str>,
)
    requires
        !(origin is Signed),
    ensures
        s.init_unique_name_account_outcome(origin) == Err::<Storage, MetalogError>(
            MetalogError::BadOrigin,
        ),
        s.create_metalog_outcome(origin, did, license_code, bytes, now) == Err::<
            Storage,
            MetalogError,
        >(MetalogError::BadOrigin),
        s.transfer_ownership_outcome(origin, receiver, did) == Err::<Storage, MetalogError>(
            MetalogError::BadOrigin,
        ),
        s.buy_unique_name_outcome(origin, did, bytes, paid) == Err::<Storage, MetalogError>(
            MetalogError::BadOrigin,
        ),
        s.change_license_code_outcome(origin, did, license_code) == Err::<Storage, MetalogError>(
            MetalogError::BadOrigin,
        ),
        s.change_storage_location_outcome(origin, did, bytes) == Err::<Storage, MetalogError>(
            MetalogError::BadOrigin,
        ),
{
}

/// A created metalog belongs to its creator: the DID is owned by the signer,
/// no other DID changes hands, its metalog is the new one (with no unique
/// name), and it is appended to the signer's list, whose length grows by one.
pub proof fn create_metalog_gives_ownership(
    s: Storage,
    origin: Origin,
    did: Seq<u8>,
    license_code: u16,
    storage_location: Seq<u8>,
    now: u64,
)
    requires
        s.create_metalog_outcome(origin, did, license_code, storage_location, now) is Ok,
    ensures
        ({
            let t = s.create_metalog_outcome(origin, did, license_code, storage_location, now)->Ok_0;
            let who = account_of(origin);
            let m = Storage::new_metalog(did, license_code, storage_location, now);
            &&& t.owner_of(did) == Some(who)
            &&& forall|d: Seq<u8>| d != did ==> #[trigger] t.owner_of(d) == s.owner_of(d)
            &&& t.did_metalog(did) == m
            &&& t.did_metalog(did).unique_name == no_name()
            &&& t.count_of(who) == s.count_of(who) + 1
            &&& t.slot(who, s.count_of(who)) == m
            &&& t.index_of(did) == s.count_of(who) + 1
        }),
{
}

/// A DID is claimed once: once a metalog for it exists, creating another for
/// it is refused with `DidAlreadyClaimed`, whoever signs.
pub proof fn did_claimed_once(
    s: Storage,
    first: Origin,
    second: Origin,
    did: Seq<u8>,
    license_code: u16,
    storage_location: Seq<u8>,
    now: u64,
    other_code: u16,
    other_location: Seq<u8>,
    later: u64,
)
    requires
        s.create_metalog_outcome(first, did, license_code, storage_location, now) is Ok,
        second is Signed,
        other_location.len() <= crate::types::BYTEARRAY_LIMIT_LOCATION,
    ensures
        s.create_metalog_outcome(first, did, license_code, storage_location, now)->Ok_0.create_metalog_outcome(
            second,
            did,
            other_code,
            other_location,
            later,
        ) == Err::<Storage, MetalogError>(MetalogError::DidAlreadyClaimed),
{
}

/// No metalog is created with the delete license code.
pub proof fn delete_license_refused_at_creation(
    s: Storage,
    origin: Origin,
    did: Seq<u8>,
    storage_location: Seq<u8>,
    now: u64,
)
    ensures
        s.create_metalog_outcome(origin, did, DELETE_LICENSE, storage_location, now) is Err,
{
}

/// Only the owner acts on a DID: a signer that is not its owner is refused
/// with `NotOwner` by a transfer, a unique name purchase, a license change,
/// and a location change to a location of allowed length.
pub proof fn only_owner_acts(
    s: Storage,
    who: u64,
    receiver: u64,
    did: Seq<u8>,
    name: Seq<u8>,
    license_code: u16,
    storage_location: Seq<u8>,
    paid: Result<(), &'static str>,
)
    requires
        s.did_meta.dom().contains(did),
        s.did_owner.dom().contains(did),
        s.did_owner[did] != who,
        storage_location.len() <= crate::types::BYTEARRAY_LIMIT_LOCATION,
    ensures
        s.transfer_ownership_outcome(Origin::Signed(who), receiver, did) == Err::<
            Storage,
            MetalogError,
        >(MetalogError::NotOwner),
        s.buy_unique_name_outcome(Origin::Signed(who), did, name, paid) == Err::<
            Storage,
            MetalogError,
        >(MetalogError::NotOwner),
        s.change_license_code_outcome(Origin::Signed(who), did, license_code) == Err::<
            Storage,
            MetalogError,
        >(MetalogError::NotOwner),
        s.change_storage_location_outcome(Origin::Signed(who), did, storage_location) == Err::<
            Storage,
            MetalogError,
        >(MetalogError::NotOwner),
{
}

/// A DID without a metalog cannot be acted on: every call on it that checks
/// ownership is refused with `DidNotExist`.
pub proof fn missing_did_is_refused(
    s: Storage,
    who: u64,
    receiver: u64,
    did: Seq<u8>,
    name: Seq<u8>,
    license_code: u16,
    storage_location: Seq<u8>,
    paid: Result<(), &'static str>,
)
    requires
        !s.did_meta.dom().contains(did),
        storage_location.len() <= crate::types::BYTEARRAY_LIMIT_LOCATION,
    ensures
        s.transfer_ownership_outcome(Origin::Signed(who), receiver, did) == Err::<
            Storage,
            MetalogError,
        >(MetalogError::DidNotExist),
        s.buy_unique_name_outcome(Origin::Signed(who), did, name, paid) == Err::<
            Storage,
            MetalogError,
        >(MetalogError::DidNotExist),
        s.change_license_code_outcome(Origin::Signed(who), did, license_code) == Err::<
            Storage,
            MetalogError,
        >(MetalogError::DidNotExist),
        s.change_storage_location_outcome(Origin::Signed(who), did, storage_location) == Err::<
            Storage,
            MetalogError,
        >(MetalogError::DidNotExist),
{
}

/// A transfer to another account hands the DID to the receiver: its
/// metalog, unchanged, goes to the end of the receiver's list with the
/// matching position; the sender's last metalog fills the slot the DID
/// leaves and keeps that position; the sender's list shrinks by one and the
/// receiver's grows by one; the metalog's unique name, if it has one, passes
/// to the receiver; no other DID changes hands, and the storage stays
/// consistent.
pub proof fn transfer_ownership_moves_metalog(s: Storage, who: u64, receiver: u64, did: Seq<u8>)
    requires
        s.consistent(),
        who != receiver,
        s.transfer_ownership_outcome(Origin::Signed(who), receiver, did) is Ok,
    ensures
        ({
            let t = s.transfer_ownership_outcome(Origin::Signed(who), receiver, did)->Ok_0;
            let m = s.did_metalog(did);
            let rc = s.count_of(receiver);
            let sc = s.count_of(who);
            let position = s.index_of(did);
            let last = s.slot(who, (sc - 1) as u64);
            &&& t.owner_of(did) == Some(receiver)
            &&& forall|d: Seq<u8>| d != did ==> #[trigger] t.owner_of(d) == s.owner_of(d)
            &&& t.did_meta == s.did_meta
            &&& t.slot(receiver, rc) == m
            &&& t.index_of(did) == rc + 1
            &&& forall|i: u64| i < rc ==> #[trigger] t.slot(receiver, i) == s.slot(receiver, i)
            &&& t.count_of(who) == sc - 1
            &&& t.count_of(receiver) == rc + 1
            &&& position != sc ==> t.slot(who, (position - 1) as u64) == last && t.index_of(
                last.did,
            ) == position
            &&& m.unique_name != no_name() ==> t.un_owner.dom().contains(m.unique_name)
                && t.un_owner[m.unique_name] == receiver
            &&& t.un_meta == s.un_meta
            &&& t.name_account == s.name_account
            &&& t.consistent()
        }),
{
    let t = s.transfer_ownership_outcome(Origin::Signed(who), receiver, did)->Ok_0;
    owned_did_is_placed(s, who, did);
    let sc = s.count_of(who);
    assert(s.listed(who, (sc - 1) as u64));
    transfer_keeps_consistency(s, who, receiver, did);
    let position = s.index_of(did);
    let last = s.slot(who, (sc - 1) as u64);
    if position != sc {
        assert(last.did != did);
    }
}

/// A transfer to oneself changes nothing, unless the owner's list is full,
/// when it is refused with `Overflow`.
pub proof fn transfer_to_oneself_changes_nothing(s: Storage, who: u64, did: Seq<u8>)
    requires
        s.consistent(),
        s.ownership(who, did) is Ok,
        s.count_of(who) < u64::MAX,
    ensures
        s.transfer_ownership_outcome(Origin::Signed(who), who, did) == Ok::<Storage, MetalogError>(
            s,
        ),
{
    owned_did_is_placed(s, who, did);
}

/// A transfer to oneself when one's list is full is refused with `Overflow`.
pub proof fn transfer_to_oneself_with_full_list_overflows(s: Storage, who: u64, did: Seq<u8>)
    requires
        s.ownership(who, did) is Ok,
        s.count_of(who) == u64::MAX,
    ensures
        s.transfer_ownership_outcome(Origin::Signed(who), who, did) == Err::<Storage, MetalogError>(
            MetalogError::Overflow,
        ),
{
}

/// Handing a DID to another account and back succeeds and restores who owns
/// what, the DIDs' metalogs, and both accounts' counts; the storage stays
/// consistent, so each account's list again lists exactly the DIDs it owns.
pub proof fn transfer_there_and_back(s: Storage, a: u64, b: u64, did: Seq<u8>)
    requires
        s.consistent(),
        a != b,
        s.transfer_ownership_outcome(Origin::Signed(a), b, did) is Ok,
    ensures
        ({
            let t = s.transfer_ownership_outcome(Origin::Signed(a), b, did)->Ok_0;
            &&& t.transfer_ownership_outcome(Origin::Signed(b), a, did) is Ok
            &&& ({
                let u = t.transfer_ownership_outcome(Origin::Signed(b), a, did)->Ok_0;
                &&& u.did_owner == s.did_owner
                &&& u.did_meta == s.did_meta
                &&& u.count_of(a) == s.count_of(a)
                &&& u.count_of(b) == s.count_of(b)
                &&& u.consistent()
            })
        }),
{
    let t = s.transfer_ownership_outcome(Origin::Signed(a), b, did)->Ok_0;
    transfer_ownership_moves_metalog(s, a, b, did);
    assert(t.did_meta.dom().contains(did));
    assert(t.ownership(b, did) is Ok);
    transfer_ownership_moves_metalog(t, b, a, did);
    let u = t.transfer_ownership_outcome(Origin::Signed(b), a, did)->Ok_0;
    assert(s.did_owner.dom().contains(did));
    assert(u.did_owner =~= s.did_owner);
}

/// After a purchase the DID's metalog carries the bought name, the signer
/// holds the name, and the name leads to the DID's metalog; nothing else of
/// the metalog changes.
pub proof fn buy_unique_name_sets_name(
    s: Storage,
    origin: Origin,
    did: Seq<u8>,
    name: Seq<u8>,
    paid: Result<(), &'static str>,
)
    requires
        s.buy_unique_name_outcome(origin, did, name, paid) is Ok,
    ensures
        ({
            let t = s.buy_unique_name_outcome(origin, did, name, paid)->Ok_0;
            &&& t.did_metalog(did) == MetalogView { unique_name: name, ..s.did_metalog(did) }
            &&& t.un_owner.dom().contains(name)
            &&& t.un_owner[name] == account_of(origin)
            &&& t.name_metalog(name) == t.did_metalog(did)
            &&& t.owner_of(did) == s.owner_of(did)
        }),
{
}

/// A unique name is sold once: after a purchase, every later purchase of the
/// same name is refused, for any DID, whoever signs; the refusal is
/// `UnAlreadyClaimed` once the signer owns that DID.
pub proof fn unique_name_sold_once(
    s: Storage,
    origin: Origin,
    did: Seq<u8>,
    name: Seq<u8>,
    paid: Result<(), &'static str>,
    buyer: Origin,
    other_did: Seq<u8>,
    other_paid: Result<(), &'static str>,
)
    requires
        s.buy_unique_name_outcome(origin, did, name, paid) is Ok,
    ensures
        ({
            let t = s.buy_unique_name_outcome(origin, did, name, paid)->Ok_0;
            &&& t.buy_unique_name_outcome(buyer, other_did, name, other_paid) is Err
            &&& t.owner_check(buyer, other_did) is Ok ==> t.buy_unique_name_outcome(
                buyer,
                other_did,
                name,
                other_paid,
            ) == Err::<Storage, MetalogError>(MetalogError::UnAlreadyClaimed)
        }),
{
}

/// A refused payment refuses the purchase with the payment's reason, once
/// the checks before it pass.
pub proof fn failed_payment_refuses_purchase(
    s: Storage,
    origin: Origin,
    did: Seq<u8>,
    name: Seq<u8>,
    reason: &'static str,
)
    requires
        s.name_purchase_check(origin, did, name) is Ok,
    ensures
        s.buy_unique_name_outcome(origin, did, name, Err(reason)) == Err::<Storage, MetalogError>(
            MetalogError::Payment(reason),
        ),
{
}

/// A license change sets the DID's license code and nothing else of its
/// metalog, nor its owner.
pub proof fn change_license_code_sets_code(
    s: Storage,
    origin: Origin,
    did: Seq<u8>,
    license_code: u16,
)
    requires
        s.change_license_code_outcome(origin, did, license_code) is Ok,
    ensures
        ({
            let t = s.change_license_code_outcome(origin, did, license_code)->Ok_0;
            &&& t.did_metalog(did) == MetalogView { license_code, ..s.did_metalog(did) }
            &&& t.owner_of(did) == s.owner_of(did)
            &&& t.un_owner == s.un_owner
        }),
{
}

/// A location change sets the DID's storage location and nothing else of
/// its metalog, nor its owner.
pub proof fn change_storage_location_sets_location(
    s: Storage,
    origin: Origin,
    did: Seq<u8>,
    storage_location: Seq<u8>,
)
    requires
        s.change_storage_location_outcome(origin, did, storage_location) is Ok,
    ensures
        ({
            let t = s.change_storage_location_outcome(origin, did, storage_location)->Ok_0;
            &&& t.did_metalog(did) == MetalogView { storage_location, ..s.did_metalog(did) }
            &&& t.owner_of(did) == s.owner_of(did)
            &&& t.un_owner == s.un_owner
        }),
{
}

/// The unique name account is claimed once: the first signed claim takes it,
/// and every later claim is refused with `OpenNameAccountClaimed`.
pub proof fn unique_name_account_claimed_once(s: Storage, first: Origin, second: Origin)
    requires
        s.name_account is None,
        first is Signed,
        second is Signed,
    ensures
        s.init_unique_name_account_outcome(first) is Ok,
        ({
            let t = s.init_unique_name_account_outcome(first)->Ok_0;
            &&& t.name_account_or_default() == account_of(first)
            &&& t.init_unique_name_account_outcome(second) == Err::<Storage, MetalogError>(
                MetalogError::OpenNameAccountClaimed,
            )
        }),
{
}

/// Once claimed, the unique name account stays: no call changes it.
pub proof fn name_account_never_changes(
    s: Storage,
    origin: Origin,
    receiver: u64,
    did: Seq<u8>,
    bytes: Seq<u8>,
    license_code: u16,
    now: u64,
    paid: Result<(), &'static str>,
)
    requires
        s.name_account is Some,
    ensures
        s.init_unique_name_account_outcome(origin) is Err,
        s.create_metalog_outcome(origin, did, license_code, bytes, now) matches Ok(t)
            ==> t.name_account == s.name_account,
        s.transfer_ownership_outcome(origin, receiver, did) matches Ok(t) ==> t.name_account
            == s.name_account,
        s.buy_unique_name_outcome(origin, did, bytes, paid) matches Ok(t) ==> t.name_account
            == s.name_account,
        s.change_license_code_outcome(origin, did, license_code) matches Ok(t) ==> t.name_account
            == s.name_account,
        s.change_storage_location_outcome(origin, did, bytes) matches Ok(t) ==> t.name_account
            == s.name_account,
{
}

/// A metalog is created whenever the checks pass: a signed call, a DID and a
/// location of allowed length, a DID nobody holds, a license code other than
/// the delete code, and room in the signer's list.
pub proof fn create_metalog_succeeds_when_allowed(
    s: Storage,
    who: u64,
    did: Seq<u8>,
    license_code: u16,
    storage_location: Seq<u8>,
    now: u64,
)
    requires
        did.len() <= crate::types::BYTEARRAY_LIMIT_DID,
        storage_location.len() <= crate::types::BYTEARRAY_LIMIT_LOCATION,
        !s.did_owner.dom().contains(did),
        license_code != DELETE_LICENSE,
        s.count_of(who) < u64::MAX,
    ensures
        s.create_metalog_outcome(Origin::Signed(who), did, license_code, storage_location, now)
            is Ok,
{
}

/// The owner of a DID can hand it on whenever the receiver's list has room
/// and the owner's list is not empty.
pub proof fn transfer_ownership_succeeds_for_owner(
    s: Storage,
    who: u64,
    receiver: u64,
    did: Seq<u8>,
)
    requires
        s.did_meta.dom().contains(did),
        s.owner_of(did) == Some(who),
        s.count_of(receiver) < u64::MAX,
        s.count_of(who) > 0,
    ensures
        s.transfer_ownership_outcome(Origin::Signed(who), receiver, did) is Ok,
{
}

/// A purchase whose checks pass and whose payment went through succeeds.
pub proof fn paid_purchase_succeeds(s: Storage, origin: Origin, did: Seq<u8>, name: Seq<u8>)
    requires
        s.name_purchase_check(origin, did, name) is Ok,
    ensures
        s.buy_unique_name_outcome(origin, did, name, Ok(())) is Ok,
{
}

/// A created metalog holds exactly what the call was given: the DID, the
/// license code, the storage location and the time, with no unique name
/// (`[0]`); it is the signer's, at the end of the signer's list.
pub proof fn create_metalog_stores_its_arguments(
    s: Storage,
    who: u64,
    did: Seq<u8>,
    license_code: u16,
    storage_location: Seq<u8>,
    now: u64,
)
    requires
        s.create_metalog_outcome(Origin::Signed(who), did, license_code, storage_location, now)
            is Ok,
    ensures
        ({
            let t = s.create_metalog_outcome(
                Origin::Signed(who),
                did,
                license_code,
                storage_location,
                now,
            )->Ok_0;
            &&& t.did_meta.dom().contains(did)
            &&& t.did_meta[did].did == did
            &&& t.did_meta[did].unique_name == seq![0u8]
            &&& t.did_meta[did].license_code == license_code
            &&& t.did_meta[did].storage_location == storage_location
            &&& t.did_meta[did].time == now
            &&& t.did_owner.dom().contains(did)
            &&& t.did_owner[did] == who
            &&& t.meta_array.dom().contains((who, s.count_of(who)))
            &&& t.meta_array[(who, s.count_of(who))] == t.did_meta[did]
        }),
{
}

/// The owner of a DID may buy for it any name of at most
/// `BYTEARRAY_LIMIT_NAME` bytes that nobody holds, whatever name the DID has
/// now: the checks pass, the payment asked for is the name price from the
/// owner to the unique name account (0 until one is claimed), and once paid
/// the purchase succeeds, giving the DID's metalog the name and the owner
/// the name.
pub proof fn owner_may_buy_a_free_name(s: Storage, who: u64, did: Seq<u8>, name: Seq<u8>)
    requires
        s.did_meta.dom().contains(did),
        s.did_owner.dom().contains(did),
        s.did_owner[did] == who,
        name.len() <= crate::types::BYTEARRAY_LIMIT_NAME,
        !s.un_owner.dom().contains(name),
    ensures
        s.name_purchase_check(Origin::Signed(who), did, name) == Ok::<u64, MetalogError>(who),
        s.name_payment(who).from == who,
        s.name_payment(who).amount == 1000,
        s.name_payment(who).to == (match s.name_account {
            Some(a) => a,
            None => 0,
        }),
        s.buy_unique_name_outcome(Origin::Signed(who), did, name, Ok(())) is Ok,
        ({
            let t = s.buy_unique_name_outcome(Origin::Signed(who), did, name, Ok(()))->Ok_0;
            &&& t.did_meta.dom().contains(did)
            &&& t.did_meta[did].unique_name == name
            &&& t.did_meta[did].did == s.did_meta[did].did
            &&& t.did_meta[did].license_code == s.did_meta[did].license_code
            &&& t.did_meta[did].storage_location == s.did_meta[did].storage_location
            &&& t.did_meta[did].time == s.did_meta[did].time
            &&& t.un_owner.dom().contains(name)
            &&& t.un_owner[name] == who
            &&& t.un_meta.dom().contains(name)
            &&& t.un_meta[name] == t.did_meta[did]
            &&& t.did_owner == s.did_owner
        }),
{
}

/// The owner of a DID may set its license code to any value; nothing else
/// of the metalog changes.
pub proof fn owner_may_set_any_license_code(s: Storage, who: u64, did: Seq<u8>, license_code: u16)
    requires
        s.did_meta.dom().contains(did),
        s.did_owner.dom().contains(did),
        s.did_owner[did] == who,
    ensures
        s.change_license_code_outcome(Origin::Signed(who), did, license_code) is Ok,
        ({
            let t = s.change_license_code_outcome(Origin::Signed(who), did, license_code)->Ok_0;
            &&& t.did_meta.dom().contains(did)
            &&& t.did_meta[did].license_code == license_code
            &&& t.did_meta[did].did == s.did_meta[did].did
            &&& t.did_meta[did].unique_name == s.did_meta[did].unique_name
            &&& t.did_meta[did].storage_location == s.did_meta[did].storage_location
            &&& t.did_meta[did].time == s.did_meta[did].time
            &&& t.did_owner == s.did_owner
        }),
{
}

/// The owner of a DID may set its storage location to any location of at
/// most `BYTEARRAY_LIMIT_LOCATION` bytes, stored exactly as given; nothing
/// else of the metalog changes.
pub proof fn owner_may_set_a_location_within_the_limit(
    s: Storage,
    who: u64,
    did: Seq<u8>,
    storage_location: Seq<u8>,
)
    requires
        s.did_meta.dom().contains(did),
        s.did_owner.dom().contains(did),
        s.did_owner[did] == who,
        storage_location.len() <= crate::types::BYTEARRAY_LIMIT_LOCATION,
    ensures
        s.change_storage_location_outcome(Origin::Signed(who), did, storage_location) is Ok,
        ({
            let t = s.change_storage_location_outcome(
                Origin::Signed(who),
                did,
                storage_location,
            )->Ok_0;
            &&& t.did_meta.dom().contains(did)
            &&& t.did_meta[did].storage_location == storage_location
            &&& t.did_meta[did].did == s.did_meta[did].did
            &&& t.did_meta[did].unique_name == s.did_meta[did].unique_name
            &&& t.did_meta[did].license_code == s.did_meta[did].license_code
            &&& t.did_meta[did].time == s.did_meta[did].time
            &&& t.did_owner == s.did_owner
        }),
{
}

/// Genesis storage is what storing the first entry's metalog gives: later
/// entries name the same DID and are passed over.
proof fn genesis_is_the_first_entry(entries: Seq<(u64, u16)>, now: u64)
    requires
        entries.len() > 0,
    ensures
        Storage::empty().owner_store(entries[0].0, crate::spec::genesis_metalog(entries[0].1, now))
            is Ok,
        Storage::empty().genesis(entries, now) == Storage::empty().owner_store(
            entries[0].0,
            crate::spec::genesis_metalog(entries[0].1, now),
        )->Ok_0,
    decreases entries.len(),
{
    if entries.len() == 1 {
        assert(entries.drop_last().len() == 0);
        assert(entries.last() == entries[0]);
    } else {
        genesis_is_the_first_entry(entries.drop_last(), now);
        assert(entries.drop_last()[0] == entries[0]);
    }
}

/// Genesis gives the account of the first entry the DID `[1, 2, 3]`: that
/// account owns it, lists exactly it at slot 0, and its metalog has the
/// entry's license code, location `[1, 2, 3]`, no unique name and the genesis
/// time; no other account lists anything.
pub proof fn genesis_gives_the_first_entry_its_metalog(entries: Seq<(u64, u16)>, now: u64)
    requires
        entries.len() > 0,
    ensures
        ({
            let g = Storage::empty().genesis(entries, now);
            let did = seq![1u8, 2u8, 3u8];
            let who = entries[0].0;
            &&& g.did_owner.dom().contains(did)
            &&& g.did_owner[did] == who
            &&& g.count_of(who) == 1
            &&& forall|a: u64| a != who ==> #[trigger] g.count_of(a) == 0
            &&& g.meta_array.dom().contains((who, 0))
            &&& g.meta_array[(who, 0)] == g.did_meta[did]
            &&& g.did_meta.dom().contains(did)
            &&& g.did_meta[did].did == did
            &&& g.did_meta[did].unique_name == seq![0u8]
            &&& g.did_meta[did].license_code == entries[0].1
            &&& g.did_meta[did].storage_location == did
            &&& g.did_meta[did].time == now
        }),
{
    genesis_is_the_first_entry(entries, now);
}

/// Why a signed creation is refused, in the order the checks are made: a DID
/// over `BYTEARRAY_LIMIT_DID` bytes, then a location over
/// `BYTEARRAY_LIMIT_LOCATION` bytes, then a DID someone already holds, then
/// the delete license code, then a full list.
pub proof fn create_metalog_refusals(
    s: Storage,
    who: u64,
    did: Seq<u8>,
    license_code: u16,
    storage_location: Seq<u8>,
    now: u64,
)
    ensures
        ({
            let r = s.create_metalog_outcome(
                Origin::Signed(who),
                did,
                license_code,
                storage_location,
                now,
            );
            let did_ok = did.len() <= 100;
            let location_ok = storage_location.len() <= 100;
            let fresh = !s.did_owner.dom().contains(did);
            &&& !did_ok ==> r == Err::<Storage, MetalogError>(MetalogError::BytearrayLimitDid)
            &&& did_ok && !location_ok ==> r == Err::<Storage, MetalogError>(
                MetalogError::BytearrayLimitLocation,
            )
            &&& did_ok && location_ok && !fresh ==> r == Err::<Storage, MetalogError>(
                MetalogError::DidAlreadyClaimed,
            )
            &&& did_ok && location_ok && fresh && license_code == 1 ==> r == Err::<
                Storage,
                MetalogError,
            >(MetalogError::LicenseInvalid)
            &&& did_ok && location_ok && fresh && license_code != 1 && s.count_of(who)
                == u64::MAX ==> r == Err::<Storage, MetalogError>(MetalogError::Overflow)
        }),
{
}

/// Why the owner's purchase of a name is refused, in the order the checks
/// are made: a name over `BYTEARRAY_LIMIT_NAME` bytes, then a name someone
/// holds, then a failed payment, whose reason is passed on.
pub proof fn buy_unique_name_refusals(
    s: Storage,
    who: u64,
    did: Seq<u8>,
    name: Seq<u8>,
    paid: Result<(), &'static str>,
)
    requires
        s.did_meta.dom().contains(did),
        s.did_owner.dom().contains(did),
        s.did_owner[did] == who,
    ensures
        ({
            let r = s.buy_unique_name_outcome(Origin::Signed(who), did, name, paid);
            let c = s.name_purchase_check(Origin::Signed(who), did, name);
            let name_ok = name.len() <= 50;
            let free = !s.un_owner.dom().contains(name);
            &&& !name_ok ==> r == Err::<Storage, MetalogError>(MetalogError::BytearrayLimitName)
                && c == Err::<u64, MetalogError>(MetalogError::BytearrayLimitName)
            &&& name_ok && !free ==> r == Err::<Storage, MetalogError>(
                MetalogError::UnAlreadyClaimed,
            ) && c == Err::<u64, MetalogError>(MetalogError::UnAlreadyClaimed)
            &&& name_ok && free ==> (paid matches Err(reason) ==> r == Err::<
                Storage,
                MetalogError,
            >(MetalogError::Payment(reason)))
        }),
{
}

/// A signed location change to a location over `BYTEARRAY_LIMIT_LOCATION`
/// bytes is refused with `BytearrayLimitLocation`, whoever signs and
/// whatever the DID.
pub proof fn long_location_is_refused(s: Storage, who: u64, did: Seq<u8>, storage_location: Seq<u8>)
    requires
        storage_location.len() > 100,
    ensures
        s.change_storage_location_outcome(Origin::Signed(who), did, storage_location) == Err::<
            Storage,
            MetalogError,
        >(MetalogError::BytearrayLimitLocation),
{
}

/// A transfer by the owner to an account whose list is full is refused with
/// `Overflow`.
pub proof fn transfer_to_a_full_list_overflows(s: Storage, who: u64, receiver: u64, did: Seq<u8>)
    requires
        s.did_meta.dom().contains(did),
        s.did_owner.dom().contains(did),
        s.did_owner[did] == who,
        s.count_of(receiver) == u64::MAX,
    ensures
        s.transfer_ownership_outcome(Origin::Signed(who), receiver, did) == Err::<
            Storage,
            MetalogError,
        >(MetalogError::Overflow),
{
}

} // verus!
