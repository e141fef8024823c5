//! The storage stays consistent: genesis builds consistent storage and every
//! call keeps it so (see `Storage::consistent`).
use vstd::prelude::*;
use crate::spec::{genesis_metalog, Storage};
use crate::types::{account_of, MetalogError, MetalogView, Origin};

verus! {

/// Empty storage is consistent.
pub proof fn empty_is_consistent()
    ensures
        Storage::empty().consistent(),
{
}

/// In consistent storage the DID that `sender` owns has a recorded position
/// of at least 1, at the slot before which its metalog sits.
pub proof fn owned_did_is_placed(s: Storage, sender: u64, did: Seq<u8>)
    requires
        s.consistent(),
        s.ownership(sender, did) is Ok,
    ensures
        s.index_of(did) >= 1,
        s.index_of(did) <= s.count_of(sender),
        s.slot(sender, (s.index_of(did) - 1) as u64) == s.did_metalog(did),
        s.did_metalog(did).did == did,
{
    assert(s.did_owner.dom().contains(did));
    assert(s.placed(did));
    let freed = (s.index_of(did) - 1) as u64;
    assert(s.listed(sender, freed));
}

/// In consistent storage an existing DID always has an owner, so a check of
/// ownership never ends in `DidNoOwner`.
pub proof fn consistent_storage_has_no_ownerless_did(s: Storage, sender: u64, did: Seq<u8>)
    requires
        s.consistent(),
    ensures
        s.ownership(sender, did) != Err::<(), MetalogError>(MetalogError::DidNoOwner),
{
}

/// Storing a metalog for a DID nobody holds keeps the storage consistent.
pub proof fn owner_store_keeps_consistency(s: Storage, who: u64, m: MetalogView)
    requires
        s.consistent(),
        !s.did_owner.dom().contains(m.did),
        s.owner_store(who, m) is Ok,
    ensures
        s.owner_store(who, m)->Ok_0.consistent(),
{
    let t = s.owner_store(who, m)->Ok_0;
    let c = s.count_of(who);
    assert(!s.did_meta.dom().contains(m.did));
    assert forall|d: Seq<u8>| #[trigger] t.did_meta.dom().contains(d) implies t.did_meta[d].did
        == d by {
        if d != m.did {
            assert(s.did_meta.dom().contains(d));
        }
    }
    assert forall|d: Seq<u8>| #[trigger]
        t.did_meta.dom().contains(d) <==> t.did_owner.dom().contains(d) by {
        if d != m.did {
            assert(s.did_meta.dom().contains(d) <==> s.did_owner.dom().contains(d));
        }
    }
    assert forall|a: u64, i: u64| i < t.count_of(a) implies #[trigger] t.listed(a, i) by {
        if !(a == who && i == c) {
            assert(i < s.count_of(a));
            assert(s.listed(a, i));
            let md = s.meta_array[(a, i)].did;
            assert(s.did_owner.dom().contains(md));
            assert(md != m.did);
            assert(t.meta_array[(a, i)] == s.meta_array[(a, i)]);
            assert(t.index_of(md) == s.index_of(md));
        } else {
            assert(t.meta_array[(a, i)] == m);
            assert(t.index_of(m.did) == c + 1);
        }
    }
    assert forall|d: Seq<u8>| #[trigger] t.did_owner.dom().contains(d) implies t.placed(d) by {
        if d != m.did {
            assert(s.did_owner.dom().contains(d));
            assert(s.placed(d));
            let a = s.did_owner[d];
            let p = s.index_of(d);
            assert(t.did_owner[d] == a);
            assert(t.index_of(d) == p);
            assert(t.meta_array[(a, (p - 1) as u64)] == s.meta_array[(a, (p - 1) as u64)]);
        } else {
            assert(t.index_of(d) == c + 1);
            assert(t.meta_array[(who, c)] == m);
        }
    }
}

/// Writing back a metalog of an owned DID, carrying that DID, keeps the
/// storage consistent.
pub proof fn write_back_keeps_consistency(s: Storage, sender: u64, did: Seq<u8>, m: MetalogView)
    requires
        s.consistent(),
        s.ownership(sender, did) is Ok,
        m.did == did,
    ensures
        s.write_back(sender, did, m).consistent(),
{
    let t = s.write_back(sender, did, m);
    owned_did_is_placed(s, sender, did);
    let pos = s.index_of(did);
    let freed = (pos - 1) as u64;
    assert(t.did_meta.dom() =~= s.did_meta.dom());
    assert forall|d: Seq<u8>| #[trigger] t.did_meta.dom().contains(d) implies t.did_meta[d].did
        == d by {
        if d != did {
            assert(s.did_meta.dom().contains(d));
        }
    }
    assert forall|a: u64, i: u64| i < t.count_of(a) implies #[trigger] t.listed(a, i) by {
        if a == sender && i == freed {
            assert(t.meta_array[(a, i)] == m);
        } else {
            assert(s.listed(a, i));
            let md = s.meta_array[(a, i)].did;
            assert(md != did);
            assert(t.meta_array[(a, i)] == s.meta_array[(a, i)]);
        }
    }
    assert forall|d: Seq<u8>| #[trigger] t.did_owner.dom().contains(d) implies t.placed(d) by {
        assert(s.placed(d));
        if d != did {
            let a = s.did_owner[d];
            let p = s.index_of(d);
            assert(s.meta_array[(a, (p - 1) as u64)].did == d);
            assert(t.meta_array[(a, (p - 1) as u64)] == s.meta_array[(a, (p - 1) as u64)]);
        }
    }
}

/// Handing an owned DID on keeps the storage consistent.
pub proof fn transfer_keeps_consistency(s: Storage, sender: u64, receiver: u64, did: Seq<u8>)
    requires
        s.consistent(),
        s.ownership(sender, did) is Ok,
        s.transfer(sender, receiver, did) is Ok,
    ensures
        s.transfer(sender, receiver, did)->Ok_0.consistent(),
{
    if sender != receiver {
        let t = s.transfer(sender, receiver, did)->Ok_0;
        let rc = s.count_of(receiver);
        let sc = s.count_of(sender);
        owned_did_is_placed(s, sender, did);
        let pos = s.index_of(did);
        let freed = (pos - 1) as u64;
        let last = (sc - 1) as u64;
        let m = s.did_metalog(did);
        assert(s.listed(sender, last));
        assert(s.listed(sender, freed));
        let moved = s.slot(sender, last);
        assert(moved == s.meta_array[(sender, last)]);
        assert(s.did_owner[moved.did] == sender);
        assert(s.index_of(moved.did) == last + 1);
        assert(freed != last ==> moved.did != did);
        assert(freed == last ==> moved.did == did);
        assert(t.count_of(sender) == last);
        assert(t.count_of(receiver) == rc + 1);
        assert(t.did_meta == s.did_meta);
        assert(t.did_owner.dom() =~= s.did_owner.dom());
        assert(t.index_of(did) == rc + 1);
        assert(freed != last ==> t.index_of(moved.did) == pos);
        assert(t.meta_array[(receiver, rc)] == m);
        assert forall|a: u64, i: u64| i < t.count_of(a) implies #[trigger] t.listed(a, i) by {
            if a == receiver && i == rc {
                assert(t.did_owner[did] == receiver);
            } else if a == sender && i == freed && freed != last {
                assert(t.meta_array[(sender, freed)] == moved);
                assert(t.did_owner[moved.did] == sender);
                assert(s.did_meta[moved.did] == moved);
            } else {
                assert(i < s.count_of(a));
                assert(s.listed(a, i));
                let md = s.meta_array[(a, i)].did;
                assert(md != did) by {
                    if a == sender {
                        assert(s.index_of(md) == i + 1);
                    }
                }
                assert(freed != last ==> md != moved.did) by {
                    if a == sender {
                        assert(s.index_of(md) == i + 1);
                    }
                }
                assert(t.meta_array[(a, i)] == s.meta_array[(a, i)]);
                assert(t.did_owner[md] == s.did_owner[md]);
                assert(t.index_of(md) == s.index_of(md));
            }
        }
        assert forall|d: Seq<u8>| #[trigger] t.did_owner.dom().contains(d) implies t.placed(d) by {
            if d == did {
                assert(t.did_owner[d] == receiver);
            } else if freed != last && d == moved.did {
                assert(t.did_owner[d] == sender);
                assert(t.meta_array[(sender, freed)] == moved);
            } else {
                assert(s.did_owner.dom().contains(d));
                assert(s.placed(d));
                let a = s.did_owner[d];
                let p = s.index_of(d);
                assert(t.did_owner[d] == a);
                assert(t.index_of(d) == p);
                assert(s.meta_array[(a, (p - 1) as u64)].did == d);
                assert(a == sender ==> (p - 1) as u64 != last);
                assert(a == sender ==> (p - 1) as u64 != freed);
                assert(t.meta_array[(a, (p - 1) as u64)] == s.meta_array[(a, (p - 1) as u64)]);
            }
        }
    }
}

/// Genesis builds consistent storage.
pub proof fn genesis_is_consistent(entries: Seq<(u64, u16)>, now: u64)
    ensures
        Storage::empty().genesis(entries, now).consistent(),
    decreases entries.len(),
{
    if entries.len() > 0 {
        genesis_is_consistent(entries.drop_last(), now);
        let before = Storage::empty().genesis(entries.drop_last(), now);
        let (who, code) = entries.last();
        let m = genesis_metalog(code, now);
        if !before.did_owner.dom().contains(m.did) && before.owner_store(who, m) is Ok {
            owner_store_keeps_consistency(before, who, m);
        }
    }
}

/// Consistency reads only the lists, the positions and the DID maps: storage
/// that agrees with consistent storage on those is consistent.
pub proof fn consistency_ignores_names(s: Storage, t: Storage)
    requires
        s.consistent(),
        t.meta_array == s.meta_array,
        t.meta_count == s.meta_count,
        t.meta_index == s.meta_index,
        t.did_meta == s.did_meta,
        t.did_owner == s.did_owner,
    ensures
        t.consistent(),
{
    assert forall|a: u64, i: u64| i < t.count_of(a) implies #[trigger] t.listed(a, i) by {
        assert(s.listed(a, i));
    }
    assert forall|d: Seq<u8>| #[trigger] t.did_owner.dom().contains(d) implies t.placed(d) by {
        assert(s.placed(d));
    }
}

/// Claiming the unique name account keeps the storage consistent.
pub proof fn init_unique_name_account_keeps_consistency(s: Storage, origin: Origin)
    requires
        s.consistent(),
    ensures
        s.init_unique_name_account_outcome(origin) matches Ok(t) ==> t.consistent(),
{
    if s.init_unique_name_account_outcome(origin) is Ok {
        consistency_ignores_names(s, s.init_unique_name_account_outcome(origin)->Ok_0);
    }
}

/// Creating a metalog keeps the storage consistent.
pub proof fn create_metalog_keeps_consistency(
    s: Storage,
    origin: Origin,
    did: Seq<u8>,
    license_code: u16,
    storage_location: Seq<u8>,
    now: u64,
)
    requires
        s.consistent(),
    ensures
        s.create_metalog_outcome(origin, did, license_code, storage_location, now) matches Ok(t)
            ==> t.consistent(),
{
    if s.create_metalog_outcome(origin, did, license_code, storage_location, now) is Ok {
        owner_store_keeps_consistency(
            s,
            account_of(origin),
            Storage::new_metalog(did, license_code, storage_location, now),
        );
    }
}

/// Transferring a DID keeps the storage consistent.
pub proof fn transfer_ownership_keeps_consistency(
    s: Storage,
    origin: Origin,
    receiver: u64,
    did: Seq<u8>,
)
    requires
        s.consistent(),
    ensures
        s.transfer_ownership_outcome(origin, receiver, did) matches Ok(t) ==> t.consistent(),
{
    if s.transfer_ownership_outcome(origin, receiver, did) is Ok {
        transfer_keeps_consistency(s, account_of(origin), receiver, did);
    }
}

/// Buying a unique name keeps the storage consistent.
pub proof fn buy_unique_name_keeps_consistency(
    s: Storage,
    origin: Origin,
    did: Seq<u8>,
    name: Seq<u8>,
    paid: Result<(), &'static str>,
)
    requires
        s.consistent(),
    ensures
        s.buy_unique_name_outcome(origin, did, name, paid) matches Ok(t) ==> t.consistent(),
{
    if s.buy_unique_name_outcome(origin, did, name, paid) is Ok {
        let sender = account_of(origin);
        owned_did_is_placed(s, sender, did);
        let m = MetalogView { unique_name: name, ..s.did_metalog(did) };
        write_back_keeps_consistency(s, sender, did, m);
        consistency_ignores_names(
            s.write_back(sender, did, m),
            s.buy_unique_name_outcome(origin, did, name, paid)->Ok_0,
        );
    }
}

/// Changing a license code keeps the storage consistent.
pub proof fn change_license_code_keeps_consistency(
    s: Storage,
    origin: Origin,
    did: Seq<u8>,
    license_code: u16,
)
    requires
        s.consistent(),
    ensures
        s.change_license_code_outcome(origin, did, license_code) matches Ok(t) ==> t.consistent(),
{
    if s.change_license_code_outcome(origin, did, license_code) is Ok {
        let sender = account_of(origin);
        owned_did_is_placed(s, sender, did);
        write_back_keeps_consistency(
            s,
            sender,
            did,
            MetalogView { license_code, ..s.did_metalog(did) },
        );
    }
}

/// Changing a storage location keeps the storage consistent.
pub proof fn change_storage_location_keeps_consistency(
    s: Storage,
    origin: Origin,
    did: Seq<u8>,
    storage_location: Seq<u8>,
)
    requires
        s.consistent(),
    ensures
        s.change_storage_location_outcome(origin, did, storage_location) matches Ok(t)
            ==> t.consistent(),
{
    if s.change_storage_location_outcome(origin, did, storage_location) is Ok {
        let sender = account_of(origin);
        owned_did_is_placed(s, sender, did);
        write_back_keeps_consistency(
            s,
            sender,
            did,
            MetalogView { storage_location, ..s.did_metalog(did) },
        );
    }
}

} // verus!
