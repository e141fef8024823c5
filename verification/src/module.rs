//! The metalog module: its storage and the calls that read and change it.
//!
//! Every call first checks, then writes: a refused call leaves the storage as
//! it was. The signer of a call comes from its `Origin`; the time of a new
//! metalog and the outcome of a unique name payment are handed in by the
//! caller, who reads the clock and moves the funds.
use vstd::prelude::*;
use crate::consistency::{
    buy_unique_name_keeps_consistency, init_unique_name_account_keeps_consistency,
    owned_did_is_placed, owner_store_keeps_consistency, transfer_keeps_consistency,
    write_back_keeps_consistency,
};
use crate::spec::Storage;
use crate::store::{KvStore, Stored};
use crate::types::{
    account_of, ensure_signed, Event, EventView, Metalog, MetalogError, MetalogView, Origin,
    Payment, BYTEARRAY_LIMIT_DID, BYTEARRAY_LIMIT_LOCATION, BYTEARRAY_LIMIT_NAME, DELETE_LICENSE,
    NAME_PRICE,
};

verus! {

/// The accounts given metalogs at genesis, each with a license code.
pub struct GenesisConfig {
    pub metalog: Vec<(u64, u16)>,
}

/// The metalog module's storage.
pub struct Module {
    owned_meta_array: KvStore<(u64, u64), Metalog>,
    owned_meta_count: KvStore<u64, u64>,
    owned_meta_index: KvStore<Vec<u8>, u64>,
    un_meta: KvStore<Vec<u8>, Metalog>,
    un_owner: KvStore<Vec<u8>, u64>,
    did_meta: KvStore<Vec<u8>, Metalog>,
    did_owner: KvStore<Vec<u8>, u64>,
    unique_name_account: Option<u64>,
}

impl View for Module {
    type V = Storage;

    closed spec fn view(&self) -> Storage {
        Storage {
            meta_array: self.owned_meta_array@,
            meta_count: self.owned_meta_count@,
            meta_index: self.owned_meta_index@,
            un_meta: self.un_meta@,
            un_owner: self.un_owner@,
            did_meta: self.did_meta@,
            did_owner: self.did_owner@,
            name_account: self.unique_name_account,
        }
    }
}

/// A copy of the bytes `[0]`, the unique name of a metalog that has none.
fn default_name() -> (r: Vec<u8>)
    ensures
        r@ == crate::types::no_name(),
{
    let mut name: Vec<u8> = Vec::new();
    name.push(0);
    assert(name@ =~= crate::types::no_name());
    name
}

impl Module {
    /// Every storage item is well formed and the storage is consistent.
    pub closed spec fn wf(&self) -> bool {
        self.stores_wf() && self@.consistent()
    }

    /// Every storage item is well formed.
    closed spec fn stores_wf(&self) -> bool {
        &&& self.owned_meta_array.wf()
        &&& self.owned_meta_count.wf()
        &&& self.owned_meta_index.wf()
        &&& self.un_meta.wf()
        &&& self.un_owner.wf()
        &&& self.did_meta.wf()
        &&& self.did_owner.wf()
    }

    /// Well-formed storage is consistent.
    pub proof fn lemma_wf_consistent(&self)
        requires
            self.wf(),
        ensures
            self@.consistent(),
    {
    }

    /// Empty storage.
    pub fn new() -> (m: Module)
        ensures
            m.wf(),
            m@ == Storage::empty(),
    {
        proof {
            crate::consistency::empty_is_consistent();
        }
        Module {
            owned_meta_array: KvStore::new(),
            owned_meta_count: KvStore::new(),
            owned_meta_index: KvStore::new(),
            un_meta: KvStore::new(),
            un_owner: KvStore::new(),
            did_meta: KvStore::new(),
            did_owner: KvStore::new(),
            unique_name_account: None,
        }
    }

    /// The storage that genesis builds from `config`, at time `now`.
    pub fn from_genesis(config: &GenesisConfig, now: u64) -> (m: Module)
        ensures
            m.wf(),
            m@ == Storage::empty().genesis(config.metalog@, now),
    {
        let mut m = Module::new();
        let n = config.metalog.len();
        let mut i: usize = 0;
        while i < n
            invariant
                n == config.metalog@.len(),
                i <= n,
                m.wf(),
                m@ == Storage::empty().genesis(config.metalog@.take(i as int), now),
            decreases n - i,
        {
            let (who, license_code) = config.metalog[i];
            let mut did: Vec<u8> = Vec::new();
            did.push(1);
            did.push(2);
            did.push(3);
            assert(did@ =~= seq![1u8, 2u8, 3u8]);
            let location = did.duplicate();
            let metalog = Metalog {
                did,
                unique_name: default_name(),
                license_code,
                storage_location: location,
                time: now,
            };
            assert(metalog@ == crate::spec::genesis_metalog(license_code, now));
            if !m.did_owner.contains(&metalog.did) {
                let _ = m.owner_store(who, metalog);
            }
            assert(config.metalog@.take(i + 1).drop_last() =~= config.metalog@.take(i as int));
            i = i + 1;
        }
        assert(config.metalog@.take(n as int) =~= config.metalog@);
        m
    }

    /// A copy of the storage.
    pub fn duplicate(&self) -> (r: Module)
        requires
            self.wf(),
        ensures
            r.wf(),
            r@ == self@,
    {
        Module {
            owned_meta_array: self.owned_meta_array.duplicate_store(),
            owned_meta_count: self.owned_meta_count.duplicate_store(),
            owned_meta_index: self.owned_meta_index.duplicate_store(),
            un_meta: self.un_meta.duplicate_store(),
            un_owner: self.un_owner.duplicate_store(),
            did_meta: self.did_meta.duplicate_store(),
            did_owner: self.did_owner.duplicate_store(),
            unique_name_account: self.unique_name_account,
        }
    }

    /// Whether two storages hold the same contents.
    pub fn same_storage(&self, other: &Module) -> (r: bool)
        requires
            self.wf(),
            other.wf(),
        ensures
            r == (self@ == other@),
    {
        self.owned_meta_array.same_contents(&other.owned_meta_array)
            && self.owned_meta_count.same_contents(&other.owned_meta_count)
            && self.owned_meta_index.same_contents(&other.owned_meta_index)
            && self.un_meta.same_contents(&other.un_meta) && self.un_owner.same_contents(
            &other.un_owner,
        ) && self.did_meta.same_contents(&other.did_meta) && self.did_owner.same_contents(
            &other.did_owner,
        ) && self.unique_name_account == other.unique_name_account
    }

    /// The metalog at position `key.1` of account `key.0`'s list (empty if none).
    pub fn metadata_of_owner_by_index(&self, key: (u64, u64)) -> (r: Metalog)
        requires
            self.wf(),
        ensures
            r@ == self@.slot(key.0, key.1),
    {
        match self.owned_meta_array.get(&key) {
            Some(m) => m.duplicate(),
            None => Metalog::default(),
        }
    }

    /// Number of metalogs in `who`'s list.
    pub fn owner_meta_count(&self, who: u64) -> (r: u64)
        requires
            self.wf(),
        ensures
            r == self@.count_of(who),
    {
        match self.owned_meta_count.get(&who) {
            Some(c) => *c,
            None => 0,
        }
    }

    /// The recorded position of `did` in its owner's list (0 if none).
    pub fn owned_meta_index(&self, did: &Vec<u8>) -> (r: u64)
        requires
            self.wf(),
        ensures
            r == self@.index_of(did@),
    {
        match self.owned_meta_index.get(did) {
            Some(c) => *c,
            None => 0,
        }
    }

    /// The metalog bought under `name` (empty if none).
    pub fn meta_of_un(&self, name: &Vec<u8>) -> (r: Metalog)
        requires
            self.wf(),
        ensures
            r@ == self@.name_metalog(name@),
    {
        match self.un_meta.get(name) {
            Some(m) => m.duplicate(),
            None => Metalog::default(),
        }
    }

    /// The account that holds `name`, if any.
    pub fn owner_of_un(&self, name: &Vec<u8>) -> (r: Option<u64>)
        requires
            self.wf(),
        ensures
            r == (if self@.un_owner.dom().contains(name@) {
                Some(self@.un_owner[name@])
            } else {
                None
            }),
    {
        match self.un_owner.get(name) {
            Some(a) => Some(*a),
            None => None,
        }
    }

    /// The metalog of `did` (empty if none).
    pub fn meta_of_did(&self, did: &Vec<u8>) -> (r: Metalog)
        requires
            self.wf(),
        ensures
            r@ == self@.did_metalog(did@),
    {
        match self.did_meta.get(did) {
            Some(m) => m.duplicate(),
            None => Metalog::default(),
        }
    }

    /// The owner of `did`, if any.
    pub fn owner_of_did(&self, did: &Vec<u8>) -> (r: Option<u64>)
        requires
            self.wf(),
        ensures
            r == self@.owner_of(did@),
    {
        match self.did_owner.get(did) {
            Some(a) => Some(*a),
            None => None,
        }
    }

    /// The account that unique name payments go to (0 until one is claimed).
    pub fn unique_name_account(&self) -> (r: u64)
        ensures
            r == self@.name_account_or_default(),
    {
        match self.unique_name_account {
            Some(a) => a,
            None => 0,
        }
    }

    /// Appends `metalog` to `who`'s list and makes `who` its DID's owner.
    fn owner_store(&mut self, who: u64, metalog: Metalog) -> (r: Result<(), MetalogError>)
        requires
            old(self).wf(),
            !old(self)@.did_owner.dom().contains(metalog.did@),
        ensures
            final(self).wf(),
            match old(self)@.owner_store(who, metalog@) {
                Ok(s) => r is Ok && final(self)@ == s,
                Err(e) => r == Err::<(), MetalogError>(e) && final(self)@ == old(self)@,
            },
    {
        let ghost s0 = self@;
        let ghost mv = metalog@;
        let count = self.owner_meta_count(who);
        let updated_count = match count.checked_add(1) {
            Some(c) => c,
            None => return Err(MetalogError::Overflow),
        };
        self.owned_meta_array.insert((who, count), metalog.duplicate());
        self.owned_meta_count.insert(who, updated_count);
        self.owned_meta_index.insert(metalog.did.duplicate(), updated_count);
        let did_key = metalog.did.duplicate();
        let owner_key = metalog.did.duplicate();
        self.did_meta.insert(did_key, metalog);
        self.did_owner.insert(owner_key, who);
        proof {
            owner_store_keeps_consistency(s0, who, mv);
        }
        Ok(())
    }

    /// Whether `sender` owns `did`.
    fn check_did_ownership(&self, sender: u64, did: &Vec<u8>) -> (r: Result<(), MetalogError>)
        requires
            self.wf(),
        ensures
            r == self@.ownership(sender, did@),
    {
        if !self.did_meta.contains(did) {
            return Err(MetalogError::DidNotExist);
        }
        let owner = match self.owner_of_did(did) {
            Some(o) => o,
            None => return Err(MetalogError::DidNoOwner),
        };
        if owner != sender {
            return Err(MetalogError::NotOwner);
        }
        Ok(())
    }

    /// The signer of `origin`, once it is known to own `did`.
    pub fn ensure_owner(&self, origin: Origin, did: &Vec<u8>) -> (r: Result<u64, MetalogError>)
        requires
            self.wf(),
        ensures
            r == self@.owner_check(origin, did@),
    {
        let sender = match ensure_signed(origin) {
            Ok(s) => s,
            Err(e) => return Err(e),
        };
        match self.check_did_ownership(sender, did) {
            Ok(()) => Ok(sender),
            Err(e) => Err(e),
        }
    }

    /// Hands `did`, which `sender` owns, to `receiver`: the DID's metalog
    /// goes to the end of the receiver's list, and the sender's last metalog
    /// fills the slot it leaves.
    fn transfer(&mut self, sender: u64, receiver: u64, did: &Vec<u8>) -> (r: Result<(), MetalogError>)
        requires
            old(self).wf(),
            old(self)@.ownership(sender, did@) is Ok,
        ensures
            final(self).wf(),
            match old(self)@.transfer(sender, receiver, did@) {
                Ok(s) => r is Ok && final(self)@ == s,
                Err(e) => r == Err::<(), MetalogError>(e) && final(self)@ == old(self)@,
            },
    {
        let ghost s0 = self@;
        let receiver_total_count = self.owner_meta_count(receiver);
        let new_receiver_count = match receiver_total_count.checked_add(1) {
            Some(c) => c,
            None => return Err(MetalogError::Overflow),
        };
        let sender_total_count = self.owner_meta_count(sender);
        let new_sender_count = match sender_total_count.checked_sub(1) {
            Some(c) => c,
            None => return Err(MetalogError::Underflow),
        };
        if sender == receiver {
            return Ok(());
        }
        proof {
            owned_did_is_placed(s0, sender, did@);
        }
        let meta_index = self.owned_meta_index(did);
        let freed = meta_index - 1;
        let metalog = self.meta_of_did(did);
        let moved = self.metadata_of_owner_by_index((sender, new_sender_count));
        self.owned_meta_array.remove(&(sender, new_sender_count));
        if freed != new_sender_count {
            self.owned_meta_array.insert((sender, freed), moved.duplicate());
            self.owned_meta_index.insert(moved.did.duplicate(), meta_index);
        }
        let no_name = default_name();
        if !metalog.unique_name.same(&no_name) {
            self.un_owner.insert(metalog.unique_name.duplicate(), receiver);
        }
        self.did_owner.insert(did.duplicate(), receiver);
        self.owned_meta_index.insert(did.duplicate(), new_receiver_count);
        self.owned_meta_array.insert((receiver, receiver_total_count), metalog);
        self.owned_meta_count.insert(sender, new_sender_count);
        self.owned_meta_count.insert(receiver, new_receiver_count);
        proof {
            transfer_keeps_consistency(s0, sender, receiver, did@);
        }
        Ok(())
    }

    /// The payment that buying a unique name for `sender` takes.
    fn pay_name(&self, sender: u64) -> (r: Payment)
        ensures
            r == self@.name_payment(sender),
    {
        Payment { from: sender, to: self.unique_name_account(), amount: NAME_PRICE }
    }

    /// Writes `metalog` back as `did`'s: at the position before the DID's
    /// recorded one in `sender`'s list, and under the DID.
    fn write_back(&mut self, sender: u64, did: &Vec<u8>, metalog: Metalog)
        requires
            old(self).wf(),
            old(self)@.ownership(sender, did@) is Ok,
            metalog@.did == did@,
        ensures
            final(self).wf(),
            final(self)@ == old(self)@.write_back(sender, did@, metalog@),
    {
        let ghost s0 = self@;
        proof {
            owned_did_is_placed(s0, sender, did@);
            write_back_keeps_consistency(s0, sender, did@, metalog@);
        }
        let meta_index = self.owned_meta_index(did);
        self.owned_meta_array.insert((sender, meta_index - 1), metalog.duplicate());
        self.did_meta.insert(did.duplicate(), metalog);
    }

    /// Makes the signer the account that unique name payments go to; refused
    /// once one has been claimed.
    pub fn init_unique_name_account(&mut self, origin: Origin) -> (r: Result<(), MetalogError>)
        requires
            old(self).wf(),
        ensures
            final(self).wf(),
            match old(self)@.init_unique_name_account_outcome(origin) {
                Ok(s) => r is Ok && final(self)@ == s,
                Err(e) => r == Err::<(), MetalogError>(e) && final(self)@ == old(self)@,
            },
    {
        let sender = match ensure_signed(origin) {
            Ok(s) => s,
            Err(e) => return Err(e),
        };
        if self.unique_name_account.is_some() {
            return Err(MetalogError::OpenNameAccountClaimed);
        }
        let ghost s0 = self@;
        self.unique_name_account = Some(sender);
        proof {
            init_unique_name_account_keeps_consistency(s0, origin);
        }
        Ok(())
    }

    /// Stores a new metalog for `did`, owned by the signer, created at `now`,
    /// with no unique name.
    pub fn create_metalog(
        &mut self,
        origin: Origin,
        did: Vec<u8>,
        license_code: u16,
        storage_location: Vec<u8>,
        now: u64,
    ) -> (r: Result<Event, MetalogError>)
        requires
            old(self).wf(),
        ensures
            final(self).wf(),
            match old(self)@.create_metalog_outcome(
                origin,
                did@,
                license_code,
                storage_location@,
                now,
            ) {
                Ok(s) => final(self)@ == s && (r matches Ok(ev) && ev@ == EventView::Stored(
                    account_of(origin),
                    now,
                    did@,
                )),
                Err(e) => r == Err::<Event, MetalogError>(e) && final(self)@ == old(self)@,
            },
    {
        let sender = match ensure_signed(origin) {
            Ok(s) => s,
            Err(e) => return Err(e),
        };
        if did.len() > BYTEARRAY_LIMIT_DID {
            return Err(MetalogError::BytearrayLimitDid);
        }
        if storage_location.len() > BYTEARRAY_LIMIT_LOCATION {
            return Err(MetalogError::BytearrayLimitLocation);
        }
        if self.did_owner.contains(&did) {
            return Err(MetalogError::DidAlreadyClaimed);
        }
        if license_code == DELETE_LICENSE {
            return Err(MetalogError::LicenseInvalid);
        }
        let event_did = did.duplicate();
        let new_metadata = Metalog {
            did,
            unique_name: default_name(),
            license_code,
            storage_location,
            time: now,
        };
        match self.owner_store(sender, new_metadata) {
            Ok(()) => Ok(Event::Stored(sender, now, event_did)),
            Err(e) => Err(e),
        }
    }

    /// Hands `did` from the signer, its owner, to `receiver`.
    pub fn transfer_ownership(&mut self, origin: Origin, receiver: u64, did: Vec<u8>) -> (r: Result<
        Event,
        MetalogError,
    >)
        requires
            old(self).wf(),
        ensures
            final(self).wf(),
            match old(self)@.transfer_ownership_outcome(origin, receiver, did@) {
                Ok(s) => final(self)@ == s && (r matches Ok(ev) && ev@
                    == EventView::TransferOwnership(account_of(origin), receiver, did@)),
                Err(e) => r == Err::<Event, MetalogError>(e) && final(self)@ == old(self)@,
            },
    {
        let sender = match self.ensure_owner(origin, &did) {
            Ok(s) => s,
            Err(e) => return Err(e),
        };
        match self.transfer(sender, receiver, &did) {
            Ok(()) => Ok(Event::TransferOwnership(sender, receiver, did)),
            Err(e) => Err(e),
        }
    }

    /// The payment that buying `unique_name` for `did` takes, once the checks
    /// that come before it pass: the signer owns `did`, the name is short
    /// enough and nobody holds it yet. The caller makes the payment and hands
    /// its outcome to `buy_unique_name`.
    pub fn unique_name_payment(&self, origin: Origin, did: &Vec<u8>, unique_name: &Vec<u8>) -> (r:
        Result<Payment, MetalogError>)
        requires
            self.wf(),
        ensures
            match self@.name_purchase_check(origin, did@, unique_name@) {
                Ok(sender) => r == Ok::<Payment, MetalogError>(self@.name_payment(sender)),
                Err(e) => r == Err::<Payment, MetalogError>(e),
            },
    {
        let sender = match self.ensure_owner(origin, did) {
            Ok(s) => s,
            Err(e) => return Err(e),
        };
        if unique_name.len() > BYTEARRAY_LIMIT_NAME {
            return Err(MetalogError::BytearrayLimitName);
        }
        if self.un_owner.contains(unique_name) {
            return Err(MetalogError::UnAlreadyClaimed);
        }
        Ok(self.pay_name(sender))
    }

    /// Gives `did`'s metalog the unique name `unique_name`, held by the
    /// signer, after the payment that `unique_name_payment` asked for, whose
    /// outcome is `paid`.
    pub fn buy_unique_name(
        &mut self,
        origin: Origin,
        did: Vec<u8>,
        unique_name: Vec<u8>,
        paid: Result<(), &'static str>,
    ) -> (r: Result<Event, MetalogError>)
        requires
            old(self).wf(),
        ensures
            final(self).wf(),
            match old(self)@.buy_unique_name_outcome(origin, did@, unique_name@, paid) {
                Ok(s) => final(self)@ == s && (r matches Ok(ev) && ev@ == EventView::NameUpdated(
                    account_of(origin),
                    did@,
                    unique_name@,
                )),
                Err(e) => r == Err::<Event, MetalogError>(e) && final(self)@ == old(self)@,
            },
    {
        let sender = match self.ensure_owner(origin, &did) {
            Ok(s) => s,
            Err(e) => return Err(e),
        };
        if unique_name.len() > BYTEARRAY_LIMIT_NAME {
            return Err(MetalogError::BytearrayLimitName);
        }
        if self.un_owner.contains(&unique_name) {
            return Err(MetalogError::UnAlreadyClaimed);
        }
        match paid {
            Ok(()) => {},
            Err(reason) => return Err(MetalogError::Payment(reason)),
        }
        let ghost s0 = self@;
        proof {
            buy_unique_name_keeps_consistency(s0, origin, did@, unique_name@, paid);
        }
        let mut metalog = self.meta_of_did(&did);
        metalog.unique_name = unique_name.duplicate();
        self.write_back(sender, &did, metalog.duplicate());
        let name_key = metalog.unique_name.duplicate();
        let owner_key = metalog.unique_name.duplicate();
        self.un_meta.insert(name_key, metalog);
        self.un_owner.insert(owner_key, sender);
        Ok(Event::NameUpdated(sender, did, unique_name))
    }

    /// Sets the license code of `did`, owned by the signer.
    pub fn change_license_code(&mut self, origin: Origin, did: Vec<u8>, license_code: u16) -> (r:
        Result<Event, MetalogError>)
        requires
            old(self).wf(),
        ensures
            final(self).wf(),
            match old(self)@.change_license_code_outcome(origin, did@, license_code) {
                Ok(s) => final(self)@ == s && (r matches Ok(ev) && ev@ == EventView::LicenseUpdated(
                    account_of(origin),
                    did@,
                    license_code,
                )),
                Err(e) => r == Err::<Event, MetalogError>(e) && final(self)@ == old(self)@,
            },
    {
        let sender = match self.ensure_owner(origin, &did) {
            Ok(s) => s,
            Err(e) => return Err(e),
        };
        let mut metadata = self.meta_of_did(&did);
        metadata.license_code = license_code;
        self.write_back(sender, &did, metadata);
        Ok(Event::LicenseUpdated(sender, did, license_code))
    }

    /// Sets the storage location of `did`, owned by the signer.
    pub fn change_storage_location(
        &mut self,
        origin: Origin,
        did: Vec<u8>,
        storage_location: Vec<u8>,
    ) -> (r: Result<Event, MetalogError>)
        requires
            old(self).wf(),
        ensures
            final(self).wf(),
            match old(self)@.change_storage_location_outcome(origin, did@, storage_location@) {
                Ok(s) => final(self)@ == s && (r matches Ok(ev) && ev@ == EventView::LocationUpdated(
                    account_of(origin),
                    did@,
                    storage_location@,
                )),
                Err(e) => r == Err::<Event, MetalogError>(e) && final(self)@ == old(self)@,
            },
    {
        let sender = match ensure_signed(origin) {
            Ok(s) => s,
            Err(e) => return Err(e),
        };
        if storage_location.len() > BYTEARRAY_LIMIT_LOCATION {
            return Err(MetalogError::BytearrayLimitLocation);
        }
        match self.check_did_ownership(sender, &did) {
            Ok(()) => {},
            Err(e) => return Err(e),
        }
        let mut metadata = self.meta_of_did(&did);
        metadata.storage_location = storage_location.duplicate();
        self.write_back(sender, &did, metadata);
        Ok(Event::LocationUpdated(sender, did, storage_location))
    }
}

} // verus!
