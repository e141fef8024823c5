//! The metalog module's storage as plain maps, and what each call does to it.
//!
//! Reading a storage item at an absent key gives the item's default (0, or an
//! empty metalog), as a storage map does; `Option` items tell the
//! absence apart.
use vstd::prelude::*;
use crate::types::{
    no_name, signer, MetalogError, MetalogView, Origin, Payment, BYTEARRAY_LIMIT_DID,
    BYTEARRAY_LIMIT_LOCATION, BYTEARRAY_LIMIT_NAME, DELETE_LICENSE, NAME_PRICE,
};

verus! {

/// The module's storage.
pub struct Storage {
    /// `(owner, position)` to the metalog at that position of the owner's list.
    pub meta_array: Map<(u64, u64), MetalogView>,
    /// Owner to the number of metalogs in its list.
    pub meta_count: Map<u64, u64>,
    /// DID to its recorded position in its owner's list.
    pub meta_index: Map<Seq<u8>, u64>,
    /// Unique name to the metalog it was bought for.
    pub un_meta: Map<Seq<u8>, MetalogView>,
    /// Unique name to the account that holds it.
    pub un_owner: Map<Seq<u8>, u64>,
    /// DID to its metalog.
    pub did_meta: Map<Seq<u8>, MetalogView>,
    /// DID to its owner.
    pub did_owner: Map<Seq<u8>, u64>,
    /// The account that unique name payments go to, once claimed.
    pub name_account: Option<u64>,
}

/// The metalog that genesis gives an account: DID `[1, 2, 3]`, stored at the
/// same location, with no unique name.
pub open spec fn genesis_metalog(license_code: u16, now: u64) -> MetalogView {
    MetalogView {
        did: seq![1u8, 2u8, 3u8],
        unique_name: no_name(),
        license_code,
        storage_location: seq![1u8, 2u8, 3u8],
        time: now,
    }
}

impl Storage {
    pub open spec fn empty() -> Storage {
        Storage {
            meta_array: Map::empty(),
            meta_count: Map::empty(),
            meta_index: Map::empty(),
            un_meta: Map::empty(),
            un_owner: Map::empty(),
            did_meta: Map::empty(),
            did_owner: Map::empty(),
            name_account: None,
        }
    }

    /// Every DID with a metalog has an owner and every owned DID has a
    /// metalog, and the metalog stored under a DID carries that DID.
    pub open spec fn records_consistent(self) -> bool {
        &&& forall|d: Seq<u8>| #[trigger]
            self.did_meta.dom().contains(d) <==> self.did_owner.dom().contains(d)
        &&& forall|d: Seq<u8>| #[trigger] self.did_meta.dom().contains(d) ==> self.did_meta[d].did == d
    }

    /// Slot `i` of `who`'s list holds a metalog of a DID that `who` owns,
    /// recorded at position `i + 1`, and equal to the DID's metalog.
    pub open spec fn listed(self, who: u64, i: u64) -> bool {
        let m = self.meta_array[(who, i)];
        &&& self.meta_array.dom().contains((who, i))
        &&& self.did_owner.dom().contains(m.did)
        &&& self.did_owner[m.did] == who
        &&& self.index_of(m.did) == i + 1
        &&& self.did_meta.dom().contains(m.did)
        &&& self.did_meta[m.did] == m
    }

    /// An owned DID's recorded position is within its owner's list, and the
    /// slot before it holds the DID.
    pub open spec fn placed(self, did: Seq<u8>) -> bool {
        let who = self.did_owner[did];
        let position = self.index_of(did);
        &&& 1 <= position <= self.count_of(who)
        &&& self.meta_array.dom().contains((who, (position - 1) as u64))
        &&& self.meta_array[(who, (position - 1) as u64)].did == did
    }

    /// Each account's list is the list of the DIDs it owns: its first
    /// `count_of` slots hold exactly the DIDs it owns, each DID at the slot
    /// before its recorded position, each with the DID's metalog.
    pub open spec fn lists_consistent(self) -> bool {
        &&& forall|who: u64, i: u64| i < self.count_of(who) ==> #[trigger] self.listed(who, i)
        &&& forall|d: Seq<u8>| #[trigger] self.did_owner.dom().contains(d) ==> self.placed(d)
    }

    /// The storage is consistent.
    pub open spec fn consistent(self) -> bool {
        self.records_consistent() && self.lists_consistent()
    }

    /// Number of metalogs listed for `who`.
    pub open spec fn count_of(self, who: u64) -> u64 {
        if self.meta_count.dom().contains(who) {
            self.meta_count[who]
        } else {
            0
        }
    }

    /// Recorded position of `did`.
    pub open spec fn index_of(self, did: Seq<u8>) -> u64 {
        if self.meta_index.dom().contains(did) {
            self.meta_index[did]
        } else {
            0
        }
    }

    /// The metalog at position `idx` of `who`'s list.
    pub open spec fn slot(self, who: u64, idx: u64) -> MetalogView {
        if self.meta_array.dom().contains((who, idx)) {
            self.meta_array[(who, idx)]
        } else {
            MetalogView::empty()
        }
    }

    /// The metalog of `did`.
    pub open spec fn did_metalog(self, did: Seq<u8>) -> MetalogView {
        if self.did_meta.dom().contains(did) {
            self.did_meta[did]
        } else {
            MetalogView::empty()
        }
    }

    /// The metalog bought under `name`.
    pub open spec fn name_metalog(self, name: Seq<u8>) -> MetalogView {
        if self.un_meta.dom().contains(name) {
            self.un_meta[name]
        } else {
            MetalogView::empty()
        }
    }

    /// The owner of `did`, if it has one.
    pub open spec fn owner_of(self, did: Seq<u8>) -> Option<u64> {
        if self.did_owner.dom().contains(did) {
            Some(self.did_owner[did])
        } else {
            None
        }
    }

    /// The account that unique name payments go to (0 until one is claimed).
    pub open spec fn name_account_or_default(self) -> u64 {
        match self.name_account {
            Some(a) => a,
            None => 0,
        }
    }

    /// Whether `sender` may act on `did`: the DID has a metalog, an owner, and
    /// that owner is `sender`.
    pub open spec fn ownership(self, sender: u64, did: Seq<u8>) -> Result<(), MetalogError> {
        if !self.did_meta.dom().contains(did) {
            Err(MetalogError::DidNotExist)
        } else if !self.did_owner.dom().contains(did) {
            Err(MetalogError::DidNoOwner)
        } else if self.did_owner[did] != sender {
            Err(MetalogError::NotOwner)
        } else {
            Ok(())
        }
    }

    /// Appends `m` to `who`'s list and makes `who` the owner of `m`'s DID.
    pub open spec fn owner_store(self, who: u64, m: MetalogView) -> Result<Storage, MetalogError> {
        let count = self.count_of(who);
        if count == u64::MAX {
            Err(MetalogError::Overflow)
        } else {
            Ok(
                Storage {
                    meta_array: self.meta_array.insert((who, count), m),
                    meta_count: self.meta_count.insert(who, (count + 1) as u64),
                    meta_index: self.meta_index.insert(m.did, (count + 1) as u64),
                    did_meta: self.did_meta.insert(m.did, m),
                    did_owner: self.did_owner.insert(m.did, who),
                    ..self
                },
            )
        }
    }

    /// Hands `did` from `sender` to `receiver`. The DID's metalog goes to the
    /// end of the receiver's list, at the receiver's old count, and its
    /// recorded position becomes that count plus one; the sender's last
    /// metalog moves into the slot the DID leaves and keeps that position;
    /// the sender's count drops by one and the receiver's rises by one; the
    /// holder of the metalog's unique name, if it has one, becomes the
    /// receiver. A transfer to oneself changes nothing, once the counts pass
    /// the same checks.
    pub open spec fn transfer(self, sender: u64, receiver: u64, did: Seq<u8>) -> Result<
        Storage,
        MetalogError,
    > {
        let receiver_count = self.count_of(receiver);
        let sender_count = self.count_of(sender);
        if receiver_count == u64::MAX {
            Err(MetalogError::Overflow)
        } else if sender_count == 0 {
            Err(MetalogError::Underflow)
        } else if sender == receiver {
            Ok(self)
        } else {
            let m = self.did_metalog(did);
            let last = (sender_count - 1) as u64;
            let position = self.index_of(did);
            let freed = (position - 1) as u64;
            let moved = self.slot(sender, last);
            let array1 = self.meta_array.remove((sender, last));
            let array2 = if freed != last {
                array1.insert((sender, freed), moved)
            } else {
                array1
            };
            let index1 = if freed != last {
                self.meta_index.insert(moved.did, position)
            } else {
                self.meta_index
            };
            let un_owner1 = if m.unique_name != no_name() {
                self.un_owner.insert(m.unique_name, receiver)
            } else {
                self.un_owner
            };
            Ok(
                Storage {
                    meta_array: array2.insert((receiver, receiver_count), m),
                    meta_count: self.meta_count.insert(sender, last).insert(
                        receiver,
                        (receiver_count + 1) as u64,
                    ),
                    meta_index: index1.insert(did, (receiver_count + 1) as u64),
                    un_owner: un_owner1,
                    did_owner: self.did_owner.insert(did, receiver),
                    ..self
                },
            )
        }
    }

    /// Writes `m` back as `did`'s metalog, both at the position before the
    /// DID's recorded one in `sender`'s list and under the DID.
    pub open spec fn write_back(self, sender: u64, did: Seq<u8>, m: MetalogView) -> Storage {
        Storage {
            meta_array: self.meta_array.insert((sender, (self.index_of(did) - 1) as u64), m),
            did_meta: self.did_meta.insert(did, m),
            ..self
        }
    }

    /// The signer of `origin`, once it is known to own `did`.
    pub open spec fn owner_check(self, origin: Origin, did: Seq<u8>) -> Result<u64, MetalogError> {
        match signer(origin) {
            Err(e) => Err(e),
            Ok(sender) => match self.ownership(sender, did) {
                Err(e) => Err(e),
                Ok(_) => Ok(sender),
            },
        }
    }

    /// What `init_unique_name_account` does.
    pub open spec fn init_unique_name_account_outcome(self, origin: Origin) -> Result<
        Storage,
        MetalogError,
    > {
        match signer(origin) {
            Err(e) => Err(e),
            Ok(sender) => if self.name_account is Some {
                Err(MetalogError::OpenNameAccountClaimed)
            } else {
                Ok(Storage { name_account: Some(sender), ..self })
            },
        }
    }

    /// The metalog that `create_metalog` stores.
    pub open spec fn new_metalog(
        did: Seq<u8>,
        license_code: u16,
        storage_location: Seq<u8>,
        now: u64,
    ) -> MetalogView {
        MetalogView { did, unique_name: no_name(), license_code, storage_location, time: now }
    }

    /// What `create_metalog` does.
    pub open spec fn create_metalog_outcome(
        self,
        origin: Origin,
        did: Seq<u8>,
        license_code: u16,
        storage_location: Seq<u8>,
        now: u64,
    ) -> Result<Storage, MetalogError> {
        match signer(origin) {
            Err(e) => Err(e),
            Ok(sender) => if did.len() > BYTEARRAY_LIMIT_DID {
                Err(MetalogError::BytearrayLimitDid)
            } else if storage_location.len() > BYTEARRAY_LIMIT_LOCATION {
                Err(MetalogError::BytearrayLimitLocation)
            } else if self.did_owner.dom().contains(did) {
                Err(MetalogError::DidAlreadyClaimed)
            } else if license_code == DELETE_LICENSE {
                Err(MetalogError::LicenseInvalid)
            } else {
                self.owner_store(
                    sender,
                    Self::new_metalog(did, license_code, storage_location, now),
                )
            },
        }
    }

    /// What `transfer_ownership` does.
    pub open spec fn transfer_ownership_outcome(
        self,
        origin: Origin,
        receiver: u64,
        did: Seq<u8>,
    ) -> Result<Storage, MetalogError> {
        match self.owner_check(origin, did) {
            Err(e) => Err(e),
            Ok(sender) => self.transfer(sender, receiver, did),
        }
    }

    /// The checks that `buy_unique_name` makes before the payment: the signer
    /// owns `did`, the name is short enough and nobody holds it yet.
    pub open spec fn name_purchase_check(self, origin: Origin, did: Seq<u8>, name: Seq<u8>) -> Result<
        u64,
        MetalogError,
    > {
        match self.owner_check(origin, did) {
            Err(e) => Err(e),
            Ok(sender) => if name.len() > BYTEARRAY_LIMIT_NAME {
                Err(MetalogError::BytearrayLimitName)
            } else if self.un_owner.dom().contains(name) {
                Err(MetalogError::UnAlreadyClaimed)
            } else {
                Ok(sender)
            },
        }
    }

    /// The payment that buying a unique name for `sender` takes.
    pub open spec fn name_payment(self, sender: u64) -> Payment {
        Payment { from: sender, to: self.name_account_or_default(), amount: NAME_PRICE }
    }

    /// What `buy_unique_name` does, given the outcome of the payment.
    pub open spec fn buy_unique_name_outcome(
        self,
        origin: Origin,
        did: Seq<u8>,
        name: Seq<u8>,
        paid: Result<(), &'static str>,
    ) -> Result<Storage, MetalogError> {
        match self.name_purchase_check(origin, did, name) {
            Err(e) => Err(e),
            Ok(sender) => match paid {
                Err(reason) => Err(MetalogError::Payment(reason)),
                Ok(_) => {
                    let m = MetalogView { unique_name: name, ..self.did_metalog(did) };
                    let s = self.write_back(sender, did, m);
                    Ok(
                        Storage {
                            un_meta: s.un_meta.insert(name, m),
                            un_owner: s.un_owner.insert(name, sender),
                            ..s
                        },
                    )
                },
            },
        }
    }

    /// What `change_license_code` does.
    pub open spec fn change_license_code_outcome(
        self,
        origin: Origin,
        did: Seq<u8>,
        license_code: u16,
    ) -> Result<Storage, MetalogError> {
        match self.owner_check(origin, did) {
            Err(e) => Err(e),
            Ok(sender) => Ok(
                self.write_back(sender, did, MetalogView { license_code, ..self.did_metalog(did) }),
            ),
        }
    }

    /// The checks that `change_storage_location` makes before writing.
    pub open spec fn location_change_check(
        self,
        origin: Origin,
        did: Seq<u8>,
        storage_location: Seq<u8>,
    ) -> Result<u64, MetalogError> {
        match signer(origin) {
            Err(e) => Err(e),
            Ok(_) => if storage_location.len() > BYTEARRAY_LIMIT_LOCATION {
                Err(MetalogError::BytearrayLimitLocation)
            } else {
                self.owner_check(origin, did)
            },
        }
    }

    /// What `change_storage_location` does.
    pub open spec fn change_storage_location_outcome(
        self,
        origin: Origin,
        did: Seq<u8>,
        storage_location: Seq<u8>,
    ) -> Result<Storage, MetalogError> {
        match self.location_change_check(origin, did, storage_location) {
            Err(e) => Err(e),
            Ok(sender) => Ok(
                self.write_back(
                    sender,
                    did,
                    MetalogView { storage_location, ..self.did_metalog(did) },
                ),
            ),
        }
    }

    /// The storage that genesis builds on `self` from `entries`: each
    /// `(account, license_code)` stores a genesis metalog for the account;
    /// an entry whose DID is already claimed, or whose store fails, is passed
    /// over.
    pub open spec fn genesis(self, entries: Seq<(u64, u16)>, now: u64) -> Storage
        decreases entries.len(),
    {
        if entries.len() == 0 {
            self
        } else {
            let before = self.genesis(entries.drop_last(), now);
            let (who, code) = entries.last();
            if before.did_owner.dom().contains(genesis_metalog(code, now).did) {
                before
            } else {
                match before.owner_store(who, genesis_metalog(code, now)) {
                    Ok(s) => s,
                    Err(_) => before,
                }
            }
        }
    }
}

} // verus!
