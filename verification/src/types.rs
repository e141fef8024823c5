//! The records, origins, events and errors of the metalog module.
use vstd::prelude::*;
use crate::store::Stored;

verus! {

/// Longest DID, in bytes, that a metalog may have.
pub const BYTEARRAY_LIMIT_DID: usize = 100;

/// Longest storage location, in bytes, that a metalog may have.
pub const BYTEARRAY_LIMIT_LOCATION: usize = 100;

/// Longest unique name, in bytes, that can be bought.
pub const BYTEARRAY_LIMIT_NAME: usize = 50;

/// The license code that stands for a request to delete; no metalog may be
/// created with it.
pub const DELETE_LICENSE: u16 = 1;

/// What a unique name costs, paid to the unique name account.
pub const NAME_PRICE: u64 = 1000;

/// A metadata record, found by its DID (its primary key, which never changes).
#[derive(Debug, Clone, PartialEq, Eq)]
pub struct Metalog {
    pub did: Vec<u8>,
    /// The unique name bought for the record; `[0]` while it has none.
    pub unique_name: Vec<u8>,
    /// 0: no license code; 1: delete request.
    pub license_code: u16,
    pub storage_location: Vec<u8>,
    /// When the record was created.
    pub time: u64,
}

/// A metalog as plain values.
pub struct MetalogView {
    pub did: Seq<u8>,
    pub unique_name: Seq<u8>,
    pub license_code: u16,
    pub storage_location: Seq<u8>,
    pub time: u64,
}

impl View for Metalog {
    type V = MetalogView;

    open spec fn view(&self) -> MetalogView {
        MetalogView {
            did: self.did@,
            unique_name: self.unique_name@,
            license_code: self.license_code,
            storage_location: self.storage_location@,
            time: self.time,
        }
    }
}

impl MetalogView {
    /// The metalog that reading an absent key gives: all fields empty or zero.
    pub open spec fn empty() -> MetalogView {
        MetalogView {
            did: Seq::empty(),
            unique_name: Seq::empty(),
            license_code: 0,
            storage_location: Seq::empty(),
            time: 0,
        }
    }
}

/// The unique name of a record for which none was bought.
pub open spec fn no_name() -> Seq<u8> {
    seq![0u8]
}

impl Default for Metalog {
    fn default() -> (r: Metalog)
        ensures
            r@ == MetalogView::empty(),
    {
        Metalog {
            did: Vec::new(),
            unique_name: Vec::new(),
            license_code: 0,
            storage_location: Vec::new(),
            time: 0,
        }
    }
}

impl Stored for Metalog {
    fn same(&self, other: &Self) -> (r: bool) {
        self.did.same(&other.did) && self.unique_name.same(&other.unique_name)
            && self.license_code == other.license_code && self.storage_location.same(
            &other.storage_location,
        ) && self.time == other.time
    }

    fn duplicate(&self) -> (r: Self) {
        Metalog {
            did: self.did.duplicate(),
            unique_name: self.unique_name.duplicate(),
            license_code: self.license_code,
            storage_location: self.storage_location.duplicate(),
            time: self.time,
        }
    }
}

/// Who a call comes from.
#[derive(Debug, Clone, Copy, PartialEq, Eq)]
pub enum Origin {
    /// The chain's root authority.
    Root,
    /// A signed call from an account.
    Signed(u64),
    /// An unsigned call.
    Unsigned,
}

impl Origin {
    /// A call signed by `who`.
    pub fn signed(who: u64) -> (r: Origin)
        ensures
            r == Origin::Signed(who),
    {
        Origin::Signed(who)
    }
}

/// The account that signed a call: an error unless the call is signed.
pub open spec fn signer(origin: Origin) -> Result<u64, MetalogError> {
    match origin {
        Origin::Signed(who) => Ok(who),
        _ => Err(MetalogError::BadOrigin),
    }
}

/// The account that signed `origin` (0 for an unsigned origin).
pub open spec fn account_of(origin: Origin) -> u64 {
    match origin {
        Origin::Signed(who) => who,
        _ => 0,
    }
}

/// The account that signed `origin`, or `BadOrigin`.
pub fn ensure_signed(origin: Origin) -> (r: Result<u64, MetalogError>)
    ensures
        r == signer(origin),
{
    match origin {
        Origin::Signed(who) => Ok(who),
        _ => Err(MetalogError::BadOrigin),
    }
}

/// Why a call was refused. Storage is unchanged whenever a call is refused.
#[derive(Debug, Clone, Copy, PartialEq, Eq)]
pub enum MetalogError {
    /// The call was not signed.
    BadOrigin,
    DidAlreadyClaimed,
    DidNotExist,
    DidNoOwner,
    UnAlreadyClaimed,
    LicenseInvalid,
    Overflow,
    Underflow,
    NotOwner,
    OpenNameAccountClaimed,
    BytearrayLimitDid,
    BytearrayLimitLocation,
    BytearrayLimitName,
    /// The payment for a unique name failed, for the reason given.
    Payment(&'static str),
}

/// The text of each error.
pub open spec fn error_text(e: MetalogError) -> Seq<char> {
    match e {
        MetalogError::BadOrigin => "bad origin: expected to be a signed origin"@,
        MetalogError::DidAlreadyClaimed => "This DID has already been claimed."@,
        MetalogError::DidNotExist => "This DID does not exist"@,
        MetalogError::DidNoOwner => "No one owens this did"@,
        MetalogError::UnAlreadyClaimed => "This unique name has already been claimed."@,
        MetalogError::LicenseInvalid => "Invalid license code"@,
        MetalogError::Overflow => "Overflow adding new metadata"@,
        MetalogError::Underflow => "Underflow removing metadata"@,
        MetalogError::NotOwner => "You are not the owner"@,
        MetalogError::OpenNameAccountClaimed => "Unique name account already claimed"@,
        MetalogError::BytearrayLimitDid => "DID bytearray is too large"@,
        MetalogError::BytearrayLimitLocation => "Location bytearray is too large"@,
        MetalogError::BytearrayLimitName => "Name bytearray is too large"@,
        MetalogError::Payment(reason) => reason@,
    }
}

impl MetalogError {
    /// The text of the error.
    pub fn as_str(&self) -> (r: &'static str)
        ensures
            r@ == error_text(*self),
    {
        match self {
            MetalogError::BadOrigin => "bad origin: expected to be a signed origin",
            MetalogError::DidAlreadyClaimed => "This DID has already been claimed.",
            MetalogError::DidNotExist => "This DID does not exist",
            MetalogError::DidNoOwner => "No one owens this did",
            MetalogError::UnAlreadyClaimed => "This unique name has already been claimed.",
            MetalogError::LicenseInvalid => "Invalid license code",
            MetalogError::Overflow => "Overflow adding new metadata",
            MetalogError::Underflow => "Underflow removing metadata",
            MetalogError::NotOwner => "You are not the owner",
            MetalogError::OpenNameAccountClaimed => "Unique name account already claimed",
            MetalogError::BytearrayLimitDid => "DID bytearray is too large",
            MetalogError::BytearrayLimitLocation => "Location bytearray is too large",
            MetalogError::BytearrayLimitName => "Name bytearray is too large",
            MetalogError::Payment(reason) => *reason,
        }
    }
}

/// What a successful call reports.
#[derive(Debug, Clone, PartialEq, Eq)]
pub enum Event {
    /// `(owner, time, did)`: a metalog was created.
    Stored(u64, u64, Vec<u8>),
    /// `(sender, receiver, did)`: a metalog changed hands.
    TransferOwnership(u64, u64, Vec<u8>),
    /// `(owner, did, license_code)`.
    LicenseUpdated(u64, Vec<u8>, u16),
    /// `(owner, did, storage_location)`.
    LocationUpdated(u64, Vec<u8>, Vec<u8>),
    /// `(owner, did, unique_name)`.
    NameUpdated(u64, Vec<u8>, Vec<u8>),
}

/// An event as plain values.
pub enum EventView {
    Stored(u64, u64, Seq<u8>),
    TransferOwnership(u64, u64, Seq<u8>),
    LicenseUpdated(u64, Seq<u8>, u16),
    LocationUpdated(u64, Seq<u8>, Seq<u8>),
    NameUpdated(u64, Seq<u8>, Seq<u8>),
}

impl View for Event {
    type V = EventView;

    open spec fn view(&self) -> EventView {
        match self {
            Event::Stored(who, time, did) => EventView::Stored(*who, *time, did@),
            Event::TransferOwnership(from, to, did) => EventView::TransferOwnership(
                *from,
                *to,
                did@,
            ),
            Event::LicenseUpdated(who, did, code) => EventView::LicenseUpdated(*who, did@, *code),
            Event::LocationUpdated(who, did, loc) => EventView::LocationUpdated(*who, did@, loc@),
            Event::NameUpdated(who, did, name) => EventView::NameUpdated(*who, did@, name@),
        }
    }
}

/// A transfer of funds that a call asks the caller to make.
#[derive(Debug, Clone, Copy, PartialEq, Eq)]
pub struct Payment {
    pub from: u64,
    pub to: u64,
    pub amount: u64,
}

} // verus!
