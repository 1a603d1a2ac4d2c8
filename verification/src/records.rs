//! The three kinds of record and what each holds.

use vstd::prelude::*;
use crate::identity::Identity;

verus! {

/// Bytes of a stored profile: owner, counter and two timestamps.
pub const PROFILE_DATA_LEN: usize = 32 + 8 + 8 + 8;

/// Bytes of a stored document: an 8-byte record tag, the owner, the
/// length-prefixed name, the index and the timestamp.
pub const DOCUMENT_LEN: usize = 8 + 32 + (4 + 64) + 8 + 8;

/// Bytes of a stored share: invitee, document index, three timestamps and two
/// flags.
pub const DOCUMENT_SHARE_LEN: usize = 32 + 8 + 8 + 8 + 8 + 1 + 1;

/// The longest document name, in bytes of UTF-8.
pub const MAX_NAME_LEN: usize = 64;

/// Why an operation was refused by the program itself.
#[derive(Clone, Copy, Debug, PartialEq, Eq, Structural)]
pub enum ErrorCode {
    /// The caller is not the identity that owns the profile or document.
    OnlyProfileOwnerCanAccess,
}

/// One per identity: the owner and the number of documents created so far.
#[derive(Clone, Copy, Debug, PartialEq)]
pub struct ProfileData {
    pub profile: Identity,
    pub document_count: u64,
    pub created: i64,
    pub updated: i64,
}

/// One per document: the owner, the name, and the owner's counter at the time
/// of creation.
#[derive(Clone, Debug, PartialEq)]
pub struct DocumentData {
    pub profile: Identity,
    pub name: String,
    pub index: u64,
    pub created: i64,
}

/// One per document and invitee: the grant, its advisory expiry and whether
/// it is switched on.
#[derive(Clone, Copy, Debug, PartialEq)]
pub struct DocumentShareData {
    pub invitee: Identity,
    pub document_index: u64,
    pub created: i64,
    pub updated: i64,
    pub valid_until: i64,
    pub is_public: bool,
    pub is_active: bool,
}

/// The byte length of a name as it is stored.
pub open spec fn name_len(name: Seq<char>) -> nat {
    vstd::utf8::encode_utf8(name).len()
}

/// The profile as `create_profile` leaves it.
pub open spec fn fresh_profile(owner: Identity, now: i64) -> ProfileData {
    ProfileData { profile: owner, document_count: 0, created: now, updated: now }
}

/// The profile after one more document was created at time `now`.
pub open spec fn advanced_profile(p: ProfileData, now: i64) -> ProfileData {
    ProfileData { document_count: (p.document_count + 1) as u64, updated: now, ..p }
}

/// The document that `owner` creates when their counter stands at `index`.
pub open spec fn fresh_document(owner: Identity, name: String, index: u64, now: i64) -> DocumentData {
    DocumentData { profile: owner, name, index, created: now }
}

/// The share as `create_profile_document_share` leaves it: active, not
/// public.
pub open spec fn fresh_share(invitee: Identity, document_index: u64, valid_until: i64, now: i64) -> DocumentShareData {
    DocumentShareData {
        invitee,
        document_index,
        created: now,
        updated: now,
        valid_until,
        is_public: false,
        is_active: true,
    }
}

/// The share after its owner toggled it at time `now`.
pub open spec fn toggled_share(s: DocumentShareData, now: i64) -> DocumentShareData {
    DocumentShareData { is_active: !s.is_active, updated: now, ..s }
}

/// Whether every byte of the key is zero.
pub open spec fn all_zero(id: Identity) -> bool {
    forall|i: int| 0 <= i < 32 ==> id@[i] == 0u8
}

impl Identity {
    /// The all-zero key that a record holds before it is filled in.
    pub fn zeroed() -> (r: Identity)
        ensures
            all_zero(r),
    {
        Identity { bytes: [0u8; 32] }
    }
}

impl ProfileData {
    /// A profile record as storage hands it out: all zero.
    pub fn zeroed() -> (r: ProfileData)
        ensures
            all_zero(r.profile),
            r.document_count == 0,
            r.created == 0,
            r.updated == 0,
    {
        ProfileData { profile: Identity::zeroed(), document_count: 0, created: 0, updated: 0 }
    }
}

impl DocumentData {
    /// A document record as storage hands it out: all zero, no name.
    pub fn zeroed() -> (r: DocumentData)
        ensures
            all_zero(r.profile),
            r.name@ == Seq::<char>::empty(),
            r.index == 0,
            r.created == 0,
    {
        DocumentData { profile: Identity::zeroed(), name: String::new(), index: 0, created: 0 }
    }

    /// Whether a name fits the space that a stored document has for it.
    pub fn name_fits(name: &String) -> (r: bool)
        ensures
            r == (name_len(name@) <= MAX_NAME_LEN),
    {
        name.as_str().as_bytes().len() <= MAX_NAME_LEN
    }
}

impl DocumentShareData {
    /// A share record as storage hands it out: all zero, inactive.
    pub fn zeroed() -> (r: DocumentShareData)
        ensures
            all_zero(r.invitee),
            r.document_index == 0,
            r.created == 0,
            r.updated == 0,
            r.valid_until == 0,
            !r.is_public,
            !r.is_active,
    {
        DocumentShareData {
            invitee: Identity::zeroed(),
            document_index: 0,
            created: 0,
            updated: 0,
            valid_until: 0,
            is_public: false,
            is_active: false,
        }
    }
}

} // verus!
