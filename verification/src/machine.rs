//! The registry as a state machine: an operation with its inputs is a value,
//! and applying it is one step.

use vstd::prelude::*;
use crate::address::{document_address, profile_address, share_address};
use crate::identity::Identity;
use crate::ledger::{
    create_profile_document_share_spec, create_profile_document_spec, create_profile_spec,
    toggle_profile_document_share_spec, Ledger, LedgerError, Record,
};
use crate::records::{DocumentData, DocumentShareData};

verus! {

/// One call of one of the four operations, with the time at which it runs.
#[derive(Clone, Debug)]
pub enum Operation {
    CreateProfile { signer: Identity, now: i64 },
    CreateProfileDocument { signer: Identity, name: String, now: i64 },
    CreateProfileDocumentShare {
        signer: Identity,
        document_index: u64,
        invitee: Identity,
        valid_until: i64,
        now: i64,
    },
    ToggleProfileDocumentShare { signer: Identity, document_index: u64, invitee: Identity, now: i64 },
}

/// The state after an operation, and whether it committed.
pub open spec fn step(s: Map<Seq<u8>, Record>, program_id: Seq<u8>, op: Operation) -> (
    Map<Seq<u8>, Record>,
    Result<(), LedgerError>,
) {
    match op {
        Operation::CreateProfile { signer, now } => create_profile_spec(s, program_id, signer, now),
        Operation::CreateProfileDocument { signer, name, now } => create_profile_document_spec(
            s,
            program_id,
            signer,
            name,
            now,
        ),
        Operation::CreateProfileDocumentShare {
            signer,
            document_index,
            invitee,
            valid_until,
            now,
        } => create_profile_document_share_spec(
            s,
            program_id,
            signer,
            document_index,
            invitee,
            valid_until,
            now,
        ),
        Operation::ToggleProfileDocumentShare {
            signer,
            document_index,
            invitee,
            now,
        } => toggle_profile_document_share_spec(s, program_id, signer, document_index, invitee, now),
    }
}

/// The state after a run of operations, failed ones included: a failed
/// operation leaves the state as it was.
pub open spec fn run(s: Map<Seq<u8>, Record>, program_id: Seq<u8>, ops: Seq<Operation>) -> Map<
    Seq<u8>,
    Record,
>
    decreases ops.len(),
{
    if ops.len() == 0 {
        s
    } else {
        step(run(s, program_id, ops.drop_last()), program_id, ops.last()).0
    }
}

/// The counter of the profile of `owner`, if that profile exists.
pub open spec fn counter_of(s: Map<Seq<u8>, Record>, program_id: Seq<u8>, owner: Seq<u8>) -> Option<u64> {
    match profile_address(program_id, owner) {
        Some(a) => if s.contains_key(a) {
            match s[a] {
                Record::Profile(p) => Some(p.document_count),
                _ => None,
            }
        } else {
            None
        },
        None => None,
    }
}

/// The document of `owner` with the given index, if it exists.
pub open spec fn document_of(
    s: Map<Seq<u8>, Record>,
    program_id: Seq<u8>,
    owner: Seq<u8>,
    index: u64,
) -> Option<DocumentData> {
    match document_address(program_id, owner, index) {
        Some(a) => if s.contains_key(a) {
            match s[a] {
                Record::Document(d) => Some(d),
                _ => None,
            }
        } else {
            None
        },
        None => None,
    }
}

/// The share of `invitee` in the document of `owner` with the given index, if
/// it exists.
pub open spec fn share_of(
    s: Map<Seq<u8>, Record>,
    program_id: Seq<u8>,
    owner: Seq<u8>,
    index: u64,
    invitee: Seq<u8>,
) -> Option<DocumentShareData> {
    match document_address(program_id, owner, index) {
        Some(d) => match share_address(program_id, d, invitee) {
            Some(a) => if s.contains_key(a) {
                match s[a] {
                    Record::Share(sh) => Some(sh),
                    _ => None,
                }
            } else {
                None
            },
            None => None,
        },
        None => None,
    }
}

impl Ledger {
    /// Applies one operation: it commits as a whole or changes nothing.
    pub fn apply(&mut self, op: Operation) -> (r: Result<(), LedgerError>)
        ensures
            (final(self)@, r) == step(old(self)@, old(self).program()@, op),
            final(self).program() == old(self).program(),
    {
        match op {
            Operation::CreateProfile { signer, now } => self.create_profile(signer, now),
            Operation::CreateProfileDocument { signer, name, now } => self.create_profile_document(
                signer,
                name,
                now,
            ),
            Operation::CreateProfileDocumentShare {
                signer,
                document_index,
                invitee,
                valid_until,
                now,
            } => self.create_profile_document_share(
                signer,
                document_index,
                invitee,
                valid_until,
                now,
            ),
            Operation::ToggleProfileDocumentShare {
                signer,
                document_index,
                invitee,
                now,
            } => self.toggle_profile_document_share(signer, document_index, invitee, now),
        }
    }
}

} // verus!
