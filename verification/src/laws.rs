//! What holds of the registry whatever is done with it.

use vstd::prelude::*;
use crate::address::{document_address, profile_address};
use crate::identity::Identity;
use crate::ledger::{
    create_profile_document_share_at_spec, create_profile_document_share_spec,
    create_profile_document_spec, create_profile_spec, toggle_profile_document_share_spec,
    LedgerError, Record,
};
use crate::machine::{counter_of, document_of, run, share_of, step, Operation};
use crate::records::{
    fresh_document, fresh_profile, fresh_share, toggled_share, DocumentData, DocumentShareData,
    ErrorCode, ProfileData,
};

verus! {

/// An operation that fails leaves every record as it was.
pub proof fn law_failure_changes_nothing(s: Map<Seq<u8>, Record>, program_id: Seq<u8>, op: Operation)
    requires
        step(s, program_id, op).1 is Err,
    ensures
        step(s, program_id, op).0 == s,
{
}

/// A profile is created once. Whatever the first creation did, a second one
/// for the same identity is refused as a duplicate and changes nothing; and
/// where the first one succeeded, it left a profile with no documents.
pub proof fn law_profile_created_once(
    s: Map<Seq<u8>, Record>,
    program_id: Seq<u8>,
    signer: Identity,
    t0: i64,
    t1: i64,
)
    requires
        profile_address(program_id, signer@) is Some,
    ensures
        ({
            let first = create_profile_spec(s, program_id, signer, t0);
            let second = create_profile_spec(first.0, program_id, signer, t1);
            &&& second.1 == Err::<(), LedgerError>(LedgerError::AccountAlreadyInUse)
            &&& second.0 == first.0
            &&& first.1 is Ok ==> {
                &&& counter_of(s, program_id, signer@) is None
                &&& counter_of(first.0, program_id, signer@) == Some(0u64)
                &&& first.0[profile_address(program_id, signer@).unwrap()] == Record::Profile(
                    fresh_profile(signer, t0),
                )
            }
        }),
{
}

/// A new document takes the owner's counter as its index, and the counter
/// advances by one.
pub proof fn law_document_takes_counter(
    s: Map<Seq<u8>, Record>,
    program_id: Seq<u8>,
    signer: Identity,
    name: String,
    now: i64,
)
    requires
        create_profile_document_spec(s, program_id, signer, name, now).1 is Ok,
    ensures
        ({
            let after = create_profile_document_spec(s, program_id, signer, name, now).0;
            let n = counter_of(s, program_id, signer@);
            &&& n is Some
            &&& n.unwrap() < u64::MAX
            &&& document_of(s, program_id, signer@, n.unwrap()) is None
            &&& document_of(after, program_id, signer@, n.unwrap()) == Some(
                fresh_document(signer, name, n.unwrap(), now),
            )
            &&& counter_of(after, program_id, signer@) == Some((n.unwrap() + 1) as u64)
        }),
{
}

/// Only the owner of a document can share it: for any other caller the
/// operation fails and no share is created. Where the share's address is
/// free, the failure is `OnlyProfileOwnerCanAccess`.
pub proof fn law_only_owner_shares(
    s: Map<Seq<u8>, Record>,
    document: Seq<u8>,
    share: Seq<u8>,
    d: DocumentData,
    caller: Identity,
    invitee: Identity,
    valid_until: i64,
    now: i64,
)
    requires
        s.contains_key(document),
        s[document] == Record::Document(d),
        d.profile@ != caller@,
    ensures
        ({
            let after = create_profile_document_share_at_spec(
                s,
                document,
                share,
                caller,
                invitee,
                valid_until,
                now,
            );
            &&& after.0 == s
            &&& after.1 is Err
            &&& !s.contains_key(share) ==> after.1 == Err::<(), LedgerError>(
                LedgerError::Program(ErrorCode::OnlyProfileOwnerCanAccess),
            )
        }),
{
}

/// An invitee is invited to a document once. The first invitation leaves an
/// active share with the expiry it was given; a second one is refused as a
/// duplicate, and the share keeps the first expiry.
pub proof fn law_share_created_once(
    s: Map<Seq<u8>, Record>,
    program_id: Seq<u8>,
    signer: Identity,
    document_index: u64,
    invitee: Identity,
    valid_until: i64,
    now: i64,
    later_valid_until: i64,
    later: i64,
)
    requires
        create_profile_document_share_spec(
            s,
            program_id,
            signer,
            document_index,
            invitee,
            valid_until,
            now,
        ).1 is Ok,
    ensures
        ({
            let first = create_profile_document_share_spec(
                s,
                program_id,
                signer,
                document_index,
                invitee,
                valid_until,
                now,
            );
            let second = create_profile_document_share_spec(
                first.0,
                program_id,
                signer,
                document_index,
                invitee,
                later_valid_until,
                later,
            );
            let d = document_of(s, program_id, signer@, document_index);
            &&& d is Some
            &&& d.unwrap().profile@ == signer@
            &&& share_of(s, program_id, signer@, document_index, invitee@) is None
            &&& share_of(first.0, program_id, signer@, document_index, invitee@) == Some(
                fresh_share(invitee, d.unwrap().index, valid_until, now),
            )
            &&& second.1 == Err::<(), LedgerError>(LedgerError::AccountAlreadyInUse)
            &&& second.0 == first.0
        }),
{
}

/// A toggle flips the share and notes the time; a second toggle flips it
/// back and notes the time again. Nothing else of the share changes.
pub proof fn law_toggle_twice_restores(
    s: Map<Seq<u8>, Record>,
    program_id: Seq<u8>,
    signer: Identity,
    document_index: u64,
    invitee: Identity,
    t1: i64,
    t2: i64,
)
    requires
        toggle_profile_document_share_spec(s, program_id, signer, document_index, invitee, t1).1 is Ok,
    ensures
        ({
            let first = toggle_profile_document_share_spec(
                s,
                program_id,
                signer,
                document_index,
                invitee,
                t1,
            );
            let second = toggle_profile_document_share_spec(
                first.0,
                program_id,
                signer,
                document_index,
                invitee,
                t2,
            );
            let before = share_of(s, program_id, signer@, document_index, invitee@);
            let once = share_of(first.0, program_id, signer@, document_index, invitee@);
            let twice = share_of(second.0, program_id, signer@, document_index, invitee@);
            &&& before is Some
            &&& once == Some(toggled_share(before.unwrap(), t1))
            &&& once.unwrap().is_active == !before.unwrap().is_active
            &&& once.unwrap().updated == t1
            &&& second.1 is Ok
            &&& twice == Some(toggled_share(once.unwrap(), t2))
            &&& twice.unwrap().is_active == before.unwrap().is_active
            &&& twice.unwrap().updated == t2
            &&& twice.unwrap() == (DocumentShareData { updated: t2, ..before.unwrap() })
        }),
{
}

/// Whether `owner` has a document with index `i`, stored under that index.
pub open spec fn has_document(s: Map<Seq<u8>, Record>, program_id: Seq<u8>, owner: Identity, i: u64) -> bool {
    match document_of(s, program_id, owner@, i) {
        Some(d) => d.index == i && d.profile == owner,
        None => false,
    }
}

/// Whether the profile `p`, found at `a`, sits at the address of its owner
/// and has a document for every index below its counter.
pub open spec fn profile_in_order(
    s: Map<Seq<u8>, Record>,
    program_id: Seq<u8>,
    a: Seq<u8>,
    p: ProfileData,
) -> bool {
    &&& profile_address(program_id, p.profile@) == Some(a)
    &&& forall|i: u64| i < p.document_count ==> #[trigger] has_document(s, program_id, p.profile, i)
}

/// Whether every profile of the registry is in order: the documents of an
/// owner carry the indices 0, 1, 2 and so on, up to the owner's counter, with
/// no gap.
pub open spec fn indices_in_order(s: Map<Seq<u8>, Record>, program_id: Seq<u8>) -> bool {
    forall|a: Seq<u8>| #[trigger]
        s.contains_key(a) ==> match s[a] {
            Record::Profile(p) => profile_in_order(s, program_id, a, p),
            _ => true,
        }
}

/// No operation removes or changes a document.
pub proof fn law_documents_stay(s: Map<Seq<u8>, Record>, program_id: Seq<u8>, op: Operation, a: Seq<u8>)
    requires
        s.contains_key(a),
        s[a] is Document,
    ensures
        step(s, program_id, op).0.contains_key(a),
        step(s, program_id, op).0[a] == s[a],
{
}

/// No operation changes whom a share is for, which document it is about,
/// when it was created or when it expires. A share changes only by a toggle
/// that succeeds, which flips it and notes the time.
pub proof fn law_share_keeps_its_terms(s: Map<Seq<u8>, Record>, program_id: Seq<u8>, op: Operation, a: Seq<u8>)
    requires
        s.contains_key(a),
        s[a] is Share,
    ensures
        ({
            let after = step(s, program_id, op).0;
            &&& after.contains_key(a)
            &&& after[a] is Share
            &&& after[a]->Share_0.invitee == s[a]->Share_0.invitee
            &&& after[a]->Share_0.document_index == s[a]->Share_0.document_index
            &&& after[a]->Share_0.created == s[a]->Share_0.created
            &&& after[a]->Share_0.valid_until == s[a]->Share_0.valid_until
            &&& after[a]->Share_0.is_public == s[a]->Share_0.is_public
            &&& after[a] != s[a] ==> {
                &&& op is ToggleProfileDocumentShare
                &&& step(s, program_id, op).1 is Ok
                &&& after[a] == Record::Share(
                    toggled_share(s[a]->Share_0, op->ToggleProfileDocumentShare_now),
                )
            }
        }),
{
}

/// A profile keeps its owner and its time of creation, and its counter never
/// goes down. The counter moves only when a document is created for the
/// profile at this very address, and then by one; what callers with other
/// profiles do in between does not touch it.
pub proof fn law_counter_moves_only_by_owner(
    s: Map<Seq<u8>, Record>,
    program_id: Seq<u8>,
    op: Operation,
    a: Seq<u8>,
)
    requires
        s.contains_key(a),
        s[a] is Profile,
    ensures
        ({
            let after = step(s, program_id, op);
            let p = s[a]->Profile_0;
            &&& after.0.contains_key(a)
            &&& after.0[a] is Profile
            &&& after.0[a]->Profile_0.profile == p.profile
            &&& after.0[a]->Profile_0.created == p.created
            &&& after.0[a]->Profile_0.document_count >= p.document_count
            &&& after.0[a] != s[a] ==> {
                &&& op is CreateProfileDocument
                &&& after.1 is Ok
                &&& profile_address(program_id, op->CreateProfileDocument_signer@) == Some(a)
                &&& op->CreateProfileDocument_signer@ == p.profile@
                &&& after.0[a]->Profile_0.document_count == p.document_count + 1
            }
        }),
{
}

/// Every operation keeps the indices in order.
pub proof fn law_step_keeps_indices_in_order(s: Map<Seq<u8>, Record>, program_id: Seq<u8>, op: Operation)
    requires
        indices_in_order(s, program_id),
    ensures
        indices_in_order(step(s, program_id, op).0, program_id),
{
    let t = step(s, program_id, op).0;
    assert forall|a: Seq<u8>| #[trigger] t.contains_key(a) implies match t[a] {
        Record::Profile(p) => profile_in_order(t, program_id, a, p),
        _ => true,
    } by {
        match t[a] {
            Record::Profile(p) => {
                if s.contains_key(a) {
                    law_counter_moves_only_by_owner(s, program_id, op, a);
                    let q = s[a]->Profile_0;
                    assert(profile_in_order(s, program_id, a, q));
                    assert forall|i: u64| i < p.document_count implies #[trigger] has_document(
                        t,
                        program_id,
                        p.profile,
                        i,
                    ) by {
                        if i < q.document_count {
                            assert(has_document(s, program_id, q.profile, i));
                            law_documents_stay(
                                s,
                                program_id,
                                op,
                                document_address(program_id, q.profile@, i).unwrap(),
                            );
                        } else {
                            Identity::lemma_view_determines(
                                op->CreateProfileDocument_signer,
                                q.profile,
                            );
                        }
                    }
                }
            },
            _ => {},
        }
    }
}

/// The empty registry is in order, and so is every registry reached from one
/// in order by any operations of any callers, in any order, whether they
/// succeed or fail.
pub proof fn law_run_keeps_indices_in_order(s: Map<Seq<u8>, Record>, program_id: Seq<u8>, ops: Seq<Operation>)
    requires
        indices_in_order(s, program_id),
    ensures
        indices_in_order(Map::<Seq<u8>, Record>::empty(), program_id),
        indices_in_order(run(s, program_id, ops), program_id),
    decreases ops.len(),
{
    if ops.len() > 0 {
        law_run_keeps_indices_in_order(s, program_id, ops.drop_last());
        law_step_keeps_indices_in_order(run(s, program_id, ops.drop_last()), program_id, ops.last());
    }
}

/// The state after `signer` creates one document after another, with the
/// given names at the given times, and whether every creation succeeded.
pub open spec fn create_documents(
    s: Map<Seq<u8>, Record>,
    program_id: Seq<u8>,
    signer: Identity,
    names: Seq<String>,
    times: Seq<i64>,
) -> (Map<Seq<u8>, Record>, bool)
    decreases names.len(),
{
    if names.len() == 0 {
        (s, true)
    } else {
        let before = create_documents(s, program_id, signer, names.drop_last(), times.drop_last());
        let last = create_profile_document_spec(
            before.0,
            program_id,
            signer,
            names.last(),
            times.last(),
        );
        (last.0, before.1 && last.1 is Ok)
    }
}

/// Documents created one after another get consecutive indices: with the
/// counter at `n` before, the `i`-th of them has index `n + i`, and the
/// counter ends at `n` plus their number.
pub proof fn law_sequential_documents(
    s: Map<Seq<u8>, Record>,
    program_id: Seq<u8>,
    signer: Identity,
    names: Seq<String>,
    times: Seq<i64>,
)
    requires
        names.len() == times.len(),
        counter_of(s, program_id, signer@) is Some,
        create_documents(s, program_id, signer, names, times).1,
    ensures
        ({
            let after = create_documents(s, program_id, signer, names, times).0;
            let n = counter_of(s, program_id, signer@).unwrap();
            &&& n + names.len() <= u64::MAX
            &&& counter_of(after, program_id, signer@) == Some((n + names.len()) as u64)
            &&& forall|i: int|
                0 <= i < names.len() ==> document_of(after, program_id, signer@, (n + i) as u64)
                    == Some(fresh_document(signer, #[trigger] names[i], (n + i) as u64, times[i]))
        }),
    decreases names.len(),
{
    if names.len() > 0 {
        let k = names.len() - 1;
        let n = counter_of(s, program_id, signer@).unwrap();
        let before = create_documents(s, program_id, signer, names.drop_last(), times.drop_last()).0;
        let after = create_documents(s, program_id, signer, names, times).0;
        law_sequential_documents(s, program_id, signer, names.drop_last(), times.drop_last());
        law_document_takes_counter(before, program_id, signer, names.last(), times.last());
        let op = Operation::CreateProfileDocument {
            signer,
            name: names.last(),
            now: times.last(),
        };
        assert(step(before, program_id, op).0 == after);
        assert forall|i: int| 0 <= i < names.len() implies document_of(
            after,
            program_id,
            signer@,
            (n + i) as u64,
        ) == Some(fresh_document(signer, #[trigger] names[i], (n + i) as u64, times[i])) by {
            if i < k {
                assert(names.drop_last()[i] == names[i]);
                assert(times.drop_last()[i] == times[i]);
                law_documents_stay(
                    before,
                    program_id,
                    op,
                    document_address(program_id, signer@, (n + i) as u64).unwrap(),
                );
            }
        }
    }
}

/// Whether `op`, applied to `s`, creates a document under the profile at `a`.
pub open spec fn creates_document_at(
    s: Map<Seq<u8>, Record>,
    program_id: Seq<u8>,
    op: Operation,
    a: Seq<u8>,
) -> bool {
    &&& op is CreateProfileDocument
    &&& step(s, program_id, op).1 is Ok
    &&& profile_address(program_id, op->CreateProfileDocument_signer@) == Some(a)
}

/// How many of the operations of a run create a document under the profile
/// at `a`.
pub open spec fn documents_created(
    s: Map<Seq<u8>, Record>,
    program_id: Seq<u8>,
    ops: Seq<Operation>,
    a: Seq<u8>,
) -> nat
    decreases ops.len(),
{
    if ops.len() == 0 {
        0
    } else {
        let before = documents_created(s, program_id, ops.drop_last(), a);
        if creates_document_at(run(s, program_id, ops.drop_last()), program_id, ops.last(), a) {
            before + 1
        } else {
            before
        }
    }
}

/// Records are never removed, and an address never changes the kind of
/// record that it holds.
pub proof fn law_records_stay(s: Map<Seq<u8>, Record>, program_id: Seq<u8>, op: Operation, a: Seq<u8>)
    requires
        s.contains_key(a),
    ensures
        ({
            let after = step(s, program_id, op).0;
            &&& after.contains_key(a)
            &&& s[a] is Profile <==> after[a] is Profile
            &&& s[a] is Document <==> after[a] is Document
            &&& s[a] is Share <==> after[a] is Share
        }),
{
}

/// A profile's counter is the number of documents created under it: over any
/// run of operations it grows by exactly the number of successful document
/// creations for this profile, and a profile created during the run counts
/// from zero.
pub proof fn law_counter_counts_documents(
    s: Map<Seq<u8>, Record>,
    program_id: Seq<u8>,
    ops: Seq<Operation>,
    a: Seq<u8>,
)
    ensures
        ({
            let after = run(s, program_id, ops);
            let made = documents_created(s, program_id, ops, a);
            &&& s.contains_key(a) ==> after.contains_key(a)
            &&& !after.contains_key(a) ==> made == 0
            &&& after.contains_key(a) && !(after[a] is Profile) ==> made == 0
            &&& after.contains_key(a) && after[a] is Profile ==> after[a]->Profile_0.document_count == (
            if s.contains_key(a) {
                s[a]->Profile_0.document_count + made
            } else {
                made as int
            })
        }),
    decreases ops.len(),
{
    if ops.len() > 0 {
        let before = run(s, program_id, ops.drop_last());
        let op = ops.last();
        law_counter_counts_documents(s, program_id, ops.drop_last(), a);
        if before.contains_key(a) {
            law_records_stay(before, program_id, op, a);
            if before[a] is Profile {
                law_counter_moves_only_by_owner(before, program_id, op, a);
            }
        }
        if s.contains_key(a) {
            law_run_keeps_records(s, program_id, ops.drop_last(), a);
        }
    }
}

/// Over any run of operations, what was there stays there, as the kind of
/// record it was.
pub proof fn law_run_keeps_records(
    s: Map<Seq<u8>, Record>,
    program_id: Seq<u8>,
    ops: Seq<Operation>,
    a: Seq<u8>,
)
    requires
        s.contains_key(a),
    ensures
        ({
            let after = run(s, program_id, ops);
            &&& after.contains_key(a)
            &&& s[a] is Profile <==> after[a] is Profile
            &&& s[a] is Document <==> after[a] is Document
            &&& s[a] is Share <==> after[a] is Share
            &&& s[a] is Document ==> after[a] == s[a]
        }),
    decreases ops.len(),
{
    if ops.len() > 0 {
        law_run_keeps_records(s, program_id, ops.drop_last(), a);
        law_records_stay(run(s, program_id, ops.drop_last()), program_id, ops.last(), a);
        if s[a] is Document {
            law_documents_stay(run(s, program_id, ops.drop_last()), program_id, ops.last(), a);
        }
    }
}

} // verus!
