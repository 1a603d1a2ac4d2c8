use vault::address::{
    find_document_address, find_profile_address, find_share_address, program_id,
};
use vault::identity::Identity;
use vault::ledger::{Account, Ledger, LedgerError, Record};
use vault::machine::Operation;
use vault::records::{DocumentData, DocumentShareData, ErrorCode, ProfileData};

fn id(n: u8) -> Identity {
    Identity::new([n; 32])
}

fn profile_at(ledger: &Ledger, owner: &Identity) -> Option<ProfileData> {
    let address = find_profile_address(&ledger.program_id(), owner).unwrap().address;
    match ledger.get(&address) {
        Some(Record::Profile(p)) => Some(*p),
        _ => None,
    }
}

fn document_at(ledger: &Ledger, owner: &Identity, index: u64) -> Option<DocumentData> {
    let address = find_document_address(&ledger.program_id(), owner, index).unwrap().address;
    match ledger.get(&address) {
        Some(Record::Document(d)) => Some(d.clone()),
        _ => None,
    }
}

fn share_at(ledger: &Ledger, owner: &Identity, index: u64, invitee: &Identity) -> Option<DocumentShareData> {
    let document = find_document_address(&ledger.program_id(), owner, index).unwrap().address;
    let address = find_share_address(&ledger.program_id(), &document, invitee).unwrap().address;
    match ledger.get(&address) {
        Some(Record::Share(s)) => Some(*s),
        _ => None,
    }
}

#[test]
fn new_registry_is_empty() {
    let ledger = Ledger::new(program_id());
    assert_eq!(ledger.program_id(), program_id());
    assert_eq!(ledger.get(&id(1)), None);
    assert_eq!(profile_at(&ledger, &id(1)), None);
}

#[test]
fn profile_is_created_once() {
    let mut ledger = Ledger::new(program_id());
    assert_eq!(ledger.create_profile(id(1), 100), Ok(()));
    let first = profile_at(&ledger, &id(1)).unwrap();
    assert_eq!(first, ProfileData { profile: id(1), document_count: 0, created: 100, updated: 100 });
    assert_eq!(ledger.create_profile(id(1), 200), Err(LedgerError::AccountAlreadyInUse));
    assert_eq!(profile_at(&ledger, &id(1)), Some(first));
}

#[test]
fn profiles_of_two_identities_are_apart() {
    let mut ledger = Ledger::new(program_id());
    assert_eq!(ledger.create_profile(id(1), 100), Ok(()));
    assert_eq!(ledger.create_profile(id(2), 150), Ok(()));
    assert_eq!(profile_at(&ledger, &id(1)).unwrap().created, 100);
    assert_eq!(profile_at(&ledger, &id(2)).unwrap().created, 150);
    assert_eq!(profile_at(&ledger, &id(2)).unwrap().profile, id(2));
}

#[test]
fn document_needs_a_profile() {
    let mut ledger = Ledger::new(program_id());
    assert_eq!(
        ledger.create_profile_document(id(1), String::from("a"), 5),
        Err(LedgerError::AccountNotInitialized)
    );
    assert_eq!(document_at(&ledger, &id(1), 0), None);
}

#[test]
fn documents_get_consecutive_indices() {
    let mut ledger = Ledger::new(program_id());
    assert_eq!(ledger.create_profile(id(1), 0), Ok(()));
    assert_eq!(ledger.create_profile(id(2), 0), Ok(()));
    for k in 0..12u64 {
        assert_eq!(profile_at(&ledger, &id(1)).unwrap().document_count, k);
        let name = format!("doc-{}", k);
        assert_eq!(ledger.create_profile_document(id(1), name.clone(), 10 + k as i64), Ok(()));
        // another owner's operations in between
        assert_eq!(ledger.create_profile_document(id(2), String::from("other"), 1), Ok(()));
        assert_eq!(
            document_at(&ledger, &id(1), k),
            Some(DocumentData { profile: id(1), name, index: k, created: 10 + k as i64 })
        );
        assert_eq!(document_at(&ledger, &id(1), k + 1), None);
    }
    let p = profile_at(&ledger, &id(1)).unwrap();
    assert_eq!(p.document_count, 12);
    assert_eq!(p.updated, 21);
    assert_eq!(p.created, 0);
    for k in 0..12u64 {
        assert_eq!(document_at(&ledger, &id(1), k).unwrap().index, k);
        assert_eq!(document_at(&ledger, &id(2), k).unwrap().index, k);
    }
    assert_eq!(profile_at(&ledger, &id(2)).unwrap().document_count, 12);
}

#[test]
fn document_name_is_bounded() {
    let mut ledger = Ledger::new(program_id());
    assert_eq!(ledger.create_profile(id(1), 0), Ok(()));
    assert_eq!(
        ledger.create_profile_document(id(1), "n".repeat(65), 1),
        Err(LedgerError::NameTooLong)
    );
    assert_eq!(profile_at(&ledger, &id(1)).unwrap().document_count, 0);
    assert_eq!(document_at(&ledger, &id(1), 0), None);
    assert_eq!(ledger.create_profile_document(id(1), "n".repeat(64), 1), Ok(()));
    assert_eq!(profile_at(&ledger, &id(1)).unwrap().document_count, 1);
}

#[test]
fn counter_at_its_limit_stops() {
    let owner = id(1);
    let address = find_profile_address(&program_id(), &owner).unwrap().address;
    let full = ProfileData { profile: owner, document_count: u64::MAX, created: 1, updated: 2 };
    let mut ledger = Ledger::from_accounts(
        program_id(),
        vec![Account { address, record: Record::Profile(full) }],
    );
    assert_eq!(
        ledger.create_profile_document(owner, String::from("last"), 3),
        Err(LedgerError::CounterExhausted)
    );
    assert_eq!(profile_at(&ledger, &owner), Some(full));
}

#[test]
fn later_account_counts_where_addresses_repeat() {
    let a = id(40);
    let old = ProfileData { profile: id(1), document_count: 1, created: 1, updated: 1 };
    let new = ProfileData { profile: id(1), document_count: 2, created: 1, updated: 2 };
    let ledger = Ledger::from_accounts(
        program_id(),
        vec![
            Account { address: a, record: Record::Profile(old) },
            Account { address: a, record: Record::Profile(new) },
        ],
    );
    assert_eq!(ledger.get(&a), Some(&Record::Profile(new)));
}

#[test]
fn profile_of_another_owner_is_refused() {
    // A record at the signer's profile address that names another owner.
    let signer = id(1);
    let address = find_profile_address(&program_id(), &signer).unwrap().address;
    let foreign = ProfileData { profile: id(2), document_count: 0, created: 1, updated: 1 };
    let mut ledger = Ledger::from_accounts(
        program_id(),
        vec![Account { address, record: Record::Profile(foreign) }],
    );
    assert_eq!(
        ledger.create_profile_document(signer, String::from("x"), 3),
        Err(LedgerError::Program(ErrorCode::OnlyProfileOwnerCanAccess))
    );
    assert_eq!(ledger.get(&address), Some(&Record::Profile(foreign)));
    assert_eq!(document_at(&ledger, &signer, 0), None);
}

#[test]
fn wrong_kind_of_record_is_refused() {
    let mut ledger = Ledger::new(program_id());
    assert_eq!(ledger.create_profile(id(1), 0), Ok(()));
    assert_eq!(ledger.create_profile_document(id(1), String::from("d"), 1), Ok(()));
    let profile = find_profile_address(&program_id(), &id(1)).unwrap().address;
    let document = find_document_address(&program_id(), &id(1), 0).unwrap().address;
    assert_eq!(
        ledger.create_profile_document_at(document, id(77), id(1), String::from("x"), 2),
        Err(LedgerError::WrongRecordKind)
    );
    assert_eq!(
        ledger.create_profile_document_share_at(profile, id(78), id(1), id(2), 9, 2),
        Err(LedgerError::WrongRecordKind)
    );
    assert_eq!(
        ledger.toggle_profile_document_share_at(profile, id(78), id(1), id(2), 2),
        Err(LedgerError::WrongRecordKind)
    );
    assert_eq!(
        ledger.toggle_profile_document_share_at(document, profile, id(1), id(2), 2),
        Err(LedgerError::WrongRecordKind)
    );
    assert_eq!(ledger.get(&id(77)), None);
    assert_eq!(ledger.get(&id(78)), None);
}

#[test]
fn taken_address_refuses_creation() {
    let mut ledger = Ledger::new(program_id());
    assert_eq!(ledger.create_profile_at(id(50), id(1), 0), Ok(()));
    assert_eq!(ledger.create_profile_at(id(50), id(2), 1), Err(LedgerError::AccountAlreadyInUse));
    assert_eq!(
        ledger.create_profile_document_at(id(50), id(50), id(1), String::from("x"), 2),
        Err(LedgerError::AccountAlreadyInUse)
    );
    assert_eq!(ledger.create_profile_document_at(id(50), id(51), id(1), String::from("x"), 2), Ok(()));
    assert_eq!(
        ledger.get(&id(51)),
        Some(&Record::Document(DocumentData {
            profile: id(1),
            name: String::from("x"),
            index: 0,
            created: 2
        }))
    );
    assert_eq!(
        ledger.get(&id(50)),
        Some(&Record::Profile(ProfileData {
            profile: id(1),
            document_count: 1,
            created: 0,
            updated: 2
        }))
    );
}

#[test]
fn share_needs_the_document() {
    let mut ledger = Ledger::new(program_id());
    assert_eq!(ledger.create_profile(id(1), 0), Ok(()));
    assert_eq!(
        ledger.create_profile_document_share(id(1), 0, id(2), 100, 1),
        Err(LedgerError::AccountNotInitialized)
    );
    assert_eq!(share_at(&ledger, &id(1), 0, &id(2)), None);
}

#[test]
fn only_the_owner_shares() {
    let mut ledger = Ledger::new(program_id());
    assert_eq!(ledger.create_profile(id(1), 0), Ok(()));
    assert_eq!(ledger.create_profile_document(id(1), String::from("d"), 1), Ok(()));
    let document = find_document_address(&program_id(), &id(1), 0).unwrap().address;
    let share = find_share_address(&program_id(), &document, &id(3)).unwrap().address;
    assert_eq!(
        ledger.create_profile_document_share_at(document, share, id(2), id(3), 100, 2),
        Err(LedgerError::Program(ErrorCode::OnlyProfileOwnerCanAccess))
    );
    assert_eq!(ledger.get(&share), None);
    assert_eq!(share_at(&ledger, &id(1), 0, &id(3)), None);
    // through her own addresses the stranger does not even reach the document
    assert_eq!(
        ledger.create_profile_document_share(id(2), 0, id(3), 100, 2),
        Err(LedgerError::AccountNotInitialized)
    );
}

#[test]
fn only_the_owner_toggles() {
    let mut ledger = Ledger::new(program_id());
    assert_eq!(ledger.create_profile(id(1), 0), Ok(()));
    assert_eq!(ledger.create_profile_document(id(1), String::from("d"), 1), Ok(()));
    assert_eq!(ledger.create_profile_document_share(id(1), 0, id(3), 100, 2), Ok(()));
    let document = find_document_address(&program_id(), &id(1), 0).unwrap().address;
    let share = find_share_address(&program_id(), &document, &id(3)).unwrap().address;
    let before = share_at(&ledger, &id(1), 0, &id(3));
    assert_eq!(
        ledger.toggle_profile_document_share_at(document, share, id(2), id(3), 5),
        Err(LedgerError::Program(ErrorCode::OnlyProfileOwnerCanAccess))
    );
    assert_eq!(share_at(&ledger, &id(1), 0, &id(3)), before);
}

#[test]
fn share_is_created_once() {
    let mut ledger = Ledger::new(program_id());
    assert_eq!(ledger.create_profile(id(1), 0), Ok(()));
    assert_eq!(ledger.create_profile_document(id(1), String::from("d"), 1), Ok(()));
    assert_eq!(ledger.create_profile_document_share(id(1), 0, id(2), 500, 2), Ok(()));
    let first = share_at(&ledger, &id(1), 0, &id(2)).unwrap();
    assert_eq!(first.valid_until, 500);
    assert_eq!(
        ledger.create_profile_document_share(id(1), 0, id(2), 900, 3),
        Err(LedgerError::AccountAlreadyInUse)
    );
    assert_eq!(share_at(&ledger, &id(1), 0, &id(2)), Some(first));
    // another invitee is another share
    assert_eq!(ledger.create_profile_document_share(id(1), 0, id(3), 900, 3), Ok(()));
    assert_eq!(share_at(&ledger, &id(1), 0, &id(3)).unwrap().valid_until, 900);
    assert_eq!(share_at(&ledger, &id(1), 0, &id(2)), Some(first));
}

#[test]
fn toggle_needs_the_share() {
    let mut ledger = Ledger::new(program_id());
    assert_eq!(ledger.create_profile(id(1), 0), Ok(()));
    assert_eq!(
        ledger.toggle_profile_document_share(id(1), 0, id(2), 3),
        Err(LedgerError::AccountNotInitialized)
    );
    assert_eq!(ledger.create_profile_document(id(1), String::from("d"), 1), Ok(()));
    assert_eq!(
        ledger.toggle_profile_document_share(id(1), 0, id(2), 3),
        Err(LedgerError::AccountNotInitialized)
    );
}

#[test]
fn toggle_twice_restores() {
    let mut ledger = Ledger::new(program_id());
    assert_eq!(ledger.create_profile(id(1), 0), Ok(()));
    assert_eq!(ledger.create_profile_document(id(1), String::from("d"), 1), Ok(()));
    assert_eq!(ledger.create_profile_document_share(id(1), 0, id(2), 500, 2), Ok(()));
    let start = share_at(&ledger, &id(1), 0, &id(2)).unwrap();
    assert_eq!(ledger.toggle_profile_document_share(id(1), 0, id(2), 10), Ok(()));
    assert_eq!(
        share_at(&ledger, &id(1), 0, &id(2)),
        Some(DocumentShareData { is_active: !start.is_active, updated: 10, ..start })
    );
    assert_eq!(ledger.toggle_profile_document_share(id(1), 0, id(2), 20), Ok(()));
    assert_eq!(
        share_at(&ledger, &id(1), 0, &id(2)),
        Some(DocumentShareData { updated: 20, ..start })
    );
}

#[test]
fn profile_documents_share_and_toggles() {
    let a = id(0xA);
    let b = id(0xB);
    let t0: i64 = 1_700_000_000;
    let mut ledger = Ledger::new(program_id());
    assert_eq!(ledger.create_profile(a, t0), Ok(()));
    assert_eq!(ledger.create_profile_document(a, String::from("spec.pdf"), t0 + 1), Ok(()));
    assert_eq!(document_at(&ledger, &a, 0).unwrap().index, 0);
    assert_eq!(document_at(&ledger, &a, 0).unwrap().name, "spec.pdf");
    assert_eq!(profile_at(&ledger, &a).unwrap().document_count, 1);
    assert_eq!(ledger.create_profile_document(a, String::from("notes.txt"), t0 + 2), Ok(()));
    assert_eq!(document_at(&ledger, &a, 1).unwrap().index, 1);
    assert_eq!(document_at(&ledger, &a, 1).unwrap().name, "notes.txt");
    assert_eq!(profile_at(&ledger, &a).unwrap().document_count, 2);
    assert_eq!(ledger.create_profile_document_share(a, 0, b, t0 + 3600, t0 + 3), Ok(()));
    let share = share_at(&ledger, &a, 0, &b).unwrap();
    assert!(share.is_active);
    assert!(!share.is_public);
    assert_eq!(share.invitee, b);
    assert_eq!(share.document_index, 0);
    assert_eq!(share.valid_until, t0 + 3600);
    assert_eq!(ledger.toggle_profile_document_share(a, 0, b, t0 + 4), Ok(()));
    assert!(!share_at(&ledger, &a, 0, &b).unwrap().is_active);
    assert_eq!(ledger.toggle_profile_document_share(a, 0, b, t0 + 5), Ok(()));
    assert!(share_at(&ledger, &a, 0, &b).unwrap().is_active);
    assert_eq!(share_at(&ledger, &a, 0, &b).unwrap().updated, t0 + 5);
}

#[test]
fn apply_runs_each_operation() {
    let a = id(1);
    let b = id(2);
    let mut ledger = Ledger::new(program_id());
    assert_eq!(ledger.apply(Operation::CreateProfile { signer: a, now: 1 }), Ok(()));
    assert_eq!(
        ledger.apply(Operation::CreateProfile { signer: a, now: 2 }),
        Err(LedgerError::AccountAlreadyInUse)
    );
    assert_eq!(
        ledger.apply(Operation::CreateProfileDocument { signer: a, name: String::from("d"), now: 3 }),
        Ok(())
    );
    assert_eq!(
        ledger.apply(Operation::CreateProfileDocumentShare {
            signer: a,
            document_index: 0,
            invitee: b,
            valid_until: 50,
            now: 4
        }),
        Ok(())
    );
    assert_eq!(
        ledger.apply(Operation::ToggleProfileDocumentShare {
            signer: a,
            document_index: 0,
            invitee: b,
            now: 5
        }),
        Ok(())
    );
    let share = share_at(&ledger, &a, 0, &b).unwrap();
    assert!(!share.is_active);
    assert_eq!(share.updated, 5);
    assert_eq!(share.created, 4);
    assert_eq!(profile_at(&ledger, &a).unwrap().document_count, 1);
}

#[test]
fn failed_operation_changes_nothing() {
    let mut ledger = Ledger::new(program_id());
    assert_eq!(ledger.create_profile(id(1), 0), Ok(()));
    assert_eq!(ledger.create_profile_document(id(1), String::from("d"), 1), Ok(()));
    let before = ledger.clone();
    assert!(ledger.create_profile(id(1), 9).is_err());
    assert!(ledger.create_profile_document(id(1), "n".repeat(70), 9).is_err());
    assert!(ledger.create_profile_document_share(id(1), 4, id(2), 1, 9).is_err());
    assert!(ledger.toggle_profile_document_share(id(1), 0, id(2), 9).is_err());
    for owner in [id(1), id(2)] {
        assert_eq!(profile_at(&ledger, &owner), profile_at(&before, &owner));
        assert_eq!(document_at(&ledger, &owner, 0), document_at(&before, &owner, 0));
        assert_eq!(document_at(&ledger, &owner, 1), document_at(&before, &owner, 1));
    }
    assert_eq!(share_at(&ledger, &id(1), 0, &id(2)), None);
}
