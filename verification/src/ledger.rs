//! The registry as a whole: every record at its derived address, and the four
//! operations as single steps that either commit or leave everything as it
//! was.

use vstd::prelude::*;
use crate::address::{
    document_address, find_document_address, find_profile_address, find_share_address,
    profile_address, share_address,
};
use crate::identity::Identity;
use crate::instructions::{
    create_profile, create_profile_document, create_profile_document_share,
    toggle_profile_document_share, CreateProfile, CreateProfileDocument,
    CreateProfileDocumentShare, ToggleProfileDocumentShare,
};
use crate::records::{
    advanced_profile, fresh_document, fresh_profile, fresh_share, name_len, toggled_share,
    DocumentData, DocumentShareData, ErrorCode, ProfileData, MAX_NAME_LEN,
};

verus! {

/// What an address can hold.
#[derive(Clone, Debug, PartialEq)]
pub enum Record {
    Profile(ProfileData),
    Document(DocumentData),
    Share(DocumentShareData),
}

/// A record at its address.
#[derive(Clone, Debug, PartialEq)]
pub struct Account {
    pub address: Identity,
    pub record: Record,
}

/// Why a step did not commit.
#[derive(Clone, Copy, Debug, PartialEq, Eq)]
pub enum LedgerError {
    /// The seeds lead to no address.
    NoAddress,
    /// A record is to be created where one already is.
    AccountAlreadyInUse,
    /// A record is needed where none is.
    AccountNotInitialized,
    /// The address holds a record of another kind.
    WrongRecordKind,
    /// The name does not fit a stored document.
    NameTooLong,
    /// The profile's counter cannot advance.
    CounterExhausted,
    /// The operation itself refused.
    Program(ErrorCode),
}

/// The record that a list of accounts holds at `a`: that of the last account
/// with this address.
pub open spec fn lookup(s: Seq<Account>, a: Seq<u8>) -> Option<Record>
    decreases s.len(),
{
    if s.len() == 0 {
        None
    } else if s.last().address@ == a {
        Some(s.last().record)
    } else {
        lookup(s.drop_last(), a)
    }
}

/// A list of accounts as a map from address to record.
pub open spec fn records_of(s: Seq<Account>) -> Map<Seq<u8>, Record> {
    Map::new(|a: Seq<u8>| lookup(s, a) is Some, |a: Seq<u8>| lookup(s, a).unwrap())
}

proof fn lemma_lookup_push(s: Seq<Account>, x: Account, a: Seq<u8>)
    ensures
        lookup(s.push(x), a) == if x.address@ == a {
            Some(x.record)
        } else {
            lookup(s, a)
        },
{
    assert(s.push(x).drop_last() =~= s);
}

proof fn lemma_lookup_last_match(s: Seq<Account>, i: int, a: Seq<u8>)
    requires
        0 <= i < s.len(),
        s[i].address@ == a,
        forall|j: int| i < j < s.len() ==> s[j].address@ != a,
    ensures
        lookup(s, a) == Some(s[i].record),
    decreases s.len(),
{
    if i < s.len() - 1 {
        lemma_lookup_last_match(s.drop_last(), i, a);
    }
}

proof fn lemma_lookup_none(s: Seq<Account>, a: Seq<u8>)
    requires
        forall|j: int| 0 <= j < s.len() ==> s[j].address@ != a,
    ensures
        lookup(s, a) is None,
    decreases s.len(),
{
    if s.len() > 0 {
        lemma_lookup_none(s.drop_last(), a);
    }
}

proof fn lemma_lookup_update(s: Seq<Account>, i: int, x: Account, b: Seq<u8>)
    requires
        0 <= i < s.len(),
        x.address@ == s[i].address@,
        forall|j: int| i < j < s.len() ==> s[j].address@ != x.address@,
    ensures
        lookup(s.update(i, x), b) == if b == x.address@ {
            Some(x.record)
        } else {
            lookup(s, b)
        },
    decreases s.len(),
{
    let t = s.update(i, x);
    if i == s.len() - 1 {
        assert(t.drop_last() =~= s.drop_last());
    } else {
        assert(t.drop_last() =~= s.drop_last().update(i, x));
        assert(t.last() == s.last());
        lemma_lookup_update(s.drop_last(), i, x, b);
    }
}

/// `create_profile` once the profile's address is known.
pub open spec fn create_profile_at_spec(
    s: Map<Seq<u8>, Record>,
    address: Seq<u8>,
    signer: Identity,
    now: i64,
) -> (Map<Seq<u8>, Record>, Result<(), LedgerError>) {
    if s.contains_key(address) {
        (s, Err(LedgerError::AccountAlreadyInUse))
    } else {
        (s.insert(address, Record::Profile(fresh_profile(signer, now))), Ok(()))
    }
}

/// `create_profile` as a step from one state of the registry to the next.
pub open spec fn create_profile_spec(
    s: Map<Seq<u8>, Record>,
    program_id: Seq<u8>,
    signer: Identity,
    now: i64,
) -> (Map<Seq<u8>, Record>, Result<(), LedgerError>) {
    match profile_address(program_id, signer@) {
        None => (s, Err(LedgerError::NoAddress)),
        Some(address) => create_profile_at_spec(s, address, signer, now),
    }
}

/// `create_profile_document` once both addresses are known.
pub open spec fn create_profile_document_at_spec(
    s: Map<Seq<u8>, Record>,
    profile: Seq<u8>,
    document: Seq<u8>,
    signer: Identity,
    name: String,
    now: i64,
) -> (Map<Seq<u8>, Record>, Result<(), LedgerError>) {
    if !s.contains_key(profile) {
        (s, Err(LedgerError::AccountNotInitialized))
    } else {
        match s[profile] {
            Record::Profile(p) => {
                if s.contains_key(document) {
                    (s, Err(LedgerError::AccountAlreadyInUse))
                } else if name_len(name@) > MAX_NAME_LEN {
                    (s, Err(LedgerError::NameTooLong))
                } else if p.document_count == u64::MAX {
                    (s, Err(LedgerError::CounterExhausted))
                } else if p.profile@ != signer@ {
                    (s, Err(LedgerError::Program(ErrorCode::OnlyProfileOwnerCanAccess)))
                } else {
                    (
                        s.insert(profile, Record::Profile(advanced_profile(p, now))).insert(
                            document,
                            Record::Document(fresh_document(signer, name, p.document_count, now)),
                        ),
                        Ok(()),
                    )
                }
            },
            _ => (s, Err(LedgerError::WrongRecordKind)),
        }
    }
}

/// `create_profile_document` as a step: the document's address follows from
/// the counter that the signer's profile holds before the step.
pub open spec fn create_profile_document_spec(
    s: Map<Seq<u8>, Record>,
    program_id: Seq<u8>,
    signer: Identity,
    name: String,
    now: i64,
) -> (Map<Seq<u8>, Record>, Result<(), LedgerError>) {
    match profile_address(program_id, signer@) {
        None => (s, Err(LedgerError::NoAddress)),
        Some(profile) => {
            if !s.contains_key(profile) {
                (s, Err(LedgerError::AccountNotInitialized))
            } else {
                match s[profile] {
                    Record::Profile(p) => match document_address(
                        program_id,
                        signer@,
                        p.document_count,
                    ) {
                        None => (s, Err(LedgerError::NoAddress)),
                        Some(document) => create_profile_document_at_spec(
                            s,
                            profile,
                            document,
                            signer,
                            name,
                            now,
                        ),
                    },
                    _ => (s, Err(LedgerError::WrongRecordKind)),
                }
            }
        },
    }
}

/// `create_profile_document_share` once both addresses are known.
pub open spec fn create_profile_document_share_at_spec(
    s: Map<Seq<u8>, Record>,
    document: Seq<u8>,
    share: Seq<u8>,
    signer: Identity,
    invitee: Identity,
    valid_until: i64,
    now: i64,
) -> (Map<Seq<u8>, Record>, Result<(), LedgerError>) {
    if !s.contains_key(document) {
        (s, Err(LedgerError::AccountNotInitialized))
    } else {
        match s[document] {
            Record::Document(d) => {
                if s.contains_key(share) {
                    (s, Err(LedgerError::AccountAlreadyInUse))
                } else if d.profile@ != signer@ {
                    (s, Err(LedgerError::Program(ErrorCode::OnlyProfileOwnerCanAccess)))
                } else {
                    (
                        s.insert(
                            share,
                            Record::Share(fresh_share(invitee, d.index, valid_until, now)),
                        ),
                        Ok(()),
                    )
                }
            },
            _ => (s, Err(LedgerError::WrongRecordKind)),
        }
    }
}

/// `create_profile_document_share` as a step.
pub open spec fn create_profile_document_share_spec(
    s: Map<Seq<u8>, Record>,
    program_id: Seq<u8>,
    signer: Identity,
    document_index: u64,
    invitee: Identity,
    valid_until: i64,
    now: i64,
) -> (Map<Seq<u8>, Record>, Result<(), LedgerError>) {
    match document_address(program_id, signer@, document_index) {
        None => (s, Err(LedgerError::NoAddress)),
        Some(document) => match share_address(program_id, document, invitee@) {
            None => (s, Err(LedgerError::NoAddress)),
            Some(share) => create_profile_document_share_at_spec(
                s,
                document,
                share,
                signer,
                invitee,
                valid_until,
                now,
            ),
        },
    }
}

/// `toggle_profile_document_share` once both addresses are known.
pub open spec fn toggle_profile_document_share_at_spec(
    s: Map<Seq<u8>, Record>,
    document: Seq<u8>,
    share: Seq<u8>,
    signer: Identity,
    now: i64,
) -> (Map<Seq<u8>, Record>, Result<(), LedgerError>) {
    if !s.contains_key(document) {
        (s, Err(LedgerError::AccountNotInitialized))
    } else {
        match s[document] {
            Record::Document(d) => {
                if !s.contains_key(share) {
                    (s, Err(LedgerError::AccountNotInitialized))
                } else {
                    match s[share] {
                        Record::Share(sh) => {
                            if d.profile@ != signer@ {
                                (
                                    s,
                                    Err(
                                        LedgerError::Program(
                                            ErrorCode::OnlyProfileOwnerCanAccess,
                                        ),
                                    ),
                                )
                            } else {
                                (s.insert(share, Record::Share(toggled_share(sh, now))), Ok(()))
                            }
                        },
                        _ => (s, Err(LedgerError::WrongRecordKind)),
                    }
                }
            },
            _ => (s, Err(LedgerError::WrongRecordKind)),
        }
    }
}

/// `toggle_profile_document_share` as a step.
pub open spec fn toggle_profile_document_share_spec(
    s: Map<Seq<u8>, Record>,
    program_id: Seq<u8>,
    signer: Identity,
    document_index: u64,
    invitee: Identity,
    now: i64,
) -> (Map<Seq<u8>, Record>, Result<(), LedgerError>) {
    match document_address(program_id, signer@, document_index) {
        None => (s, Err(LedgerError::NoAddress)),
        Some(document) => match share_address(program_id, document, invitee@) {
            None => (s, Err(LedgerError::NoAddress)),
            Some(share) => toggle_profile_document_share_at_spec(s, document, share, signer, now),
        },
    }
}

/// The registry: the program's id and every record created so far.
#[derive(Clone, Debug)]
pub struct Ledger {
    program_id: Identity,
    accounts: Vec<Account>,
}

impl View for Ledger {
    type V = Map<Seq<u8>, Record>;

    closed spec fn view(&self) -> Map<Seq<u8>, Record> {
        records_of(self.accounts@)
    }
}

impl Ledger {
    /// The id under which this registry derives its addresses.
    pub closed spec fn program(&self) -> Identity {
        self.program_id
    }

    /// An empty registry under the given program id.
    pub fn new(program_id: Identity) -> (r: Ledger)
        ensures
            r@ == Map::<Seq<u8>, Record>::empty(),
            r.program() == program_id,
    {
        let r = Ledger { program_id, accounts: Vec::new() };
        proof {
            assert(r@ =~= Map::<Seq<u8>, Record>::empty());
        }
        r
    }

    /// A registry that holds the given accounts. Where two of them share an
    /// address, the later one counts.
    pub fn from_accounts(program_id: Identity, accounts: Vec<Account>) -> (r: Ledger)
        ensures
            r@ == records_of(accounts@),
            r.program() == program_id,
    {
        Ledger { program_id, accounts }
    }

    /// The id under which this registry derives its addresses.
    pub fn program_id(&self) -> (r: Identity)
        ensures
            r == self.program(),
    {
        self.program_id
    }

    /// The place of the last account with this address.
    fn position(&self, address: &Identity) -> (r: Option<usize>)
        ensures
            match r {
                Some(i) => {
                    &&& i < self.accounts@.len()
                    &&& self.accounts@[i as int].address@ == address@
                    &&& forall|j: int|
                        i < j < self.accounts@.len() ==> self.accounts@[j].address@ != address@
                    &&& self@.contains_key(address@)
                    &&& self@[address@] == self.accounts@[i as int].record
                },
                None => !self@.contains_key(address@),
            },
    {
        let mut i: usize = self.accounts.len();
        while i > 0
            invariant
                i <= self.accounts@.len(),
                forall|j: int| i <= j < self.accounts@.len() ==> self.accounts@[j].address@ != address@,
            decreases i,
        {
            i -= 1;
            if self.accounts[i].address == *address {
                proof {
                    lemma_lookup_last_match(self.accounts@, i as int, address@);
                }
                return Some(i);
            }
        }
        proof {
            lemma_lookup_none(self.accounts@, address@);
        }
        None
    }

    /// Puts a record at an address, as the newest account.
    fn store_new(&mut self, address: Identity, record: Record)
        ensures
            final(self)@ == old(self)@.insert(address@, record),
            final(self).program() == old(self).program(),
            final(self).accounts@ == old(self).accounts@.push(Account { address, record }),
    {
        let account = Account { address, record };
        self.accounts.push(account);
        proof {
            assert forall|a: Seq<u8>|
                lookup(final(self).accounts@, a) == (if a == address@ {
                    Some(record)
                } else {
                    lookup(old(self).accounts@, a)
                }) by {
                lemma_lookup_push(old(self).accounts@, account, a);
            }
            assert(final(self)@ =~= old(self)@.insert(address@, record));
        }
    }

    /// Replaces the record of the account at place `i`.
    fn store_at(&mut self, i: usize, record: Record)
        requires
            i < old(self).accounts@.len(),
            forall|j: int|
                i < j < old(self).accounts@.len() ==> old(self).accounts@[j].address@ != old(
                    self,
                ).accounts@[i as int].address@,
        ensures
            final(self)@ == old(self)@.insert(old(self).accounts@[i as int].address@, record),
            final(self).program() == old(self).program(),
    {
        let address = self.accounts[i].address;
        let account = Account { address, record };
        self.accounts.set(i, account);
        proof {
            assert forall|a: Seq<u8>|
                lookup(final(self).accounts@, a) == (if a == address@ {
                    Some(record)
                } else {
                    lookup(old(self).accounts@, a)
                }) by {
                lemma_lookup_update(old(self).accounts@, i as int, account, a);
            }
            assert(final(self)@ =~= old(self)@.insert(address@, record));
        }
    }

    /// The record at an address, if there is one.
    pub fn get(&self, address: &Identity) -> (r: Option<&Record>)
        ensures
            match r {
                Some(record) => self@.contains_key(address@) && self@[address@] == *record,
                None => !self@.contains_key(address@),
            },
    {
        match self.position(address) {
            Some(i) => Some(&self.accounts[i].record),
            None => None,
        }
    }

    /// Creates the signer's profile at `address`, unless the address is
    /// taken.
    pub fn create_profile_at(&mut self, address: Identity, signer: Identity, now: i64) -> (r: Result<(), LedgerError>)
        ensures
            (final(self)@, r) == create_profile_at_spec(old(self)@, address@, signer, now),
            final(self).program() == old(self).program(),
    {
        if self.position(&address).is_some() {
            return Err(LedgerError::AccountAlreadyInUse);
        }
        let mut ctx = CreateProfile { profile: signer, profile_data: ProfileData::zeroed() };
        match create_profile(&mut ctx, now) {
            Ok(_) => {},
            Err(code) => {
                return Err(LedgerError::Program(code));
            },
        }
        self.store_new(address, Record::Profile(ctx.profile_data));
        Ok(())
    }

    /// Creates the signer's profile at the address derived from the signer.
    /// A second profile for the same signer is refused, since the address is
    /// then taken.
    pub fn create_profile(&mut self, signer: Identity, now: i64) -> (r: Result<(), LedgerError>)
        ensures
            (final(self)@, r) == create_profile_spec(
                old(self)@,
                old(self).program()@,
                signer,
                now,
            ),
            final(self).program() == old(self).program(),
    {
        match find_profile_address(&self.program_id, &signer) {
            None => Err(LedgerError::NoAddress),
            Some(found) => self.create_profile_at(found.address, signer, now),
        }
    }

    /// Creates a document at `document` under the profile at `profile` and
    /// advances that profile's counter, both or neither.
    pub fn create_profile_document_at(
        &mut self,
        profile: Identity,
        document: Identity,
        signer: Identity,
        name: String,
        now: i64,
    ) -> (r: Result<(), LedgerError>)
        ensures
            (final(self)@, r) == create_profile_document_at_spec(
                old(self)@,
                profile@,
                document@,
                signer,
                name,
                now,
            ),
            final(self).program() == old(self).program(),
    {
        let i = match self.position(&profile) {
            None => {
                return Err(LedgerError::AccountNotInitialized);
            },
            Some(i) => i,
        };
        let profile_data = match &self.accounts[i].record {
            Record::Profile(p) => *p,
            _ => {
                return Err(LedgerError::WrongRecordKind);
            },
        };
        if self.position(&document).is_some() {
            return Err(LedgerError::AccountAlreadyInUse);
        }
        if !DocumentData::name_fits(&name) {
            return Err(LedgerError::NameTooLong);
        }
        if profile_data.document_count == u64::MAX {
            return Err(LedgerError::CounterExhausted);
        }
        let mut ctx = CreateProfileDocument {
            profile: signer,
            document: DocumentData::zeroed(),
            profile_data,
        };
        match create_profile_document(&mut ctx, name, now) {
            Ok(_) => {},
            Err(code) => {
                return Err(LedgerError::Program(code));
            },
        }
        self.store_at(i, Record::Profile(ctx.profile_data));
        self.store_new(document, Record::Document(ctx.document));
        Ok(())
    }

    /// Creates the signer's next document. Its index is the counter of the
    /// signer's profile, which then advances by one.
    pub fn create_profile_document(&mut self, signer: Identity, name: String, now: i64) -> (r: Result<(), LedgerError>)
        ensures
            (final(self)@, r) == create_profile_document_spec(
                old(self)@,
                old(self).program()@,
                signer,
                name,
                now,
            ),
            final(self).program() == old(self).program(),
    {
        let profile = match find_profile_address(&self.program_id, &signer) {
            None => {
                return Err(LedgerError::NoAddress);
            },
            Some(found) => found.address,
        };
        let count = match self.get(&profile) {
            None => {
                return Err(LedgerError::AccountNotInitialized);
            },
            Some(Record::Profile(p)) => p.document_count,
            Some(_) => {
                return Err(LedgerError::WrongRecordKind);
            },
        };
        let document = match find_document_address(&self.program_id, &signer, count) {
            None => {
                return Err(LedgerError::NoAddress);
            },
            Some(found) => found.address,
        };
        self.create_profile_document_at(profile, document, signer, name, now)
    }

    /// Creates a share at `share` for the document at `document`, unless the
    /// signer does not own the document or the share exists.
    pub fn create_profile_document_share_at(
        &mut self,
        document: Identity,
        share: Identity,
        signer: Identity,
        invitee: Identity,
        valid_until: i64,
        now: i64,
    ) -> (r: Result<(), LedgerError>)
        ensures
            (final(self)@, r) == create_profile_document_share_at_spec(
                old(self)@,
                document@,
                share@,
                signer,
                invitee,
                valid_until,
                now,
            ),
            final(self).program() == old(self).program(),
    {
        let i = match self.position(&document) {
            None => {
                return Err(LedgerError::AccountNotInitialized);
            },
            Some(i) => i,
        };
        let document_data = match &self.accounts[i].record {
            Record::Document(d) => DocumentData {
                profile: d.profile,
                name: d.name.clone(),
                index: d.index,
                created: d.created,
            },
            _ => {
                return Err(LedgerError::WrongRecordKind);
            },
        };
        if self.position(&share).is_some() {
            return Err(LedgerError::AccountAlreadyInUse);
        }
        let document_index = document_data.index;
        let mut ctx = CreateProfileDocumentShare {
            profile: signer,
            document_share: DocumentShareData::zeroed(),
            document: document_data,
        };
        match create_profile_document_share(&mut ctx, document_index, invitee, valid_until, now) {
            Ok(_) => {},
            Err(code) => {
                return Err(LedgerError::Program(code));
            },
        }
        self.store_new(share, Record::Share(ctx.document_share));
        Ok(())
    }

    /// Invites `invitee` to the signer's document with the given index. A
    /// second invitation of the same invitee to the same document is refused
    /// and changes nothing.
    pub fn create_profile_document_share(
        &mut self,
        signer: Identity,
        document_index: u64,
        invitee: Identity,
        valid_until: i64,
        now: i64,
    ) -> (r: Result<(), LedgerError>)
        ensures
            (final(self)@, r) == create_profile_document_share_spec(
                old(self)@,
                old(self).program()@,
                signer,
                document_index,
                invitee,
                valid_until,
                now,
            ),
            final(self).program() == old(self).program(),
    {
        let document = match find_document_address(&self.program_id, &signer, document_index) {
            None => {
                return Err(LedgerError::NoAddress);
            },
            Some(found) => found.address,
        };
        let share = match find_share_address(&self.program_id, &document, &invitee) {
            None => {
                return Err(LedgerError::NoAddress);
            },
            Some(found) => found.address,
        };
        self.create_profile_document_share_at(document, share, signer, invitee, valid_until, now)
    }

    /// Toggles the share at `share` of the document at `document`, if the
    /// signer owns the document.
    pub fn toggle_profile_document_share_at(
        &mut self,
        document: Identity,
        share: Identity,
        signer: Identity,
        invitee: Identity,
        now: i64,
    ) -> (r: Result<(), LedgerError>)
        ensures
            (final(self)@, r) == toggle_profile_document_share_at_spec(
                old(self)@,
                document@,
                share@,
                signer,
                now,
            ),
            final(self).program() == old(self).program(),
    {
        let i = match self.position(&document) {
            None => {
                return Err(LedgerError::AccountNotInitialized);
            },
            Some(i) => i,
        };
        let document_data = match &self.accounts[i].record {
            Record::Document(d) => DocumentData {
                profile: d.profile,
                name: d.name.clone(),
                index: d.index,
                created: d.created,
            },
            _ => {
                return Err(LedgerError::WrongRecordKind);
            },
        };
        let k = match self.position(&share) {
            None => {
                return Err(LedgerError::AccountNotInitialized);
            },
            Some(k) => k,
        };
        let share_data = match &self.accounts[k].record {
            Record::Share(sh) => *sh,
            _ => {
                return Err(LedgerError::WrongRecordKind);
            },
        };
        let document_index = document_data.index;
        let mut ctx = ToggleProfileDocumentShare {
            profile: signer,
            document_share: share_data,
            document: document_data,
        };
        match toggle_profile_document_share(&mut ctx, document_index, invitee, now) {
            Ok(_) => {},
            Err(code) => {
                return Err(LedgerError::Program(code));
            },
        }
        self.store_at(k, Record::Share(ctx.document_share));
        Ok(())
    }

    /// Toggles the share of `invitee` in the signer's document with the given
    /// index: active becomes inactive, inactive becomes active.
    pub fn toggle_profile_document_share(
        &mut self,
        signer: Identity,
        document_index: u64,
        invitee: Identity,
        now: i64,
    ) -> (r: Result<(), LedgerError>)
        ensures
            (final(self)@, r) == toggle_profile_document_share_spec(
                old(self)@,
                old(self).program()@,
                signer,
                document_index,
                invitee,
                now,
            ),
            final(self).program() == old(self).program(),
    {
        let document = match find_document_address(&self.program_id, &signer, document_index) {
            None => {
                return Err(LedgerError::NoAddress);
            },
            Some(found) => found.address,
        };
        let share = match find_share_address(&self.program_id, &document, &invitee) {
            None => {
                return Err(LedgerError::NoAddress);
            },
            Some(found) => found.address,
        };
        self.toggle_profile_document_share_at(document, share, signer, invitee, now)
    }
}

} // verus!
