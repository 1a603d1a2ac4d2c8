//! Deterministic addresses: where each record lives follows from what the
//! record is about, under this program's id.

use vstd::prelude::*;
use crate::identity::Identity;
use crate::decimal::{decimal, decimal_text};
use anchor_lang::prelude::Pubkey;

verus! {

/// What the program-address search yields for a list of seeds under a program
/// id: the address and its bump byte, or nothing where no address exists.
pub uninterp spec fn program_address(seeds: Seq<Seq<u8>>, program_id: Seq<u8>) -> Option<(Seq<u8>, u8)>;

/// The most seeds that an address can be derived from, the bump byte
/// included.
pub const MAX_SEEDS: usize = 16;

/// The longest seed, in bytes.
pub const MAX_SEED_LEN: usize = 32;

/// Whether the seeds are few and short enough for an address to be searched:
/// fewer than `MAX_SEEDS`, none longer than `MAX_SEED_LEN`.
pub open spec fn admissible(seeds: Seq<Seq<u8>>) -> bool {
    &&& seeds.len() < MAX_SEEDS
    &&& forall|i: int| 0 <= i < seeds.len() ==> (#[trigger] seeds[i]).len() <= MAX_SEED_LEN
}

/// The seeds as byte sequences, in order.
pub open spec fn seed_bytes(seeds: Seq<Vec<u8>>) -> Seq<Seq<u8>> {
    Seq::new(seeds.len(), |i: int| seeds[i]@)
}

/// Calls `Pubkey::try_find_program_address`. Taken on trust: what it returns
/// is `program_address` of the seeds and the program id, so equal inputs give
/// equal addresses; and it returns nothing for seeds that are too many or too
/// long.
#[verifier::external_body]
fn find_program_address(seeds: &Vec<Vec<u8>>, program_id: &Identity) -> (r: Option<(Identity, u8)>)
    ensures
        match r {
            Some(found) => program_address(seed_bytes(seeds@), program_id@) == Some((found.0@, found.1)),
            None => program_address(seed_bytes(seeds@), program_id@) is None,
        },
        !admissible(seed_bytes(seeds@)) ==> r is None,
{
    let parts: Vec<&[u8]> = seeds.iter().map(|s| s.as_slice()).collect();
    let id = Pubkey::new_from_array(program_id.bytes);
    match Pubkey::try_find_program_address(&parts, &id) {
        Some((key, bump)) => Some((Identity { bytes: key.to_bytes() }, bump)),
        None => None,
    }
}

/// The id under which this program derives its addresses.
pub open spec fn program_id_bytes() -> Seq<u8> {
    seq![
        230u8, 91, 183, 247, 207, 203, 130, 238, 145, 71, 21, 164, 48, 59, 246, 190,
        58, 252, 108, 212, 47, 157, 12, 123, 153, 144, 146, 224, 222, 33, 206, 38,
    ]
}

/// The tag of profile addresses: `vault-profile`.
pub open spec fn profile_tag() -> Seq<u8> {
    seq![118u8, 97, 117, 108, 116, 45, 112, 114, 111, 102, 105, 108, 101]
}

/// The tag of document addresses: `vault-document`.
pub open spec fn document_tag() -> Seq<u8> {
    seq![118u8, 97, 117, 108, 116, 45, 100, 111, 99, 117, 109, 101, 110, 116]
}

/// The tag of share addresses: `vault-document-share`.
pub open spec fn share_tag() -> Seq<u8> {
    seq![
        118u8, 97, 117, 108, 116, 45, 100, 111, 99, 117, 109, 101, 110, 116, 45, 115, 104, 97,
        114, 101,
    ]
}

/// The seeds of the profile of `owner`.
pub open spec fn profile_seeds(owner: Seq<u8>) -> Seq<Seq<u8>> {
    seq![profile_tag(), owner]
}

/// The seeds of the document of `owner` with the given index.
pub open spec fn document_seeds(owner: Seq<u8>, index: u64) -> Seq<Seq<u8>> {
    seq![document_tag(), owner, decimal_text(index as nat)]
}

/// The seeds of the share of the document at `document` for `invitee`.
pub open spec fn share_seeds(document: Seq<u8>, invitee: Seq<u8>) -> Seq<Seq<u8>> {
    seq![document, share_tag(), invitee]
}

/// The address that a list of seeds leads to, without its bump byte.
pub open spec fn address_of(seeds: Seq<Seq<u8>>, program_id: Seq<u8>) -> Option<Seq<u8>> {
    match program_address(seeds, program_id) {
        Some(found) => Some(found.0),
        None => None,
    }
}

/// Where the profile of `owner` lives.
pub open spec fn profile_address(program_id: Seq<u8>, owner: Seq<u8>) -> Option<Seq<u8>> {
    address_of(profile_seeds(owner), program_id)
}

/// Where the document of `owner` with the given index lives.
pub open spec fn document_address(program_id: Seq<u8>, owner: Seq<u8>, index: u64) -> Option<Seq<u8>> {
    address_of(document_seeds(owner, index), program_id)
}

/// Where the share of `invitee` in the document at `document` lives.
pub open spec fn share_address(program_id: Seq<u8>, document: Seq<u8>, invitee: Seq<u8>) -> Option<Seq<u8>> {
    address_of(share_seeds(document, invitee), program_id)
}

/// A derived address with the bump byte that closes its seeds. Together with
/// the seeds and the program id, the bump lets anyone derive the address
/// again.
#[derive(Clone, Copy, Debug, PartialEq)]
pub struct ProgramAddress {
    pub address: Identity,
    pub bump: u8,
}

/// Whether `r` is what the seeds lead to under the program id.
pub open spec fn derived_from(r: Option<ProgramAddress>, seeds: Seq<Seq<u8>>, program_id: Seq<u8>) -> bool {
    match r {
        Some(found) => admissible(seeds) && program_address(seeds, program_id) == Some(
            (found.address@, found.bump),
        ),
        None => program_address(seeds, program_id) is None,
    }
}

/// This program's id.
pub fn program_id() -> (r: Identity)
    ensures
        r@ == program_id_bytes(),
{
    let r = Identity {
        bytes: [
            230, 91, 183, 247, 207, 203, 130, 238, 145, 71, 21, 164, 48, 59, 246, 190,
            58, 252, 108, 212, 47, 157, 12, 123, 153, 144, 146, 224, 222, 33, 206, 38,
        ],
    };
    proof {
        assert(r@ =~= program_id_bytes());
    }
    r
}

fn profile_tag_bytes() -> (r: Vec<u8>)
    ensures
        r@ == profile_tag(),
{
    let r: Vec<u8> = vec![118, 97, 117, 108, 116, 45, 112, 114, 111, 102, 105, 108, 101];
    proof {
        assert(r@ =~= profile_tag());
    }
    r
}

fn document_tag_bytes() -> (r: Vec<u8>)
    ensures
        r@ == document_tag(),
{
    let r: Vec<u8> = vec![118, 97, 117, 108, 116, 45, 100, 111, 99, 117, 109, 101, 110, 116];
    proof {
        assert(r@ =~= document_tag());
    }
    r
}

fn share_tag_bytes() -> (r: Vec<u8>)
    ensures
        r@ == share_tag(),
{
    let r: Vec<u8> = vec![
        118, 97, 117, 108, 116, 45, 100, 111, 99, 117, 109, 101, 110, 116, 45, 115, 104, 97,
        114, 101,
    ];
    proof {
        assert(r@ =~= share_tag());
    }
    r
}

/// Derives the address that the given seeds lead to under the program id,
/// with its bump byte. Seeds that are too many or too long lead nowhere.
pub fn find_address(seeds: Vec<Vec<u8>>, program_id: &Identity) -> (r: Option<ProgramAddress>)
    ensures
        derived_from(r, seed_bytes(seeds@), program_id@),
        !admissible(seed_bytes(seeds@)) ==> r is None,
{
    match find_program_address(&seeds, program_id) {
        Some(found) => Some(ProgramAddress { address: found.0, bump: found.1 }),
        None => None,
    }
}

/// Derives the address of the profile of `owner`.
pub fn find_profile_address(program_id: &Identity, owner: &Identity) -> (r: Option<ProgramAddress>)
    ensures
        derived_from(r, profile_seeds(owner@), program_id@),
{
    let mut seeds: Vec<Vec<u8>> = Vec::new();
    seeds.push(profile_tag_bytes());
    seeds.push(owner.to_vec());
    proof {
        assert(seed_bytes(seeds@) =~= profile_seeds(owner@));
    }
    find_address(seeds, program_id)
}

/// Derives the address of the document of `owner` with the given index. The
/// index enters the seeds as decimal text.
pub fn find_document_address(program_id: &Identity, owner: &Identity, index: u64) -> (r: Option<ProgramAddress>)
    ensures
        derived_from(r, document_seeds(owner@, index), program_id@),
{
    let mut seeds: Vec<Vec<u8>> = Vec::new();
    seeds.push(document_tag_bytes());
    seeds.push(owner.to_vec());
    seeds.push(decimal(index));
    proof {
        assert(seed_bytes(seeds@) =~= document_seeds(owner@, index));
    }
    find_address(seeds, program_id)
}

/// Derives the address of the share of `invitee` in the document that lives
/// at `document`.
pub fn find_share_address(program_id: &Identity, document: &Identity, invitee: &Identity) -> (r: Option<ProgramAddress>)
    ensures
        derived_from(r, share_seeds(document@, invitee@), program_id@),
{
    let mut seeds: Vec<Vec<u8>> = Vec::new();
    seeds.push(document.to_vec());
    seeds.push(share_tag_bytes());
    seeds.push(invitee.to_vec());
    proof {
        assert(seed_bytes(seeds@) =~= share_seeds(document@, invitee@));
    }
    find_address(seeds, program_id)
}

} // verus!
