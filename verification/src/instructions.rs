//! The four operations, each on the records that it declares up front. The
//! caller's identity is taken as proved, the records as already located, and
//! the time as given.

use vstd::prelude::*;
use crate::identity::Identity;
use crate::records::{
    advanced_profile, fresh_document, fresh_profile, fresh_share, toggled_share, DocumentData,
    DocumentShareData, ErrorCode, ProfileData,
};

verus! {

/// What `create_profile` works on: the signer and the new profile record.
#[derive(Clone, Debug)]
pub struct CreateProfile {
    pub profile: Identity,
    pub profile_data: ProfileData,
}

/// What `create_profile_document` works on: the signer, the new document
/// record and the signer's profile record.
#[derive(Clone, Debug)]
pub struct CreateProfileDocument {
    pub profile: Identity,
    pub document: DocumentData,
    pub profile_data: ProfileData,
}

/// What `create_profile_document_share` works on: the signer, the new share
/// record and the document that is shared.
#[derive(Clone, Debug)]
pub struct CreateProfileDocumentShare {
    pub profile: Identity,
    pub document_share: DocumentShareData,
    pub document: DocumentData,
}

/// What `toggle_profile_document_share` works on: the signer, the share and
/// the document that it belongs to.
#[derive(Clone, Debug)]
pub struct ToggleProfileDocumentShare {
    pub profile: Identity,
    pub document_share: DocumentShareData,
    pub document: DocumentData,
}

/// Fills in a new profile for the signer: no documents yet, created and
/// updated now. It cannot fail.
pub fn create_profile(ctx: &mut CreateProfile, now: i64) -> (r: Result<(), ErrorCode>)
    ensures
        r is Ok,
        final(ctx).profile == old(ctx).profile,
        final(ctx).profile_data == fresh_profile(old(ctx).profile, now),
{
    ctx.profile_data.profile = ctx.profile;
    ctx.profile_data.created = now;
    ctx.profile_data.updated = now;
    ctx.profile_data.document_count = 0;
    Ok(())
}

/// Fills in a new document under the signer's profile and advances the
/// profile's counter. The document's index is the counter as it stood. Only
/// the profile's owner may do this; for anyone else nothing changes.
pub fn create_profile_document(ctx: &mut CreateProfileDocument, name: String, now: i64) -> (r: Result<(), ErrorCode>)
    requires
        old(ctx).profile_data.document_count < u64::MAX,
    ensures
        final(ctx).profile == old(ctx).profile,
        match r {
            Ok(_) => {
                &&& old(ctx).profile_data.profile@ == old(ctx).profile@
                &&& final(ctx).document == fresh_document(
                    old(ctx).profile,
                    name,
                    old(ctx).profile_data.document_count,
                    now,
                )
                &&& final(ctx).profile_data == advanced_profile(old(ctx).profile_data, now)
            },
            Err(e) => {
                &&& e == ErrorCode::OnlyProfileOwnerCanAccess
                &&& old(ctx).profile_data.profile@ != old(ctx).profile@
                &&& *final(ctx) == *old(ctx)
            },
        },
{
    if ctx.profile_data.profile != ctx.profile {
        return Err(ErrorCode::OnlyProfileOwnerCanAccess);
    }
    ctx.document.created = now;
    ctx.document.profile = ctx.profile;
    ctx.document.name = name;
    ctx.document.index = ctx.profile_data.document_count;

    ctx.profile_data.document_count = ctx.profile_data.document_count + 1;
    ctx.profile_data.updated = now;
    Ok(())
}

/// Fills in a new share of the document for `invitee`: active, not public,
/// expiring at `valid_until`, which is taken as given. Only the document's
/// owner may do this; for anyone else nothing changes.
pub fn create_profile_document_share(
    ctx: &mut CreateProfileDocumentShare,
    document_index: u64,
    invitee: Identity,
    valid_until: i64,
    now: i64,
) -> (r: Result<(), ErrorCode>)
    ensures
        final(ctx).profile == old(ctx).profile,
        final(ctx).document == old(ctx).document,
        match r {
            Ok(_) => {
                &&& old(ctx).document.profile@ == old(ctx).profile@
                &&& final(ctx).document_share == fresh_share(
                    invitee,
                    old(ctx).document.index,
                    valid_until,
                    now,
                )
            },
            Err(e) => {
                &&& e == ErrorCode::OnlyProfileOwnerCanAccess
                &&& old(ctx).document.profile@ != old(ctx).profile@
                &&& final(ctx).document_share == old(ctx).document_share
            },
        },
{
    if ctx.profile != ctx.document.profile {
        return Err(ErrorCode::OnlyProfileOwnerCanAccess);
    }
    ctx.document_share.created = now;
    ctx.document_share.updated = now;
    ctx.document_share.document_index = ctx.document.index;
    ctx.document_share.is_public = false;
    ctx.document_share.is_active = true;
    ctx.document_share.invitee = invitee;
    ctx.document_share.valid_until = valid_until;
    Ok(())
}

/// Switches the share from active to inactive or back, and notes the time.
/// Only the document's owner may do this; for anyone else nothing changes.
pub fn toggle_profile_document_share(
    ctx: &mut ToggleProfileDocumentShare,
    document_index: u64,
    invitee: Identity,
    now: i64,
) -> (r: Result<(), ErrorCode>)
    ensures
        final(ctx).profile == old(ctx).profile,
        final(ctx).document == old(ctx).document,
        match r {
            Ok(_) => {
                &&& old(ctx).document.profile@ == old(ctx).profile@
                &&& final(ctx).document_share == toggled_share(old(ctx).document_share, now)
            },
            Err(e) => {
                &&& e == ErrorCode::OnlyProfileOwnerCanAccess
                &&& old(ctx).document.profile@ != old(ctx).profile@
                &&& final(ctx).document_share == old(ctx).document_share
            },
        },
{
    if ctx.profile != ctx.document.profile {
        return Err(ErrorCode::OnlyProfileOwnerCanAccess);
    }
    ctx.document_share.updated = now;
    ctx.document_share.is_active = !ctx.document_share.is_active;
    Ok(())
}

} // verus!
