//! A document-sharing registry: profiles own documents, and documents carry
//! per-invitee shares that their owner can switch on and off. Every record
//! lives at an address derived from what it is about, so the address is the
//! only index there is.

pub mod identity;
pub mod decimal;
pub mod address;
pub mod records;
pub mod instructions;
pub mod ledger;
pub mod machine;
pub mod laws;
