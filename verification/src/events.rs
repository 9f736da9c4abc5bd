//! What an operation reports back: the event of a success, or why it failed.

use vstd::prelude::*;
use crate::identity::{AccountId, PropertyId};

verus! {

/// Why an operation was refused. A refused operation changes nothing.
#[derive(Clone, Copy, Debug, PartialEq, Eq, Structural)]
pub enum Error {
    /// A title, an attribute blob or a content identifier is longer than its
    /// capacity.
    UriOverflow,
    /// An owner chain, a verifier list or a credential history is full.
    CountOverflow,
    /// No credential history is filed under the property id, or none of its
    /// credentials is the one the sender holds.
    PropertyEntryNotFound,
}

/// Whether `outcome` is the refusal for the reason `e`.
pub open spec fn is_refusal<T>(outcome: Result<T, Error>, e: Error) -> bool {
    outcome matches Err(x) && x == e
}

/// What a successful operation hands to the host's event log.
#[derive(Debug, PartialEq, Eq)]
pub enum Event {
    /// A user record was written.
    NewUserRecorded { cid: Vec<u8> },
    /// A property type was written.
    NewPropertyTypeRecorded { cid: Vec<u8> },
    /// A credential, not yet attested, was opened.
    NewPropertyCredentialCreated { cid: Vec<u8> },
    /// A credential went from one holder to another.
    PropertyTransferred { sender: AccountId, recipient: AccountId, property_id: PropertyId },
    /// A verifier signed a claim.
    PropertyClaimAttested { verifier: AccountId, property_id: PropertyId },
}

} // verus!
