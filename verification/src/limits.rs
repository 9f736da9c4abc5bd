//! Capacities fixed when the registry is deployed.

use vstd::prelude::*;

verus! {

/// Largest number of bytes a content identifier may hold.
pub const MAX_URI_LENGTH: u32 = 128;

/// Largest number of bytes a title or an attribute blob may hold.
pub const MAX_ASCII_TEXT_LENGTH: u32 = 256;

/// Largest number of entries in an owner chain, a verifier list, or the
/// credential history of one property.
pub const MAX_COUNT: u32 = 64;

} // verus!
