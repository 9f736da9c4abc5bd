//! A registry of property titles: who filed which kind of property, who holds
//! which version of a document, and who attested it.
//!
//! Every operation is one atomic step on the registry's state. It either
//! succeeds, changing the state and yielding the event to log, or it fails
//! with an [`Error`] and changes nothing.

pub mod bounded;
pub mod custody;
pub mod events;
pub mod identity;
pub mod laws;
pub mod limits;
pub mod outside;
pub mod records;
pub mod registry;
pub mod table;

pub use crate::events::{Error, Event};
pub use crate::identity::{AccountId, PropertyId};
pub use crate::records::{Credential, PropertyType};
pub use crate::registry::Pallet;
