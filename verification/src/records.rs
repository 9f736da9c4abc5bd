//! The records the registry files: property types and credentials.

use vstd::prelude::*;
use crate::bounded::{
    account_items, accounts_empty, accounts_index, accounts_len, accounts_try_push, text_bytes,
    text_empty, text_try_push, uri_bytes, uri_empty, uri_eq, uri_try_push, AccountList, Text, Uri,
};
use crate::events::Error;
use crate::identity::AccountId;
use crate::limits::{MAX_ASCII_TEXT_LENGTH, MAX_COUNT, MAX_URI_LENGTH};

verus! {

/// Whether `bytes` is short enough for a content identifier.
pub open spec fn fits_uri(bytes: Seq<u8>) -> bool {
    bytes.len() <= MAX_URI_LENGTH
}

/// Whether `bytes` is short enough for a title or an attribute blob.
pub open spec fn fits_text(bytes: Seq<u8>) -> bool {
    bytes.len() <= MAX_ASCII_TEXT_LENGTH
}

/// Builds a content identifier out of `bytes`, one byte at a time.
///
/// Succeeds exactly when `bytes` fits; the identifier then holds `bytes`.
pub fn uri_from_bytes(bytes: &[u8]) -> (r: Result<Uri, Error>)
    ensures
        r.is_ok() <==> fits_uri(bytes@),
        r matches Ok(uri) ==> uri_bytes(uri) == bytes@,
        r matches Err(e) ==> e == Error::UriOverflow,
{
    let mut uri = uri_empty();
    let mut i: usize = 0;
    while i < bytes.len()
        invariant
            i <= bytes.len(),
            i <= MAX_URI_LENGTH,
            uri_bytes(uri) == bytes@.take(i as int),
        decreases bytes.len() - i,
    {
        match uri_try_push(&mut uri, bytes[i]) {
            Ok(()) => {},
            Err(_) => {
                return Err(Error::UriOverflow);
            },
        }
        i += 1;
    }
    Ok(uri)
}

/// Builds a title or an attribute blob out of `bytes`, one byte at a time.
///
/// Succeeds exactly when `bytes` fits; the field then holds `bytes`.
pub fn text_from_bytes(bytes: &[u8]) -> (r: Result<Text, Error>)
    ensures
        r.is_ok() <==> fits_text(bytes@),
        r matches Ok(text) ==> text_bytes(text) == bytes@,
        r matches Err(e) ==> e == Error::UriOverflow,
{
    let mut text = text_empty();
    let mut i: usize = 0;
    while i < bytes.len()
        invariant
            i <= bytes.len(),
            i <= MAX_ASCII_TEXT_LENGTH,
            text_bytes(text) == bytes@.take(i as int),
        decreases bytes.len() - i,
    {
        match text_try_push(&mut text, bytes[i]) {
            Ok(()) => {},
            Err(_) => {
                return Err(Error::UriOverflow);
            },
        }
        i += 1;
    }
    Ok(text)
}

/// The metadata filed for a kind of property.
#[derive(Debug, PartialEq)]
pub struct PropertyType {
    pub title: Text,
    pub registrar: AccountId,
    pub attributes: Text,
    pub cid: Uri,
    pub timestamp: u64,
}

/// What a [`PropertyType`] holds.
pub struct PropertyTypeView {
    pub title: Seq<u8>,
    pub registrar: AccountId,
    pub attributes: Seq<u8>,
    pub cid: Seq<u8>,
    pub timestamp: u64,
}

impl View for PropertyType {
    type V = PropertyTypeView;

    open spec fn view(&self) -> PropertyTypeView {
        PropertyTypeView {
            title: text_bytes(self.title),
            registrar: self.registrar,
            attributes: text_bytes(self.attributes),
            cid: uri_bytes(self.cid),
            timestamp: self.timestamp,
        }
    }
}

impl PropertyType {
    /// Whether a property type can be made of these three byte strings.
    pub open spec fn admissible(name: Seq<u8>, cid: Seq<u8>, props: Seq<u8>) -> bool {
        fits_uri(cid) && fits_text(name) && fits_text(props)
    }

    /// Makes the record that `registrar` files at time `now`.
    ///
    /// Succeeds exactly when the title, the content identifier and the
    /// attributes all fit their fields.
    pub fn new(registrar: AccountId, name: &[u8], cid: &[u8], props: &[u8], now: u64) -> (r: Result<
        PropertyType,
        Error,
    >)
        ensures
            r.is_ok() <==> Self::admissible(name@, cid@, props@),
            r matches Ok(p) ==> p@ == (PropertyTypeView {
                title: name@,
                registrar,
                attributes: props@,
                cid: cid@,
                timestamp: now,
            }),
            r matches Err(e) ==> e == Error::UriOverflow,
    {
        let uri = match uri_from_bytes(cid) {
            Ok(uri) => uri,
            Err(e) => {
                return Err(e);
            },
        };
        let title = match text_from_bytes(name) {
            Ok(title) => title,
            Err(e) => {
                return Err(e);
            },
        };
        let attributes = match text_from_bytes(props) {
            Ok(attributes) => attributes,
            Err(e) => {
                return Err(e);
            },
        };
        Ok(PropertyType { title, registrar, attributes, cid: uri, timestamp: now })
    }
}

/// One version of a document's custody record.
///
/// The holder of the credential is the last entry of `owners`. `timestamp` is
/// zero until a canonical verifier attests the version.
#[derive(Debug, PartialEq)]
pub struct Credential {
    pub owners: AccountList,
    pub verifiers: AccountList,
    pub cid: Uri,
    pub timestamp: u64,
}

/// What a [`Credential`] holds.
pub struct CredentialView {
    pub owners: Seq<AccountId>,
    pub verifiers: Seq<AccountId>,
    pub cid: Seq<u8>,
    pub timestamp: u64,
}

impl View for Credential {
    type V = CredentialView;

    open spec fn view(&self) -> CredentialView {
        CredentialView {
            owners: account_items(self.owners),
            verifiers: account_items(self.verifiers),
            cid: uri_bytes(self.cid),
            timestamp: self.timestamp,
        }
    }
}

impl CredentialView {
    /// The credential that `owner` opens for the document `cid`: nobody held
    /// it before, nobody attested it.
    pub open spec fn fresh(owner: AccountId, cid: Seq<u8>) -> CredentialView {
        CredentialView { owners: seq![owner], verifiers: Seq::empty(), cid, timestamp: 0 }
    }

    /// Whether `who` is the current owner and the credential governs the
    /// document `cid`.
    pub open spec fn held_by(self, who: AccountId, cid: Seq<u8>) -> bool {
        self.owners.len() > 0 && self.owners.last() == who && self.cid == cid
    }

    /// The credential after `recipient` took it over: the chain so far, then
    /// `recipient`.
    pub open spec fn handed_to(self, recipient: AccountId) -> CredentialView {
        CredentialView { owners: self.owners.push(recipient), ..self }
    }

    /// The credential after its document was superseded by `cid`.
    pub open spec fn reissued(self, cid: Seq<u8>) -> CredentialView {
        CredentialView { cid, ..self }
    }

    /// The credential after `verifier` signed it at time `now`. Only a
    /// canonical verifier moves the timestamp.
    pub open spec fn attested(self, verifier: AccountId, canonical: bool, now: u64) -> CredentialView {
        CredentialView {
            verifiers: self.verifiers.push(verifier),
            timestamp: if canonical {
                now
            } else {
                self.timestamp
            },
            ..self
        }
    }
}

impl Credential {
    /// Opens a credential for the document `cid`, held by `owner`.
    pub fn new(owner: AccountId, cid: Uri) -> (r: Credential)
        ensures
            r@ == CredentialView::fresh(owner, uri_bytes(cid)),
    {
        let mut owners = accounts_empty();
        let pushed = accounts_try_push(&mut owners, owner);
        assert(pushed.is_ok());
        Credential { owners, verifiers: accounts_empty(), cid, timestamp: 0 }
    }

    /// Whether `who` is the current owner and the credential governs `cid`.
    pub fn held_by(&self, who: &AccountId, cid: &Uri) -> (r: bool)
        ensures
            r == self@.held_by(*who, uri_bytes(*cid)),
    {
        let n: usize = accounts_len(&self.owners);
        if n == 0 {
            return false;
        }
        let current = accounts_index(&self.owners, n - 1);
        *current == *who && uri_eq(&self.cid, cid)
    }

    /// Whether the verifier list has no room left.
    pub fn verifiers_full(&self) -> (r: bool)
        ensures
            r == (self@.verifiers.len() >= MAX_COUNT),
    {
        accounts_len(&self.verifiers) >= MAX_COUNT as usize
    }
}

} // verus!
