//! The registry: three tables, and the five operations that write them.
//!
//! An operation is one atomic step. What it does is stated as a function from
//! the registry's state to the state after, or to the reason for refusing,
//! and the executable operation is proved to follow it: a success leaves
//! exactly that state and yields the event to log; a refusal leaves the state
//! as it was.
//!
//! The caller's identity and the time are arguments: the host establishes
//! both before it calls.

use vstd::prelude::*;
use crate::bounded::{credentials_empty, uri_bytes, CredentialList, Uri};
use crate::custody::{
    append, append_outcome, attest, attest_outcome, history_view, transfer, transfer_outcome,
};
use crate::events::{Error, Event};
use crate::identity::{AccountId, PropertyId};
use crate::records::{
    fits_uri, uri_from_bytes, Credential, CredentialView, PropertyType, PropertyTypeView,
};
use crate::table::Table;

verus! {

/// The registry's state.
pub struct Pallet {
    users: Table<Uri>,
    ptypes: Table<PropertyType>,
    credentials: Table<CredentialList>,
}

/// What the registry holds: for each user the content identifier of the user
/// record, for each property id its type, and for each property id its
/// credential history.
#[verifier::ext_equal]
pub struct RegistryView {
    pub users: Map<AccountId, Seq<u8>>,
    pub ptypes: Map<PropertyId, PropertyTypeView>,
    pub credentials: Map<PropertyId, Seq<CredentialView>>,
}

impl RegistryView {
    /// The registry in which nothing was filed yet.
    pub open spec fn empty() -> RegistryView {
        RegistryView { users: Map::empty(), ptypes: Map::empty(), credentials: Map::empty() }
    }

    /// The credential history filed under `hash`; empty when none is.
    pub open spec fn history(self, hash: PropertyId) -> Seq<CredentialView> {
        if self.credentials.contains_key(hash) {
            self.credentials[hash]
        } else {
            Seq::empty()
        }
    }

    /// The state after `who` registered under the content identifier `cid`.
    /// An earlier record of `who` is overwritten.
    pub open spec fn record_user(self, who: AccountId, cid: Seq<u8>) -> Result<RegistryView, Error> {
        if !fits_uri(cid) {
            Err(Error::UriOverflow)
        } else {
            Ok(RegistryView { users: self.users.insert(who, cid), ..self })
        }
    }

    /// The state after `who` filed a property type under `hash` at time
    /// `now`. An earlier type under `hash` is overwritten.
    pub open spec fn record_ptype(
        self,
        who: AccountId,
        hash: PropertyId,
        name: Seq<u8>,
        cid: Seq<u8>,
        props: Seq<u8>,
        now: u64,
    ) -> Result<RegistryView, Error> {
        if !PropertyType::admissible(name, cid, props) {
            Err(Error::UriOverflow)
        } else {
            Ok(
                RegistryView {
                    ptypes: self.ptypes.insert(
                        hash,
                        PropertyTypeView {
                            title: name,
                            registrar: who,
                            attributes: props,
                            cid,
                            timestamp: now,
                        },
                    ),
                    ..self
                },
            )
        }
    }

    /// The state after `who` opened a credential for the document `cid` under
    /// `hash`: the credential goes to the end of the history filed there,
    /// which starts out empty.
    pub open spec fn record_credential(self, who: AccountId, hash: PropertyId, cid: Seq<u8>) -> Result<
        RegistryView,
        Error,
    > {
        if !fits_uri(cid) {
            Err(Error::UriOverflow)
        } else {
            match append_outcome(self.history(hash), CredentialView::fresh(who, cid)) {
                Ok(h) => Ok(RegistryView { credentials: self.credentials.insert(hash, h), ..self }),
                Err(e) => Err(e),
            }
        }
    }

    /// The state after `sender` transferred the document `original` of the
    /// property `property_id` to `recipient`.
    pub open spec fn transfer_property(
        self,
        sender: AccountId,
        recipient: AccountId,
        property_id: PropertyId,
        original: Seq<u8>,
        new_sender: Seq<u8>,
        for_recipient: Seq<u8>,
        transfer_all: bool,
    ) -> Result<RegistryView, Error> {
        if !fits_uri(original) || !fits_uri(new_sender) || !fits_uri(for_recipient) {
            Err(Error::UriOverflow)
        } else if !self.credentials.contains_key(property_id) {
            Err(Error::PropertyEntryNotFound)
        } else {
            match transfer_outcome(
                self.credentials[property_id],
                sender,
                recipient,
                original,
                new_sender,
                for_recipient,
                transfer_all,
            ) {
                Ok(h) => Ok(
                    RegistryView { credentials: self.credentials.insert(property_id, h), ..self },
                ),
                Err(e) => Err(e),
            }
        }
    }

    /// The state after `verifier` attested the document `cid` of the property
    /// `property_id` at time `now`.
    pub open spec fn attest_claim(
        self,
        verifier: AccountId,
        property_id: PropertyId,
        cid: Seq<u8>,
        canonical: bool,
        now: u64,
    ) -> Result<RegistryView, Error> {
        if !fits_uri(cid) {
            Err(Error::UriOverflow)
        } else if !self.credentials.contains_key(property_id) {
            Err(Error::PropertyEntryNotFound)
        } else {
            match attest_outcome(self.credentials[property_id], verifier, cid, canonical, now) {
                Ok(h) => Ok(
                    RegistryView { credentials: self.credentials.insert(property_id, h), ..self },
                ),
                Err(e) => Err(e),
            }
        }
    }
}

spec fn users_of(t: Map<[u8; 32], Uri>) -> Map<AccountId, Seq<u8>> {
    Map::new(|a: AccountId| t.contains_key(a.bytes), |a: AccountId| uri_bytes(t[a.bytes]))
}

spec fn ptypes_of(t: Map<[u8; 32], PropertyType>) -> Map<PropertyId, PropertyTypeView> {
    Map::new(|p: PropertyId| t.contains_key(p.bytes), |p: PropertyId| t[p.bytes]@)
}

spec fn credentials_of(t: Map<[u8; 32], CredentialList>) -> Map<PropertyId, Seq<CredentialView>> {
    Map::new(|p: PropertyId| t.contains_key(p.bytes), |p: PropertyId| history_view(t[p.bytes]))
}

impl View for Pallet {
    type V = RegistryView;

    closed spec fn view(&self) -> RegistryView {
        RegistryView {
            users: users_of(self.users@),
            ptypes: ptypes_of(self.ptypes@),
            credentials: credentials_of(self.credentials@),
        }
    }
}

impl Pallet {
    /// A registry in which nothing was filed yet.
    pub fn new() -> (r: Self)
        ensures
            r@ == RegistryView::empty(),
    {
        Pallet { users: Table::new(), ptypes: Table::new(), credentials: Table::new() }
    }

    /// The content identifier that `who` registered under, if any.
    pub fn user_reg(&self, who: &AccountId) -> (r: Option<&Uri>)
        ensures
            r.is_some() == self@.users.contains_key(*who),
            r matches Some(uri) ==> uri_bytes(*uri) == self@.users[*who],
    {
        self.users.get(&who.bytes)
    }

    /// The property type filed under `hash`, if any.
    pub fn ptype_reg(&self, hash: &PropertyId) -> (r: Option<&PropertyType>)
        ensures
            r.is_some() == self@.ptypes.contains_key(*hash),
            r matches Some(p) ==> p@ == self@.ptypes[*hash],
    {
        self.ptypes.get(&hash.bytes)
    }

    /// The credential history filed under `hash`, if any.
    pub fn cred_reg(&self, hash: &PropertyId) -> (r: Option<&CredentialList>)
        ensures
            r.is_some() == self@.credentials.contains_key(*hash),
            r matches Some(list) ==> history_view(*list) == self@.credentials[*hash],
    {
        self.credentials.get(&hash.bytes)
    }

    /// Registers `who` under the content identifier `cid`.
    pub fn record_user(&mut self, who: AccountId, cid: Vec<u8>) -> (r: Result<Event, Error>)
        ensures
            match old(self)@.record_user(who, cid@) {
                Ok(s) => r matches Ok(ev) && ev == (Event::NewUserRecorded { cid }) && final(self)@
                    == s,
                Err(e) => r matches Err(x) && x == e && final(self)@ == old(self)@,
            },
    {
        let uri = match uri_from_bytes(cid.as_slice()) {
            Ok(uri) => uri,
            Err(e) => {
                return Err(e);
            },
        };
        self.users.insert(who.bytes, uri);
        Ok(Event::NewUserRecorded { cid })
    }

    /// Files a property type under `hash` in the name of `who`, at time
    /// `now`.
    pub fn record_ptype(
        &mut self,
        who: AccountId,
        hash: PropertyId,
        name: Vec<u8>,
        cid: Vec<u8>,
        props: Vec<u8>,
        now: u64,
    ) -> (r: Result<Event, Error>)
        ensures
            match old(self)@.record_ptype(who, hash, name@, cid@, props@, now) {
                Ok(s) => r matches Ok(ev) && ev == (Event::NewPropertyTypeRecorded { cid })
                    && final(self)@ == s,
                Err(e) => r matches Err(x) && x == e && final(self)@ == old(self)@,
            },
    {
        let record = match PropertyType::new(
            who,
            name.as_slice(),
            cid.as_slice(),
            props.as_slice(),
            now,
        ) {
            Ok(record) => record,
            Err(e) => {
                return Err(e);
            },
        };
        self.ptypes.insert(hash.bytes, record);
        Ok(Event::NewPropertyTypeRecorded { cid })
    }

    /// Opens a credential for the document `cid` under `hash`, held by `who`.
    pub fn record_credential(&mut self, who: AccountId, hash: PropertyId, cid: Vec<u8>) -> (r: Result<
        Event,
        Error,
    >)
        ensures
            match old(self)@.record_credential(who, hash, cid@) {
                Ok(s) => r matches Ok(ev) && ev == (Event::NewPropertyCredentialCreated { cid })
                    && final(self)@ == s,
                Err(e) => r matches Err(x) && x == e && final(self)@ == old(self)@,
            },
    {
        let uri = match uri_from_bytes(cid.as_slice()) {
            Ok(uri) => uri,
            Err(e) => {
                return Err(e);
            },
        };
        let credential = Credential::new(who, uri);
        match self.credentials.get_mut(&hash.bytes) {
            Some(list) => {
                match append(list, credential) {
                    Ok(()) => {},
                    Err(e) => {
                        return Err(e);
                    },
                }
            },
            None => {
                let mut list = credentials_empty();
                match append(&mut list, credential) {
                    Ok(()) => {},
                    Err(e) => {
                        return Err(e);
                    },
                }
                assert(history_view(list) == seq![credential@]);
                self.credentials.insert(hash.bytes, list);
            },
        }
        Ok(Event::NewPropertyCredentialCreated { cid })
    }

    /// Transfers the document `original_document_cid` of the property
    /// `property_id` from `sender` to `recipient`.
    ///
    /// With `transfer_all`, the credential goes over as it is. Without, the
    /// sender's credential is reissued under `new_sender_credential_cid` and
    /// the recipient gets a fresh one under `recipient_credential_cid`.
    pub fn transfer_property(
        &mut self,
        sender: AccountId,
        recipient: AccountId,
        property_id: PropertyId,
        original_document_cid: Vec<u8>,
        new_sender_credential_cid: Vec<u8>,
        recipient_credential_cid: Vec<u8>,
        transfer_all: bool,
    ) -> (r: Result<Event, Error>)
        ensures
            match old(self)@.transfer_property(
                sender,
                recipient,
                property_id,
                original_document_cid@,
                new_sender_credential_cid@,
                recipient_credential_cid@,
                transfer_all,
            ) {
                Ok(s) => r matches Ok(ev) && ev == (Event::PropertyTransferred {
                    sender,
                    recipient,
                    property_id,
                }) && final(self)@ == s,
                Err(e) => r matches Err(x) && x == e && final(self)@ == old(self)@,
            },
    {
        let original = match uri_from_bytes(original_document_cid.as_slice()) {
            Ok(uri) => uri,
            Err(e) => {
                return Err(e);
            },
        };
        let new_sender = match uri_from_bytes(new_sender_credential_cid.as_slice()) {
            Ok(uri) => uri,
            Err(e) => {
                return Err(e);
            },
        };
        let for_recipient = match uri_from_bytes(recipient_credential_cid.as_slice()) {
            Ok(uri) => uri,
            Err(e) => {
                return Err(e);
            },
        };
        match self.credentials.get_mut(&property_id.bytes) {
            Some(list) => {
                match transfer(
                    list,
                    sender,
                    recipient,
                    &original,
                    new_sender,
                    for_recipient,
                    transfer_all,
                ) {
                    Ok(()) => Ok(Event::PropertyTransferred { sender, recipient, property_id }),
                    Err(e) => Err(e),
                }
            },
            None => Err(Error::PropertyEntryNotFound),
        }
    }

    /// Records that `verifier` attested the document `cid` of the property
    /// `property_id` at time `now`. Only a canonical verifier's attestation
    /// moves a credential's timestamp.
    pub fn attest_claim(
        &mut self,
        verifier: AccountId,
        property_id: PropertyId,
        cid: Vec<u8>,
        is_canonical_verifier: bool,
        now: u64,
    ) -> (r: Result<Event, Error>)
        ensures
            match old(self)@.attest_claim(verifier, property_id, cid@, is_canonical_verifier, now) {
                Ok(s) => r matches Ok(ev) && ev == (Event::PropertyClaimAttested {
                    verifier,
                    property_id,
                }) && final(self)@ == s,
                Err(e) => r matches Err(x) && x == e && final(self)@ == old(self)@,
            },
    {
        let uri = match uri_from_bytes(cid.as_slice()) {
            Ok(uri) => uri,
            Err(e) => {
                return Err(e);
            },
        };
        match self.credentials.get_mut(&property_id.bytes) {
            Some(list) => {
                match attest(list, verifier, &uri, is_canonical_verifier, now) {
                    Ok(()) => Ok(Event::PropertyClaimAttested { verifier, property_id }),
                    Err(e) => Err(e),
                }
            },
            None => Err(Error::PropertyEntryNotFound),
        }
    }
}

} // verus!
