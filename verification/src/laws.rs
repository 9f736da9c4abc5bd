//! Laws of the registry: what holds of every state and every argument.
//!
//! Each law is proved from the functions in [`crate::registry`] and
//! [`crate::custody`] that say what an operation does. The executable
//! operations are proved against the same functions, so the laws hold of them
//! too.

use vstd::prelude::*;
use crate::custody::{first_held, is_first_held, lemma_first_held_exists, lemma_first_held_is};
use crate::events::{is_refusal, Error};
use crate::identity::{AccountId, PropertyId};
use crate::limits::MAX_COUNT;
use crate::records::{fits_text, fits_uri};
use crate::registry::RegistryView;

verus! {

/// A content identifier beyond its capacity is refused with `UriOverflow` by
/// every operation, in whichever place it is passed.
pub proof fn law_long_identifier_refused(
    s: RegistryView,
    who: AccountId,
    other: AccountId,
    hash: PropertyId,
    long: Seq<u8>,
    a: Seq<u8>,
    b: Seq<u8>,
    flag: bool,
    now: u64,
)
    requires
        !fits_uri(long),
    ensures
        is_refusal(s.record_user(who, long), Error::UriOverflow),
        is_refusal(s.record_ptype(who, hash, a, long, b, now), Error::UriOverflow),
        is_refusal(s.record_credential(who, hash, long), Error::UriOverflow),
        is_refusal(s.transfer_property(who, other, hash, long, a, b, flag), Error::UriOverflow),
        is_refusal(s.transfer_property(who, other, hash, a, long, b, flag), Error::UriOverflow),
        is_refusal(s.transfer_property(who, other, hash, a, b, long, flag), Error::UriOverflow),
        is_refusal(s.attest_claim(who, hash, long, flag, now), Error::UriOverflow),
{
}

/// A title or an attribute blob beyond its capacity is refused with
/// `UriOverflow`.
pub proof fn law_long_text_refused(
    s: RegistryView,
    who: AccountId,
    hash: PropertyId,
    long: Seq<u8>,
    cid: Seq<u8>,
    a: Seq<u8>,
    now: u64,
)
    requires
        !fits_text(long),
    ensures
        is_refusal(s.record_ptype(who, hash, long, cid, a, now), Error::UriOverflow),
        is_refusal(s.record_ptype(who, hash, a, cid, long, now), Error::UriOverflow),
{
}

/// Opening a credential under a property whose history is full is refused
/// with `CountOverflow`.
pub proof fn law_full_history_refuses_credential(
    s: RegistryView,
    who: AccountId,
    hash: PropertyId,
    cid: Seq<u8>,
)
    requires
        fits_uri(cid),
        s.history(hash).len() >= MAX_COUNT,
    ensures
        is_refusal(s.record_credential(who, hash, cid), Error::CountOverflow),
{
}

/// A transfer that would outgrow a list is refused with `CountOverflow`: a
/// full transfer when the owner chain of the credential is full, a partial
/// transfer when the history of the property is.
pub proof fn law_full_list_refuses_transfer(
    s: RegistryView,
    sender: AccountId,
    recipient: AccountId,
    property_id: PropertyId,
    original: Seq<u8>,
    new_sender: Seq<u8>,
    for_recipient: Seq<u8>,
    transfer_all: bool,
    i: int,
)
    requires
        fits_uri(original),
        fits_uri(new_sender),
        fits_uri(for_recipient),
        s.credentials.contains_key(property_id),
        is_first_held(s.credentials[property_id], sender, original, i),
        if transfer_all {
            s.credentials[property_id][i].owners.len() >= MAX_COUNT
        } else {
            s.credentials[property_id].len() >= MAX_COUNT
        },
    ensures
        is_refusal(
            s.transfer_property(
                sender,
                recipient,
                property_id,
                original,
                new_sender,
                for_recipient,
                transfer_all,
            ),
            Error::CountOverflow,
        ),
{
    lemma_first_held_is(s.credentials[property_id], sender, original, i);
}

/// An attestation is refused with `CountOverflow` when the verifier list of a
/// credential that governs the document is full.
pub proof fn law_full_verifier_list_refuses_attestation(
    s: RegistryView,
    verifier: AccountId,
    property_id: PropertyId,
    cid: Seq<u8>,
    canonical: bool,
    now: u64,
    i: int,
)
    requires
        fits_uri(cid),
        s.credentials.contains_key(property_id),
        0 <= i < s.credentials[property_id].len(),
        s.credentials[property_id][i].cid == cid,
        s.credentials[property_id][i].verifiers.len() >= MAX_COUNT,
    ensures
        is_refusal(
            s.attest_claim(verifier, property_id, cid, canonical, now),
            Error::CountOverflow,
        ),
{
}

/// Registering a user twice leaves only the second content identifier on
/// record: the state is what the second registration alone would have left.
pub proof fn law_latest_user_record_wins(
    s: RegistryView,
    who: AccountId,
    first: Seq<u8>,
    second: Seq<u8>,
)
    requires
        fits_uri(second),
    ensures
        ({
            let between = match s.record_user(who, first) {
                Ok(t) => t,
                Err(_) => s,
            };
            &&& between.record_user(who, second) matches Ok(after)
            &&& after.users.contains_key(who)
            &&& after.users[who] == second
            &&& s.record_user(who, second) matches Ok(direct)
            &&& direct == after
        }),
{
}

/// A successful full transfer appends the recipient to the owner chain of
/// the credential that the sender held: the earlier owners stay, in their
/// order, and the recipient is the current owner. Nothing else changes.
pub proof fn law_full_transfer_appends_owner(
    s: RegistryView,
    sender: AccountId,
    recipient: AccountId,
    property_id: PropertyId,
    original: Seq<u8>,
    new_sender: Seq<u8>,
    for_recipient: Seq<u8>,
)
    requires
        s.transfer_property(
            sender,
            recipient,
            property_id,
            original,
            new_sender,
            for_recipient,
            true,
        ).is_ok(),
    ensures
        ({
            let after = s.transfer_property(
                sender,
                recipient,
                property_id,
                original,
                new_sender,
                for_recipient,
                true,
            )->Ok_0;
            let h = s.credentials[property_id];
            let h2 = after.credentials[property_id];
            let i = first_held(h, sender, original);
            &&& is_first_held(h, sender, original, i)
            &&& h2.len() == h.len()
            &&& h2[i].owners.len() == h[i].owners.len() + 1
            &&& h2[i].owners.take(h[i].owners.len() as int) == h[i].owners
            &&& h2[i].owners.last() == recipient
            &&& h2[i].verifiers == h[i].verifiers
            &&& h2[i].cid == h[i].cid
            &&& h2[i].timestamp == h[i].timestamp
            &&& forall|j: int| 0 <= j < h.len() && j != i ==> h2[j] == h[j]
            &&& after.users == s.users
            &&& after.ptypes == s.ptypes
            &&& forall|p: PropertyId|
                p != property_id ==> after.credentials.contains_key(p) == s.credentials.contains_key(
                    p,
                ) && after.credentials[p] == s.credentials[p]
        }),
{
    let h = s.credentials[property_id];
    let k = choose|k: int| 0 <= k < h.len() && (#[trigger] h[k]).held_by(sender, original);
    lemma_first_held_exists(h, sender, original, k);
}

/// A transfer is refused with `PropertyEntryNotFound` when no credential of
/// the property both governs the document and has the sender as its current
/// owner, whatever other credentials of the property the sender holds.
pub proof fn law_transfer_needs_holder(
    s: RegistryView,
    sender: AccountId,
    recipient: AccountId,
    property_id: PropertyId,
    original: Seq<u8>,
    new_sender: Seq<u8>,
    for_recipient: Seq<u8>,
    transfer_all: bool,
)
    requires
        fits_uri(original),
        fits_uri(new_sender),
        fits_uri(for_recipient),
        forall|i: int|
            0 <= i < s.history(property_id).len() && (#[trigger] s.history(property_id)[i]).cid
                == original ==> !(s.history(property_id)[i].owners.len() > 0 && s.history(
                property_id,
            )[i].owners.last() == sender),
    ensures
        is_refusal(
            s.transfer_property(
                sender,
                recipient,
                property_id,
                original,
                new_sender,
                for_recipient,
                transfer_all,
            ),
            Error::PropertyEntryNotFound,
        ),
{
    if s.credentials.contains_key(property_id) {
        let h = s.credentials[property_id];
        assert(h == s.history(property_id));
    }
}

/// A successful partial transfer reissues the sender's credential under the
/// new content identifier, its owner chain as it was, and opens at the end of
/// the history a credential of which the recipient is the sole owner.
pub proof fn law_partial_transfer_branches(
    s: RegistryView,
    sender: AccountId,
    recipient: AccountId,
    property_id: PropertyId,
    original: Seq<u8>,
    new_sender: Seq<u8>,
    for_recipient: Seq<u8>,
)
    requires
        s.transfer_property(
            sender,
            recipient,
            property_id,
            original,
            new_sender,
            for_recipient,
            false,
        ).is_ok(),
    ensures
        ({
            let after = s.transfer_property(
                sender,
                recipient,
                property_id,
                original,
                new_sender,
                for_recipient,
                false,
            )->Ok_0;
            let h = s.credentials[property_id];
            let h2 = after.credentials[property_id];
            let i = first_held(h, sender, original);
            &&& is_first_held(h, sender, original, i)
            &&& h2.len() == h.len() + 1
            &&& h2[i].cid == new_sender
            &&& h2[i].owners == h[i].owners
            &&& h2[i].verifiers == h[i].verifiers
            &&& h2[i].timestamp == h[i].timestamp
            &&& forall|j: int| 0 <= j < h.len() && j != i ==> h2[j] == h[j]
            &&& h2.last().owners == seq![recipient]
            &&& h2.last().verifiers == Seq::<AccountId>::empty()
            &&& h2.last().cid == for_recipient
            &&& h2.last().timestamp == 0
        }),
{
    let h = s.credentials[property_id];
    let k = choose|k: int| 0 <= k < h.len() && (#[trigger] h[k]).held_by(sender, original);
    lemma_first_held_exists(h, sender, original, k);
}

/// Two successful attestations of one document leave both verifiers on every
/// credential that governs it, in the order of the calls. The timestamp of
/// such a credential is the time of the later canonical attestation; without
/// a canonical one it is what it was. Credentials of other documents are
/// left alone.
pub proof fn law_attestations_accumulate(
    s: RegistryView,
    property_id: PropertyId,
    cid: Seq<u8>,
    first: AccountId,
    first_canonical: bool,
    first_now: u64,
    second: AccountId,
    second_canonical: bool,
    second_now: u64,
)
    requires
        s.attest_claim(first, property_id, cid, first_canonical, first_now) matches Ok(between)
            && between.attest_claim(second, property_id, cid, second_canonical, second_now).is_ok(),
    ensures
        ({
            let between = s.attest_claim(first, property_id, cid, first_canonical, first_now)->Ok_0;
            let after = between.attest_claim(
                second,
                property_id,
                cid,
                second_canonical,
                second_now,
            )->Ok_0;
            let h = s.credentials[property_id];
            let h2 = after.credentials[property_id];
            &&& h2.len() == h.len()
            &&& forall|j: int|
                0 <= j < h.len() && (#[trigger] h[j]).cid == cid ==> {
                    &&& h2[j].verifiers == h[j].verifiers.push(first).push(second)
                    &&& h2[j].timestamp == if second_canonical {
                        second_now
                    } else if first_canonical {
                        first_now
                    } else {
                        h[j].timestamp
                    }
                    &&& h2[j].owners == h[j].owners
                    &&& h2[j].cid == cid
                }
            &&& forall|j: int| 0 <= j < h.len() && (#[trigger] h[j]).cid != cid ==> h2[j] == h[j]
        }),
{
}

} // verus!
