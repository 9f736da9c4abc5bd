//! The credential history of one property, and the steps that change it:
//! opening a credential, transferring one, attesting one.
//!
//! Each step is stated as a function from the history before to the history
//! after, or to the reason for refusing. The executable step works on the
//! stored history in place and is proved to leave behind exactly that result;
//! a refused step leaves the history as it found it.

use vstd::prelude::*;
use crate::bounded::{
    accounts_try_push, credential_items, credentials_index, credentials_index_mut,
    credentials_len, credentials_try_push, uri_bytes, uri_eq, CredentialList, Uri,
};
use crate::events::Error;
use crate::identity::AccountId;
use crate::limits::MAX_COUNT;
use crate::records::{Credential, CredentialView};

verus! {

/// What a history holds: the view of each credential, oldest first.
pub open spec fn history_view(list: CredentialList) -> Seq<CredentialView> {
    credential_items(list).map_values(|c: Credential| c@)
}

/// Whether some credential of `h` governs `cid` and is held by `who`.
pub open spec fn any_held(h: Seq<CredentialView>, who: AccountId, cid: Seq<u8>) -> bool {
    exists|i: int| 0 <= i < h.len() && (#[trigger] h[i]).held_by(who, cid)
}

/// Whether position `i` is the earliest credential of `h` that governs `cid`
/// and is held by `who`.
pub open spec fn is_first_held(h: Seq<CredentialView>, who: AccountId, cid: Seq<u8>, i: int) -> bool {
    &&& 0 <= i < h.len()
    &&& h[i].held_by(who, cid)
    &&& forall|j: int| 0 <= j < i ==> !(#[trigger] h[j]).held_by(who, cid)
}

/// The position of the earliest credential of `h` that governs `cid` and is
/// held by `who`. Meaningful when [`any_held`] holds.
pub open spec fn first_held(h: Seq<CredentialView>, who: AccountId, cid: Seq<u8>) -> int {
    choose|i: int| is_first_held(h, who, cid, i)
}

/// The history after one more credential was filed, or the refusal when the
/// history is full.
pub open spec fn append_outcome(h: Seq<CredentialView>, c: CredentialView) -> Result<
    Seq<CredentialView>,
    Error,
> {
    if h.len() >= MAX_COUNT {
        Err(Error::CountOverflow)
    } else {
        Ok(h.push(c))
    }
}

/// The history after `sender` transferred the document `original` to
/// `recipient`, or the reason for refusing.
///
/// Only the earliest credential that governs `original` and is held by
/// `sender` takes part. A full transfer appends `recipient` to its owner
/// chain. A partial transfer reissues it under `new_sender` and opens a fresh
/// credential for `recipient` under `for_recipient` at the end of the history.
pub open spec fn transfer_outcome(
    h: Seq<CredentialView>,
    sender: AccountId,
    recipient: AccountId,
    original: Seq<u8>,
    new_sender: Seq<u8>,
    for_recipient: Seq<u8>,
    transfer_all: bool,
) -> Result<Seq<CredentialView>, Error> {
    if !any_held(h, sender, original) {
        Err(Error::PropertyEntryNotFound)
    } else {
        let i = first_held(h, sender, original);
        if transfer_all {
            if h[i].owners.len() >= MAX_COUNT {
                Err(Error::CountOverflow)
            } else {
                Ok(h.update(i, h[i].handed_to(recipient)))
            }
        } else {
            if h.len() >= MAX_COUNT {
                Err(Error::CountOverflow)
            } else {
                Ok(
                    h.update(i, h[i].reissued(new_sender)).push(
                        CredentialView::fresh(recipient, for_recipient),
                    ),
                )
            }
        }
    }
}

/// Whether some credential of `h` that governs `cid` has a full verifier
/// list.
pub open spec fn attest_blocked(h: Seq<CredentialView>, cid: Seq<u8>) -> bool {
    exists|i: int| 0 <= i < h.len() && (#[trigger] h[i]).cid == cid && h[i].verifiers.len() >= MAX_COUNT
}

/// The history after `verifier` attested the document `cid` at time `now`, or
/// the refusal when a verifier list that would grow is full.
///
/// Every credential that governs `cid` is signed; the others stay as they
/// are. A history without such a credential is left unchanged, which is a
/// success.
pub open spec fn attest_outcome(
    h: Seq<CredentialView>,
    verifier: AccountId,
    cid: Seq<u8>,
    canonical: bool,
    now: u64,
) -> Result<Seq<CredentialView>, Error> {
    if attest_blocked(h, cid) {
        Err(Error::CountOverflow)
    } else {
        Ok(
            h.map_values(
                |c: CredentialView|
                    if c.cid == cid {
                        c.attested(verifier, canonical, now)
                    } else {
                        c
                    },
            ),
        )
    }
}

/// The earliest position satisfying [`is_first_held`] is the only one.
pub proof fn lemma_first_held_is(h: Seq<CredentialView>, who: AccountId, cid: Seq<u8>, i: int)
    requires
        is_first_held(h, who, cid, i),
    ensures
        any_held(h, who, cid),
        first_held(h, who, cid) == i,
{
}

/// Among the credentials that `who` holds for `cid`, one is the earliest.
pub proof fn lemma_first_held_exists(h: Seq<CredentialView>, who: AccountId, cid: Seq<u8>, k: int)
    requires
        0 <= k < h.len(),
        h[k].held_by(who, cid),
    ensures
        is_first_held(h, who, cid, first_held(h, who, cid)),
    decreases k,
{
    if forall|j: int| 0 <= j < k ==> !(#[trigger] h[j]).held_by(who, cid) {
        assert(is_first_held(h, who, cid, k));
    } else {
        let j = choose|j: int| 0 <= j < k && (#[trigger] h[j]).held_by(who, cid);
        lemma_first_held_exists(h, who, cid, j);
    }
}

/// Finds the earliest credential that governs `cid` and is held by `who`.
pub fn find_held(list: &CredentialList, who: &AccountId, cid: &Uri) -> (r: Option<usize>)
    ensures
        match r {
            Some(i) => is_first_held(history_view(*list), *who, uri_bytes(*cid), i as int),
            None => !any_held(history_view(*list), *who, uri_bytes(*cid)),
        },
{
    let n: usize = credentials_len(list);
    let mut i: usize = 0;
    while i < n
        invariant
            i <= n,
            n == credential_items(*list).len(),
            forall|j: int|
                0 <= j < i ==> !(#[trigger] history_view(*list)[j]).held_by(*who, uri_bytes(*cid)),
        decreases n - i,
    {
        if credentials_index(list, i).held_by(who, cid) {
            return Some(i);
        }
        i += 1;
    }
    None
}

/// Files one more credential at the end of the history.
pub fn append(list: &mut CredentialList, credential: Credential) -> (r: Result<(), Error>)
    ensures
        match append_outcome(history_view(*old(list)), credential@) {
            Ok(h) => r.is_ok() && history_view(*final(list)) == h,
            Err(e) => r matches Err(x) && x == e && history_view(*final(list)) == history_view(
                *old(list),
            ),
        },
{
    match credentials_try_push(list, credential) {
        Ok(()) => Ok(()),
        Err(_) => Err(Error::CountOverflow),
    }
}

/// Transfers the document `original` from `sender` to `recipient`.
///
/// The history ends up as [`transfer_outcome`] says; when that is a refusal,
/// the history is what it was.
pub fn transfer(
    list: &mut CredentialList,
    sender: AccountId,
    recipient: AccountId,
    original: &Uri,
    new_sender: Uri,
    for_recipient: Uri,
    transfer_all: bool,
) -> (r: Result<(), Error>)
    ensures
        match transfer_outcome(
            history_view(*old(list)),
            sender,
            recipient,
            uri_bytes(*original),
            uri_bytes(new_sender),
            uri_bytes(for_recipient),
            transfer_all,
        ) {
            Ok(h) => r.is_ok() && history_view(*final(list)) == h,
            Err(e) => r matches Err(x) && x == e && history_view(*final(list)) == history_view(
                *old(list),
            ),
        },
{
    let ghost before = history_view(*list);
    let i: usize = match find_held(list, &sender, original) {
        Some(i) => i,
        None => {
            return Err(Error::PropertyEntryNotFound);
        },
    };
    proof {
        lemma_first_held_is(before, sender, uri_bytes(*original), i as int);
    }
    if transfer_all {
        let held = credentials_index_mut(list, i);
        match accounts_try_push(&mut held.owners, recipient) {
            Ok(()) => {
                assert(history_view(*list) == before.update(
                    i as int,
                    before[i as int].handed_to(recipient),
                ));
                Ok(())
            },
            Err(_) => Err(Error::CountOverflow),
        }
    } else {
        if credentials_len(list) >= MAX_COUNT as usize {
            return Err(Error::CountOverflow);
        }
        let held = credentials_index_mut(list, i);
        held.cid = new_sender;
        let opened = Credential::new(recipient, for_recipient);
        let pushed = credentials_try_push(list, opened);
        assert(pushed.is_ok());
        assert(history_view(*list) == before.update(
            i as int,
            before[i as int].reissued(uri_bytes(new_sender)),
        ).push(CredentialView::fresh(recipient, uri_bytes(for_recipient))));
        Ok(())
    }
}

/// Records that `verifier` attested the document `cid` at time `now`.
///
/// The history ends up as [`attest_outcome`] says; when that is a refusal,
/// the history is what it was.
pub fn attest(
    list: &mut CredentialList,
    verifier: AccountId,
    cid: &Uri,
    canonical: bool,
    now: u64,
) -> (r: Result<(), Error>)
    ensures
        match attest_outcome(history_view(*old(list)), verifier, uri_bytes(*cid), canonical, now) {
            Ok(h) => r.is_ok() && history_view(*final(list)) == h,
            Err(e) => r matches Err(x) && x == e && history_view(*final(list)) == history_view(
                *old(list),
            ),
        },
{
    let ghost before = history_view(*list);
    let n: usize = credentials_len(list);
    let mut i: usize = 0;
    while i < n
        invariant
            i <= n,
            n == credential_items(*list).len(),
            before == history_view(*list),
            *list == *old(list),
            forall|j: int|
                0 <= j < i ==> !((#[trigger] before[j]).cid == uri_bytes(*cid)
                    && before[j].verifiers.len() >= MAX_COUNT),
        decreases n - i,
    {
        let c = credentials_index(list, i);
        if uri_eq(&c.cid, cid) && c.verifiers_full() {
            assert(before[i as int].cid == uri_bytes(*cid));
            return Err(Error::CountOverflow);
        }
        i += 1;
    }
    let mut k: usize = 0;
    while k < n
        invariant
            k <= n,
            n == before.len(),
            history_view(*list).len() == n,
            !attest_blocked(before, uri_bytes(*cid)),
            forall|j: int|
                0 <= j < k ==> #[trigger] history_view(*list)[j] == if before[j].cid == uri_bytes(
                    *cid,
                ) {
                    before[j].attested(verifier, canonical, now)
                } else {
                    before[j]
                },
            forall|j: int| k <= j < n ==> #[trigger] history_view(*list)[j] == before[j],
        decreases n - k,
    {
        let ghost during = history_view(*list);
        assert(during[k as int] == before[k as int]);
        if uri_eq(&credentials_index(list, k).cid, cid) {
            let signed = credentials_index_mut(list, k);
            let pushed = accounts_try_push(&mut signed.verifiers, verifier);
            assert(pushed.is_ok());
            if canonical {
                signed.timestamp = now;
            }
        }
        assert forall|j: int| 0 <= j < n && j != k implies #[trigger] history_view(*list)[j]
            == during[j] by {}
        k += 1;
    }
    assert(history_view(*list) == attest_outcome(
        before,
        verifier,
        uri_bytes(*cid),
        canonical,
        now,
    )->Ok_0);
    Ok(())
}

} // verus!
