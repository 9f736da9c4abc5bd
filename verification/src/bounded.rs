//! The fixed-capacity sequences that the registry stores.
//!
//! They are `frame_support::BoundedVec`s, which `frame_support` re-exports
//! from the crate `bounded-collections` (its `bounded_vec` module). A
//! `BoundedVec` keeps its elements in a private `Vec`, so the verifier cannot
//! look inside one. For each of the four instantiations in use, a ghost
//! function names the elements, and each method that the registry calls is
//! reached through a small function whose contract restates, over that name,
//! what the method's source does. Those contracts are taken on trust;
//! everything built on them is proved.
//!
//! The capacity of a `BoundedVec<T, ConstU32<N>>` is `N`: `try_push` compares
//! the length with `ConstU32::<N>::get()`, which returns `N`. The only panic
//! of `try_push` is that of `Vec::push` when the vector would outgrow
//! `isize::MAX` bytes, which the capacities in [`crate::limits`] rule out.

use vstd::prelude::*;
use frame_support::traits::ConstU32;
use frame_support::BoundedVec;
use crate::identity::AccountId;
use crate::limits::{MAX_ASCII_TEXT_LENGTH, MAX_COUNT, MAX_URI_LENGTH};
use crate::records::Credential;

verus! {

/// A content identifier: at most [`MAX_URI_LENGTH`] bytes.
pub type Uri = BoundedVec<u8, ConstU32<MAX_URI_LENGTH>>;

/// A title or an attribute blob: at most [`MAX_ASCII_TEXT_LENGTH`] bytes.
pub type Text = BoundedVec<u8, ConstU32<MAX_ASCII_TEXT_LENGTH>>;

/// An owner chain or a verifier list: at most [`MAX_COUNT`] identities.
pub type AccountList = BoundedVec<AccountId, ConstU32<MAX_COUNT>>;

/// The credential history of one property: at most [`MAX_COUNT`] credentials.
pub type CredentialList = BoundedVec<Credential, ConstU32<MAX_COUNT>>;

/// The bytes that a content identifier holds, first to last.
pub uninterp spec fn uri_bytes(v: Uri) -> Seq<u8>;

/// The bytes that a text field holds, first to last.
pub uninterp spec fn text_bytes(v: Text) -> Seq<u8>;

/// The identities that an account list holds, oldest first.
pub uninterp spec fn account_items(v: AccountList) -> Seq<AccountId>;

/// The credentials that a history holds, oldest first.
pub uninterp spec fn credential_items(v: CredentialList) -> Seq<Credential>;

/// `<BoundedVec<u8, _> as Default>::default`: a content identifier without
/// bytes.
#[verifier::external_body]
pub(crate) fn uri_empty() -> (r: Uri)
    ensures
        uri_bytes(r) == Seq::<u8>::empty(),
{
    Default::default()
}

/// `BoundedVec::try_push` on a content identifier: below capacity the byte is
/// appended; at capacity the identifier is left as it was and the byte comes
/// back in `Err`.
#[verifier::external_body]
pub(crate) fn uri_try_push(v: &mut Uri, byte: u8) -> (r: Result<(), u8>)
    ensures
        uri_bytes(*old(v)).len() < MAX_URI_LENGTH ==> r.is_ok() && uri_bytes(*final(v))
            == uri_bytes(*old(v)).push(byte),
        uri_bytes(*old(v)).len() >= MAX_URI_LENGTH ==> r.is_err() && uri_bytes(*final(v))
            == uri_bytes(*old(v)),
        r matches Err(back) ==> back == byte,
{
    v.try_push(byte)
}

/// `BoundedVec::eq` on two content identifiers: true exactly when they hold
/// the same bytes in the same order.
#[verifier::external_body]
pub(crate) fn uri_eq(a: &Uri, b: &Uri) -> (r: bool)
    ensures
        r == (uri_bytes(*a) == uri_bytes(*b)),
{
    a == b
}

/// `<BoundedVec<u8, _> as Default>::default`: a text field without bytes.
#[verifier::external_body]
pub(crate) fn text_empty() -> (r: Text)
    ensures
        text_bytes(r) == Seq::<u8>::empty(),
{
    Default::default()
}

/// `BoundedVec::try_push` on a text field: below capacity the byte is
/// appended; at capacity the field is left as it was and the byte comes back
/// in `Err`.
#[verifier::external_body]
pub(crate) fn text_try_push(v: &mut Text, byte: u8) -> (r: Result<(), u8>)
    ensures
        text_bytes(*old(v)).len() < MAX_ASCII_TEXT_LENGTH ==> r.is_ok() && text_bytes(*final(v))
            == text_bytes(*old(v)).push(byte),
        text_bytes(*old(v)).len() >= MAX_ASCII_TEXT_LENGTH ==> r.is_err() && text_bytes(*final(v))
            == text_bytes(*old(v)),
        r matches Err(back) ==> back == byte,
{
    v.try_push(byte)
}

/// `<BoundedVec<AccountId, _> as Default>::default`: an account list without
/// entries.
#[verifier::external_body]
pub(crate) fn accounts_empty() -> (r: AccountList)
    ensures
        account_items(r) == Seq::<AccountId>::empty(),
{
    Default::default()
}

/// `BoundedVec::try_push` on an account list: below capacity the identity is
/// appended; at capacity the list is left as it was and the identity comes
/// back in `Err`.
#[verifier::external_body]
pub(crate) fn accounts_try_push(v: &mut AccountList, who: AccountId) -> (r: Result<(), AccountId>)
    ensures
        account_items(*old(v)).len() < MAX_COUNT ==> r.is_ok() && account_items(*final(v))
            == account_items(*old(v)).push(who),
        account_items(*old(v)).len() >= MAX_COUNT ==> r.is_err() && account_items(*final(v))
            == account_items(*old(v)),
        r matches Err(back) ==> back == who,
{
    v.try_push(who)
}

/// `Vec::len`, reached through `BoundedVec::deref`: the number of identities
/// in an account list.
#[verifier::external_body]
pub(crate) fn accounts_len(v: &AccountList) -> (r: usize)
    ensures
        r == account_items(*v).len(),
{
    v.len()
}

/// `BoundedVec::index` on an account list: the identity at position `i`.
/// The method panics when `i` is not a position of the list.
#[verifier::external_body]
pub(crate) fn accounts_index(v: &AccountList, i: usize) -> (r: &AccountId)
    requires
        i < account_items(*v).len(),
    ensures
        *r == account_items(*v)[i as int],
{
    &v[i]
}

/// `<BoundedVec<Credential, _> as Default>::default`: a history without
/// credentials.
#[verifier::external_body]
pub(crate) fn credentials_empty() -> (r: CredentialList)
    ensures
        credential_items(r) == Seq::<Credential>::empty(),
{
    Default::default()
}

/// `BoundedVec::try_push` on a history: below capacity the credential is
/// appended; at capacity the history is left as it was and the credential
/// comes back in `Err`.
#[verifier::external_body]
pub(crate) fn credentials_try_push(v: &mut CredentialList, item: Credential) -> (r: Result<(), Credential>)
    ensures
        credential_items(*old(v)).len() < MAX_COUNT ==> r.is_ok() && credential_items(*final(v))
            == credential_items(*old(v)).push(item),
        credential_items(*old(v)).len() >= MAX_COUNT ==> r.is_err() && credential_items(*final(v))
            == credential_items(*old(v)),
        r matches Err(back) ==> back == item,
{
    v.try_push(item)
}

/// `Vec::len`, reached through `BoundedVec::deref`: the number of credentials
/// in a history.
#[verifier::external_body]
pub(crate) fn credentials_len(v: &CredentialList) -> (r: usize)
    ensures
        r == credential_items(*v).len(),
{
    v.len()
}

/// `BoundedVec::index` on a history: the credential at position `i`. The
/// method panics when `i` is not a position of the history.
#[verifier::external_body]
pub(crate) fn credentials_index(v: &CredentialList, i: usize) -> (r: &Credential)
    requires
        i < credential_items(*v).len(),
    ensures
        *r == credential_items(*v)[i as int],
{
    &v[i]
}

/// `BoundedVec::index_mut` on a history: a mutable borrow of the credential at
/// position `i`. Whatever the borrower leaves there takes that position; the
/// other positions keep their credentials. The method panics when `i` is not
/// a position of the history.
#[verifier::external_body]
pub(crate) fn credentials_index_mut(v: &mut CredentialList, i: usize) -> (r: &mut Credential)
    requires
        i < credential_items(*old(v)).len(),
    ensures
        *r == credential_items(*old(v))[i as int],
        credential_items(*final(v)) == credential_items(*old(v)).update(i as int, *final(r)),
{
    &mut v[i]
}

} // verus!
