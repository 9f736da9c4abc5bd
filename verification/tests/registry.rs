use property_oracle::limits::{MAX_ASCII_TEXT_LENGTH, MAX_COUNT, MAX_URI_LENGTH};
use property_oracle::{AccountId, Error, Event, Pallet, PropertyId};

fn account(n: u8) -> AccountId {
    AccountId::new([n; 32])
}

fn property(n: u8) -> PropertyId {
    PropertyId::new([n; 32])
}

fn bytes_of(text: &str) -> Vec<u8> {
    text.as_bytes().to_vec()
}

fn owners_at(registry: &Pallet, id: &PropertyId, i: usize) -> Vec<AccountId> {
    registry.cred_reg(id).unwrap()[i].owners.to_vec()
}

fn verifiers_at(registry: &Pallet, id: &PropertyId, i: usize) -> Vec<AccountId> {
    registry.cred_reg(id).unwrap()[i].verifiers.to_vec()
}

fn cid_at(registry: &Pallet, id: &PropertyId, i: usize) -> Vec<u8> {
    registry.cred_reg(id).unwrap()[i].cid.to_vec()
}

fn stamp_at(registry: &Pallet, id: &PropertyId, i: usize) -> u64 {
    registry.cred_reg(id).unwrap()[i].timestamp
}

fn versions(registry: &Pallet, id: &PropertyId) -> usize {
    registry.cred_reg(id).unwrap().len()
}

#[test]
fn new_registry_holds_nothing() {
    let registry = Pallet::new();
    assert!(registry.user_reg(&account(1)).is_none());
    assert!(registry.ptype_reg(&property(1)).is_none());
    assert!(registry.cred_reg(&property(1)).is_none());
}

#[test]
fn record_user_files_the_identifier() {
    let mut registry = Pallet::new();
    let event = registry.record_user(account(1), bytes_of("ipfs://alice"));
    assert_eq!(event, Ok(Event::NewUserRecorded { cid: bytes_of("ipfs://alice") }));
    assert_eq!(registry.user_reg(&account(1)).unwrap().to_vec(), bytes_of("ipfs://alice"));
    assert!(registry.user_reg(&account(2)).is_none());
}

#[test]
fn record_user_twice_keeps_the_latest() {
    let mut registry = Pallet::new();
    assert!(registry.record_user(account(1), bytes_of("first")).is_ok());
    assert!(registry.record_user(account(1), bytes_of("second")).is_ok());
    assert_eq!(registry.user_reg(&account(1)).unwrap().to_vec(), bytes_of("second"));
}

#[test]
fn record_user_keeps_users_apart() {
    let mut registry = Pallet::new();
    assert!(registry.record_user(account(1), bytes_of("one")).is_ok());
    assert!(registry.record_user(account(2), bytes_of("two")).is_ok());
    assert!(registry.record_user(account(1), bytes_of("uno")).is_ok());
    assert_eq!(registry.user_reg(&account(1)).unwrap().to_vec(), bytes_of("uno"));
    assert_eq!(registry.user_reg(&account(2)).unwrap().to_vec(), bytes_of("two"));
}

#[test]
fn record_user_accepts_an_identifier_at_capacity() {
    let mut registry = Pallet::new();
    let cid = vec![7u8; MAX_URI_LENGTH as usize];
    assert_eq!(registry.record_user(account(1), cid.clone()), Ok(Event::NewUserRecorded { cid: cid.clone() }));
    assert_eq!(registry.user_reg(&account(1)).unwrap().to_vec(), cid);
}

#[test]
fn record_user_accepts_an_empty_identifier() {
    let mut registry = Pallet::new();
    assert!(registry.record_user(account(1), Vec::new()).is_ok());
    assert_eq!(registry.user_reg(&account(1)).unwrap().len(), 0);
}

#[test]
fn record_user_refuses_an_identifier_beyond_capacity() {
    let mut registry = Pallet::new();
    assert!(registry.record_user(account(1), bytes_of("kept")).is_ok());
    let long = vec![7u8; MAX_URI_LENGTH as usize + 1];
    assert_eq!(registry.record_user(account(1), long.clone()), Err(Error::UriOverflow));
    assert_eq!(registry.record_user(account(2), long), Err(Error::UriOverflow));
    assert_eq!(registry.user_reg(&account(1)).unwrap().to_vec(), bytes_of("kept"));
    assert!(registry.user_reg(&account(2)).is_none());
}

#[test]
fn record_ptype_files_every_field() {
    let mut registry = Pallet::new();
    let event = registry.record_ptype(
        account(3),
        property(9),
        bytes_of("Land title"),
        bytes_of("ipfs://type"),
        bytes_of("area,parcel"),
        1_700_000_000,
    );
    assert_eq!(event, Ok(Event::NewPropertyTypeRecorded { cid: bytes_of("ipfs://type") }));
    let record = registry.ptype_reg(&property(9)).unwrap();
    assert_eq!(record.title.to_vec(), bytes_of("Land title"));
    assert_eq!(record.registrar, account(3));
    assert_eq!(record.attributes.to_vec(), bytes_of("area,parcel"));
    assert_eq!(record.cid.to_vec(), bytes_of("ipfs://type"));
    assert_eq!(record.timestamp, 1_700_000_000);
    assert!(registry.ptype_reg(&property(8)).is_none());
}

#[test]
fn record_ptype_overwrites_the_same_hash() {
    let mut registry = Pallet::new();
    assert!(registry
        .record_ptype(account(1), property(9), bytes_of("old"), bytes_of("c1"), bytes_of("p1"), 10)
        .is_ok());
    assert!(registry
        .record_ptype(account(2), property(9), bytes_of("new"), bytes_of("c2"), bytes_of("p2"), 20)
        .is_ok());
    let record = registry.ptype_reg(&property(9)).unwrap();
    assert_eq!(record.title.to_vec(), bytes_of("new"));
    assert_eq!(record.registrar, account(2));
    assert_eq!(record.attributes.to_vec(), bytes_of("p2"));
    assert_eq!(record.cid.to_vec(), bytes_of("c2"));
    assert_eq!(record.timestamp, 20);
}

#[test]
fn record_ptype_accepts_fields_at_capacity() {
    let mut registry = Pallet::new();
    let text = vec![b'a'; MAX_ASCII_TEXT_LENGTH as usize];
    let cid = vec![b'c'; MAX_URI_LENGTH as usize];
    assert!(registry.record_ptype(account(1), property(1), text.clone(), cid.clone(), text.clone(), 5).is_ok());
    let record = registry.ptype_reg(&property(1)).unwrap();
    assert_eq!(record.title.len(), MAX_ASCII_TEXT_LENGTH as usize);
    assert_eq!(record.attributes.len(), MAX_ASCII_TEXT_LENGTH as usize);
    assert_eq!(record.cid.len(), MAX_URI_LENGTH as usize);
}

#[test]
fn record_ptype_refuses_a_long_title() {
    let mut registry = Pallet::new();
    let long = vec![b'a'; MAX_ASCII_TEXT_LENGTH as usize + 1];
    let outcome = registry.record_ptype(account(1), property(1), long, bytes_of("c"), bytes_of("p"), 5);
    assert_eq!(outcome, Err(Error::UriOverflow));
    assert!(registry.ptype_reg(&property(1)).is_none());
}

#[test]
fn record_ptype_refuses_long_attributes() {
    let mut registry = Pallet::new();
    let long = vec![b'a'; MAX_ASCII_TEXT_LENGTH as usize + 1];
    let outcome = registry.record_ptype(account(1), property(1), bytes_of("t"), bytes_of("c"), long, 5);
    assert_eq!(outcome, Err(Error::UriOverflow));
    assert!(registry.ptype_reg(&property(1)).is_none());
}

#[test]
fn record_ptype_refuses_a_long_identifier() {
    let mut registry = Pallet::new();
    assert!(registry
        .record_ptype(account(1), property(1), bytes_of("t"), bytes_of("kept"), bytes_of("p"), 5)
        .is_ok());
    let long = vec![b'c'; MAX_URI_LENGTH as usize + 1];
    let outcome = registry.record_ptype(account(2), property(1), bytes_of("u"), long, bytes_of("q"), 6);
    assert_eq!(outcome, Err(Error::UriOverflow));
    let record = registry.ptype_reg(&property(1)).unwrap();
    assert_eq!(record.cid.to_vec(), bytes_of("kept"));
    assert_eq!(record.registrar, account(1));
    assert_eq!(record.timestamp, 5);
}

#[test]
fn record_ptype_title_may_be_longer_than_an_identifier() {
    let mut registry = Pallet::new();
    let title = vec![b'a'; MAX_URI_LENGTH as usize + 1];
    assert!(registry.record_ptype(account(1), property(1), title, bytes_of("c"), bytes_of("p"), 5).is_ok());
}

#[test]
fn record_credential_opens_a_history() {
    let mut registry = Pallet::new();
    let event = registry.record_credential(account(1), property(5), bytes_of("cid1"));
    assert_eq!(event, Ok(Event::NewPropertyCredentialCreated { cid: bytes_of("cid1") }));
    assert_eq!(versions(&registry, &property(5)), 1);
    assert_eq!(owners_at(&registry, &property(5), 0), vec![account(1)]);
    assert_eq!(verifiers_at(&registry, &property(5), 0), Vec::<AccountId>::new());
    assert_eq!(cid_at(&registry, &property(5), 0), bytes_of("cid1"));
    assert_eq!(stamp_at(&registry, &property(5), 0), 0);
    assert!(registry.cred_reg(&property(6)).is_none());
}

#[test]
fn record_credential_appends_to_the_history() {
    let mut registry = Pallet::new();
    assert!(registry.record_credential(account(1), property(5), bytes_of("cid1")).is_ok());
    assert!(registry.record_credential(account(2), property(5), bytes_of("cid2")).is_ok());
    assert!(registry.record_credential(account(3), property(6), bytes_of("cid3")).is_ok());
    assert_eq!(versions(&registry, &property(5)), 2);
    assert_eq!(owners_at(&registry, &property(5), 0), vec![account(1)]);
    assert_eq!(cid_at(&registry, &property(5), 0), bytes_of("cid1"));
    assert_eq!(owners_at(&registry, &property(5), 1), vec![account(2)]);
    assert_eq!(cid_at(&registry, &property(5), 1), bytes_of("cid2"));
    assert_eq!(versions(&registry, &property(6)), 1);
    assert_eq!(owners_at(&registry, &property(6), 0), vec![account(3)]);
}

#[test]
fn record_credential_refuses_a_long_identifier() {
    let mut registry = Pallet::new();
    let long = vec![1u8; MAX_URI_LENGTH as usize + 1];
    assert_eq!(registry.record_credential(account(1), property(5), long), Err(Error::UriOverflow));
    assert!(registry.cred_reg(&property(5)).is_none());
}

#[test]
fn record_credential_refuses_a_full_history() {
    let mut registry = Pallet::new();
    for n in 0..MAX_COUNT {
        assert!(registry.record_credential(account(1), property(5), vec![n as u8]).is_ok());
    }
    assert_eq!(versions(&registry, &property(5)), MAX_COUNT as usize);
    assert_eq!(
        registry.record_credential(account(1), property(5), bytes_of("one too many")),
        Err(Error::CountOverflow)
    );
    assert_eq!(versions(&registry, &property(5)), MAX_COUNT as usize);
    assert_eq!(cid_at(&registry, &property(5), MAX_COUNT as usize - 1), vec![MAX_COUNT as u8 - 1]);
    assert!(registry.record_credential(account(1), property(6), bytes_of("elsewhere")).is_ok());
}

#[test]
fn transfer_without_a_history_is_not_found() {
    let mut registry = Pallet::new();
    let outcome = registry.transfer_property(
        account(1),
        account(2),
        property(5),
        bytes_of("cid1"),
        bytes_of("a"),
        bytes_of("b"),
        true,
    );
    assert_eq!(outcome, Err(Error::PropertyEntryNotFound));
    assert!(registry.cred_reg(&property(5)).is_none());
}

#[test]
fn full_transfer_appends_the_recipient() {
    let mut registry = Pallet::new();
    assert!(registry.record_credential(account(1), property(5), bytes_of("cid1")).is_ok());
    let event = registry.transfer_property(
        account(1),
        account(2),
        property(5),
        bytes_of("cid1"),
        bytes_of("unused"),
        bytes_of("unused"),
        true,
    );
    assert_eq!(
        event,
        Ok(Event::PropertyTransferred { sender: account(1), recipient: account(2), property_id: property(5) })
    );
    assert_eq!(versions(&registry, &property(5)), 1);
    assert_eq!(owners_at(&registry, &property(5), 0), vec![account(1), account(2)]);
    assert_eq!(cid_at(&registry, &property(5), 0), bytes_of("cid1"));
    assert_eq!(stamp_at(&registry, &property(5), 0), 0);
}

#[test]
fn full_transfers_keep_the_chain_in_order() {
    let mut registry = Pallet::new();
    assert!(registry.record_credential(account(1), property(5), bytes_of("cid1")).is_ok());
    assert!(registry
        .transfer_property(account(1), account(2), property(5), bytes_of("cid1"), vec![], vec![], true)
        .is_ok());
    assert!(registry
        .transfer_property(account(2), account(3), property(5), bytes_of("cid1"), vec![], vec![], true)
        .is_ok());
    assert!(registry
        .transfer_property(account(3), account(1), property(5), bytes_of("cid1"), vec![], vec![], true)
        .is_ok());
    assert_eq!(
        owners_at(&registry, &property(5), 0),
        vec![account(1), account(2), account(3), account(1)]
    );
}

#[test]
fn a_former_owner_cannot_transfer() {
    let mut registry = Pallet::new();
    assert!(registry.record_credential(account(1), property(5), bytes_of("cid1")).is_ok());
    assert!(registry
        .transfer_property(account(1), account(2), property(5), bytes_of("cid1"), vec![], vec![], true)
        .is_ok());
    let outcome = registry.transfer_property(
        account(1),
        account(3),
        property(5),
        bytes_of("cid1"),
        vec![],
        vec![],
        true,
    );
    assert_eq!(outcome, Err(Error::PropertyEntryNotFound));
    assert_eq!(owners_at(&registry, &property(5), 0), vec![account(1), account(2)]);
}

#[test]
fn transfer_needs_the_holder_of_that_document() {
    let mut registry = Pallet::new();
    assert!(registry.record_credential(account(1), property(5), bytes_of("mine")).is_ok());
    assert!(registry.record_credential(account(2), property(5), bytes_of("theirs")).is_ok());
    for transfer_all in [true, false] {
        let outcome = registry.transfer_property(
            account(1),
            account(3),
            property(5),
            bytes_of("theirs"),
            bytes_of("x"),
            bytes_of("y"),
            transfer_all,
        );
        assert_eq!(outcome, Err(Error::PropertyEntryNotFound));
    }
    assert_eq!(versions(&registry, &property(5)), 2);
    assert_eq!(owners_at(&registry, &property(5), 0), vec![account(1)]);
    assert_eq!(cid_at(&registry, &property(5), 0), bytes_of("mine"));
    assert_eq!(owners_at(&registry, &property(5), 1), vec![account(2)]);
    assert_eq!(cid_at(&registry, &property(5), 1), bytes_of("theirs"));
}

#[test]
fn transfer_needs_the_named_document() {
    let mut registry = Pallet::new();
    assert!(registry.record_credential(account(1), property(5), bytes_of("cid1")).is_ok());
    let outcome = registry.transfer_property(
        account(1),
        account(2),
        property(5),
        bytes_of("cid2"),
        vec![],
        vec![],
        true,
    );
    assert_eq!(outcome, Err(Error::PropertyEntryNotFound));
    assert_eq!(owners_at(&registry, &property(5), 0), vec![account(1)]);
}

#[test]
fn transfer_looks_only_under_its_property() {
    let mut registry = Pallet::new();
    assert!(registry.record_credential(account(1), property(5), bytes_of("cid1")).is_ok());
    assert!(registry.record_credential(account(9), property(6), bytes_of("other")).is_ok());
    let outcome = registry.transfer_property(
        account(1),
        account(2),
        property(6),
        bytes_of("cid1"),
        vec![],
        vec![],
        true,
    );
    assert_eq!(outcome, Err(Error::PropertyEntryNotFound));
    assert_eq!(owners_at(&registry, &property(5), 0), vec![account(1)]);
    assert_eq!(owners_at(&registry, &property(6), 0), vec![account(9)]);
}

#[test]
fn partial_transfer_opens_a_new_version() {
    let mut registry = Pallet::new();
    assert!(registry.record_credential(account(1), property(5), bytes_of("cid1")).is_ok());
    assert!(registry.attest_claim(account(7), property(5), bytes_of("cid1"), true, 42).is_ok());
    let event = registry.transfer_property(
        account(1),
        account(2),
        property(5),
        bytes_of("cid1"),
        bytes_of("cid1-new"),
        bytes_of("cid1-bob"),
        false,
    );
    assert_eq!(
        event,
        Ok(Event::PropertyTransferred { sender: account(1), recipient: account(2), property_id: property(5) })
    );
    assert_eq!(versions(&registry, &property(5)), 2);
    assert_eq!(cid_at(&registry, &property(5), 0), bytes_of("cid1-new"));
    assert_eq!(owners_at(&registry, &property(5), 0), vec![account(1)]);
    assert_eq!(verifiers_at(&registry, &property(5), 0), vec![account(7)]);
    assert_eq!(stamp_at(&registry, &property(5), 0), 42);
    assert_eq!(cid_at(&registry, &property(5), 1), bytes_of("cid1-bob"));
    assert_eq!(owners_at(&registry, &property(5), 1), vec![account(2)]);
    assert_eq!(verifiers_at(&registry, &property(5), 1), Vec::<AccountId>::new());
    assert_eq!(stamp_at(&registry, &property(5), 1), 0);
}

#[test]
fn partial_transfer_then_stale_transfer_is_not_found() {
    let mut registry = Pallet::new();
    let (alice, bob, carol) = (account(1), account(2), account(3));
    let h = property(5);
    assert!(registry.record_credential(alice, h, bytes_of("cid1")).is_ok());
    assert!(registry
        .transfer_property(alice, bob, h, bytes_of("cid1"), bytes_of("cid1-new"), bytes_of("cid1-bob"), false)
        .is_ok());
    assert_eq!(cid_at(&registry, &h, 0), bytes_of("cid1-new"));
    assert_eq!(owners_at(&registry, &h, 0), vec![alice]);
    assert_eq!(owners_at(&registry, &h, 1), vec![bob]);
    assert_eq!(cid_at(&registry, &h, 1), bytes_of("cid1-bob"));
    let stale = registry.transfer_property(alice, carol, h, bytes_of("cid1"), bytes_of("x"), bytes_of("y"), true);
    assert_eq!(stale, Err(Error::PropertyEntryNotFound));
    assert_eq!(versions(&registry, &h), 2);
    assert_eq!(owners_at(&registry, &h, 0), vec![alice]);
    assert_eq!(owners_at(&registry, &h, 1), vec![bob]);
}

#[test]
fn transfer_takes_only_the_first_match() {
    let mut registry = Pallet::new();
    assert!(registry.record_credential(account(1), property(5), bytes_of("other")).is_ok());
    assert!(registry.record_credential(account(1), property(5), bytes_of("same")).is_ok());
    assert!(registry.record_credential(account(1), property(5), bytes_of("same")).is_ok());
    assert!(registry
        .transfer_property(account(1), account(2), property(5), bytes_of("same"), vec![], vec![], true)
        .is_ok());
    assert_eq!(owners_at(&registry, &property(5), 0), vec![account(1)]);
    assert_eq!(owners_at(&registry, &property(5), 1), vec![account(1), account(2)]);
    assert_eq!(owners_at(&registry, &property(5), 2), vec![account(1)]);
    assert!(registry
        .transfer_property(account(1), account(3), property(5), bytes_of("same"), bytes_of("moved"), bytes_of("got"), false)
        .is_ok());
    assert_eq!(cid_at(&registry, &property(5), 1), bytes_of("same"));
    assert_eq!(cid_at(&registry, &property(5), 2), bytes_of("moved"));
    assert_eq!(versions(&registry, &property(5)), 4);
    assert_eq!(owners_at(&registry, &property(5), 3), vec![account(3)]);
    assert_eq!(cid_at(&registry, &property(5), 3), bytes_of("got"));
}

#[test]
fn transfer_refuses_long_identifiers_first() {
    let mut registry = Pallet::new();
    let long = vec![1u8; MAX_URI_LENGTH as usize + 1];
    let short = bytes_of("cid1");
    for place in 0..3 {
        let mut cids = [short.clone(), short.clone(), short.clone()];
        cids[place] = long.clone();
        let [original, new_sender, for_recipient] = cids;
        let outcome = registry.transfer_property(
            account(1),
            account(2),
            property(5),
            original,
            new_sender,
            for_recipient,
            true,
        );
        assert_eq!(outcome, Err(Error::UriOverflow));
    }
    assert!(registry.record_credential(account(1), property(5), bytes_of("cid1")).is_ok());
    let outcome = registry.transfer_property(
        account(1),
        account(2),
        property(5),
        bytes_of("cid1"),
        bytes_of("fine"),
        long,
        true,
    );
    assert_eq!(outcome, Err(Error::UriOverflow));
    assert_eq!(owners_at(&registry, &property(5), 0), vec![account(1)]);
}

#[test]
fn full_transfer_refuses_a_full_owner_chain() {
    let mut registry = Pallet::new();
    assert!(registry.record_credential(account(0), property(5), bytes_of("cid1")).is_ok());
    for n in 1..MAX_COUNT as u8 {
        assert!(registry
            .transfer_property(account(n - 1), account(n), property(5), bytes_of("cid1"), vec![], vec![], true)
            .is_ok());
    }
    let last = MAX_COUNT as u8 - 1;
    assert_eq!(owners_at(&registry, &property(5), 0).len(), MAX_COUNT as usize);
    let outcome = registry.transfer_property(
        account(last),
        account(200),
        property(5),
        bytes_of("cid1"),
        vec![],
        vec![],
        true,
    );
    assert_eq!(outcome, Err(Error::CountOverflow));
    let chain = owners_at(&registry, &property(5), 0);
    assert_eq!(chain.len(), MAX_COUNT as usize);
    assert_eq!(chain[0], account(0));
    assert_eq!(chain[MAX_COUNT as usize - 1], account(last));
    let partial = registry.transfer_property(
        account(last),
        account(200),
        property(5),
        bytes_of("cid1"),
        bytes_of("kept"),
        bytes_of("given"),
        false,
    );
    assert!(partial.is_ok());
    assert_eq!(owners_at(&registry, &property(5), 1), vec![account(200)]);
}

#[test]
fn partial_transfer_refuses_a_full_history() {
    let mut registry = Pallet::new();
    for n in 0..MAX_COUNT as u8 {
        assert!(registry.record_credential(account(1), property(5), vec![n]).is_ok());
    }
    let outcome = registry.transfer_property(
        account(1),
        account(2),
        property(5),
        vec![3u8],
        bytes_of("reissued"),
        bytes_of("opened"),
        false,
    );
    assert_eq!(outcome, Err(Error::CountOverflow));
    assert_eq!(versions(&registry, &property(5)), MAX_COUNT as usize);
    assert_eq!(cid_at(&registry, &property(5), 3), vec![3u8]);
    assert_eq!(owners_at(&registry, &property(5), 3), vec![account(1)]);
    let full = registry.transfer_property(account(1), account(2), property(5), vec![3u8], vec![], vec![], true);
    assert!(full.is_ok());
    assert_eq!(owners_at(&registry, &property(5), 3), vec![account(1), account(2)]);
}

#[test]
fn attest_without_a_history_is_not_found() {
    let mut registry = Pallet::new();
    let outcome = registry.attest_claim(account(7), property(5), bytes_of("cid1"), true, 42);
    assert_eq!(outcome, Err(Error::PropertyEntryNotFound));
    assert!(registry.cred_reg(&property(5)).is_none());
}

#[test]
fn attest_refuses_a_long_identifier_first() {
    let mut registry = Pallet::new();
    let long = vec![1u8; MAX_URI_LENGTH as usize + 1];
    assert_eq!(registry.attest_claim(account(7), property(5), long, true, 42), Err(Error::UriOverflow));
}

#[test]
fn canonical_attestation_sets_the_timestamp() {
    let mut registry = Pallet::new();
    assert!(registry.record_credential(account(1), property(5), bytes_of("cid1")).is_ok());
    let event = registry.attest_claim(account(7), property(5), bytes_of("cid1"), true, 1_234);
    assert_eq!(event, Ok(Event::PropertyClaimAttested { verifier: account(7), property_id: property(5) }));
    assert_eq!(verifiers_at(&registry, &property(5), 0), vec![account(7)]);
    assert_eq!(stamp_at(&registry, &property(5), 0), 1_234);
    assert_eq!(owners_at(&registry, &property(5), 0), vec![account(1)]);
    assert_eq!(cid_at(&registry, &property(5), 0), bytes_of("cid1"));
}

#[test]
fn ordinary_attestation_leaves_the_timestamp() {
    let mut registry = Pallet::new();
    assert!(registry.record_credential(account(1), property(5), bytes_of("cid1")).is_ok());
    assert!(registry.attest_claim(account(7), property(5), bytes_of("cid1"), false, 1_234).is_ok());
    assert_eq!(verifiers_at(&registry, &property(5), 0), vec![account(7)]);
    assert_eq!(stamp_at(&registry, &property(5), 0), 0);
    assert!(registry.attest_claim(account(8), property(5), bytes_of("cid1"), true, 2_000).is_ok());
    assert!(registry.attest_claim(account(9), property(5), bytes_of("cid1"), false, 3_000).is_ok());
    assert_eq!(stamp_at(&registry, &property(5), 0), 2_000);
}

#[test]
fn two_verifiers_appear_in_call_order() {
    let mut registry = Pallet::new();
    assert!(registry.record_credential(account(1), property(5), bytes_of("cid1")).is_ok());
    assert!(registry.attest_claim(account(8), property(5), bytes_of("cid1"), false, 10).is_ok());
    assert!(registry.attest_claim(account(7), property(5), bytes_of("cid1"), true, 20).is_ok());
    assert_eq!(verifiers_at(&registry, &property(5), 0), vec![account(8), account(7)]);
    assert_eq!(stamp_at(&registry, &property(5), 0), 20);
}

#[test]
fn the_later_canonical_attestation_sets_the_timestamp() {
    let mut registry = Pallet::new();
    assert!(registry.record_credential(account(1), property(5), bytes_of("cid1")).is_ok());
    assert!(registry.attest_claim(account(7), property(5), bytes_of("cid1"), true, 10).is_ok());
    assert!(registry.attest_claim(account(8), property(5), bytes_of("cid1"), true, 20).is_ok());
    assert_eq!(stamp_at(&registry, &property(5), 0), 20);
}

#[test]
fn attestation_reaches_every_version_of_the_document() {
    let mut registry = Pallet::new();
    assert!(registry.record_credential(account(1), property(5), bytes_of("same")).is_ok());
    assert!(registry.record_credential(account(2), property(5), bytes_of("other")).is_ok());
    assert!(registry.record_credential(account(3), property(5), bytes_of("same")).is_ok());
    assert!(registry.attest_claim(account(7), property(5), bytes_of("same"), true, 77).is_ok());
    assert_eq!(verifiers_at(&registry, &property(5), 0), vec![account(7)]);
    assert_eq!(stamp_at(&registry, &property(5), 0), 77);
    assert_eq!(verifiers_at(&registry, &property(5), 1), Vec::<AccountId>::new());
    assert_eq!(stamp_at(&registry, &property(5), 1), 0);
    assert_eq!(verifiers_at(&registry, &property(5), 2), vec![account(7)]);
    assert_eq!(stamp_at(&registry, &property(5), 2), 77);
}

#[test]
fn attestation_of_an_unknown_document_changes_nothing() {
    let mut registry = Pallet::new();
    assert!(registry.record_credential(account(1), property(5), bytes_of("cid1")).is_ok());
    let event = registry.attest_claim(account(7), property(5), bytes_of("unknown"), true, 77);
    assert_eq!(event, Ok(Event::PropertyClaimAttested { verifier: account(7), property_id: property(5) }));
    assert_eq!(versions(&registry, &property(5)), 1);
    assert_eq!(verifiers_at(&registry, &property(5), 0), Vec::<AccountId>::new());
    assert_eq!(stamp_at(&registry, &property(5), 0), 0);
}

#[test]
fn anyone_may_attest_more_than_once() {
    let mut registry = Pallet::new();
    assert!(registry.record_credential(account(1), property(5), bytes_of("cid1")).is_ok());
    assert!(registry.attest_claim(account(1), property(5), bytes_of("cid1"), false, 1).is_ok());
    assert!(registry.attest_claim(account(1), property(5), bytes_of("cid1"), false, 2).is_ok());
    assert_eq!(verifiers_at(&registry, &property(5), 0), vec![account(1), account(1)]);
}

#[test]
fn attestation_refuses_a_full_verifier_list() {
    let mut registry = Pallet::new();
    assert!(registry.record_credential(account(1), property(5), bytes_of("cid1")).is_ok());
    for n in 0..MAX_COUNT as u8 {
        assert!(registry.attest_claim(account(n), property(5), bytes_of("cid1"), true, n as u64 + 1).is_ok());
    }
    let outcome = registry.attest_claim(account(200), property(5), bytes_of("cid1"), true, 999);
    assert_eq!(outcome, Err(Error::CountOverflow));
    let verifiers = verifiers_at(&registry, &property(5), 0);
    assert_eq!(verifiers.len(), MAX_COUNT as usize);
    assert_eq!(verifiers[MAX_COUNT as usize - 1], account(MAX_COUNT as u8 - 1));
    assert_eq!(stamp_at(&registry, &property(5), 0), MAX_COUNT as u64);
}

#[test]
fn a_refused_attestation_touches_no_version() {
    let mut registry = Pallet::new();
    let p = property(5);
    assert!(registry.record_credential(account(1), p, bytes_of("draft")).is_ok());
    assert!(registry.record_credential(account(2), p, bytes_of("deed")).is_ok());
    for n in 0..MAX_COUNT as u8 {
        assert!(registry.attest_claim(account(n), p, bytes_of("deed"), false, 5).is_ok());
    }
    assert!(registry
        .transfer_property(account(1), account(3), p, bytes_of("draft"), bytes_of("deed"), bytes_of("copy"), false)
        .is_ok());
    assert_eq!(cid_at(&registry, &p, 0), bytes_of("deed"));
    assert_eq!(verifiers_at(&registry, &p, 0), Vec::<AccountId>::new());
    let outcome = registry.attest_claim(account(200), p, bytes_of("deed"), true, 999);
    assert_eq!(outcome, Err(Error::CountOverflow));
    assert_eq!(verifiers_at(&registry, &p, 0), Vec::<AccountId>::new());
    assert_eq!(stamp_at(&registry, &p, 0), 0);
    assert_eq!(verifiers_at(&registry, &p, 1).len(), MAX_COUNT as usize);
    assert_eq!(stamp_at(&registry, &p, 1), 0);
    assert!(registry.attest_claim(account(200), p, bytes_of("copy"), true, 999).is_ok());
    assert_eq!(verifiers_at(&registry, &p, 2), vec![account(200)]);
    assert_eq!(stamp_at(&registry, &p, 2), 999);
}

#[test]
fn the_three_tables_are_independent() {
    let mut registry = Pallet::new();
    assert!(registry.record_user(account(5), bytes_of("user")).is_ok());
    assert!(registry
        .record_ptype(account(5), property(5), bytes_of("t"), bytes_of("type"), bytes_of("p"), 1)
        .is_ok());
    assert!(registry.record_credential(account(5), property(5), bytes_of("cred")).is_ok());
    assert_eq!(registry.user_reg(&account(5)).unwrap().to_vec(), bytes_of("user"));
    assert_eq!(registry.ptype_reg(&property(5)).unwrap().cid.to_vec(), bytes_of("type"));
    assert_eq!(cid_at(&registry, &property(5), 0), bytes_of("cred"));
    assert!(registry.ptype_reg(&PropertyId::new(account(5).bytes)).is_some());
    assert!(registry.user_reg(&account(6)).is_none());
}
