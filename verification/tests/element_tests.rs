//! Records at runtime: the entry-state construction rule, redaction and
//! its idempotence, the accessors, and the signed-hashed wrapper.

use chain_integrity::action::{Action, Create, CreateLink, Delete, DeleteLink, NewEntryHeader};
use chain_integrity::element::{Element, ElementEntry, SignedHashed};
use chain_integrity::entry::{
    AgentId, CapGrantEntry, Entry, EntryType, EntryVisibility, Signature,
};
use chain_integrity::hash::{ContentHash, HashedContent};

fn agent() -> AgentId {
    AgentId { bytes: vec![7u8; 32] }
}

fn sig() -> Signature {
    Signature { bytes: vec![9u8; 64] }
}

fn hash(label: &str) -> ContentHash {
    ContentHash::compute(&label.as_bytes().to_vec())
}

fn create_action(entry_type: EntryType, entry: &Entry) -> Action {
    Action::Create(Create {
        author: agent(),
        timestamp: 5,
        sequence_number: 0,
        prev_action_hash: hash("prev"),
        entry_type,
        entry_hash: HashedContent::new(entry.clone()).hash,
    })
}

fn marker_action() -> Action {
    Action::Delete(Delete {
        author: agent(),
        timestamp: 5,
        sequence_number: 2,
        prev_action_hash: hash("prev"),
        deletes_address: hash("a"),
        deletes_entry_address: hash("b"),
    })
}

#[test]
fn entry_state_construction_rule() {
    let entry = Entry::App(b"data".to_vec());
    let public = EntryType::App(EntryVisibility::Public);
    let private = EntryType::App(EntryVisibility::Private);

    // Entry supplied and expected: present.
    let el = Element::new(
        SignedHashed::new(create_action(public, &entry), sig()),
        Some(entry.clone()),
    );
    assert_eq!(*el.entry(), ElementEntry::Present(entry.clone()));

    // Private entry expected, none supplied: hidden.
    let el = Element::new(SignedHashed::new(create_action(private, &entry), sig()), None);
    assert_eq!(*el.entry(), ElementEntry::Hidden);

    // Public entry expected, withheld: not stored.
    let el = Element::new(SignedHashed::new(create_action(public, &entry), sig()), None);
    assert_eq!(*el.entry(), ElementEntry::NotStored);

    // Action kind without an entry reference: not applicable.
    let el = Element::new(SignedHashed::new(marker_action(), sig()), None);
    assert_eq!(*el.entry(), ElementEntry::NotApplicable);
}

#[test]
fn privatized_hides_private_entries() {
    let entry = Entry::App(b"secret".to_vec());
    let private = EntryType::App(EntryVisibility::Private);
    let el = Element::new(
        SignedHashed::new(create_action(private, &entry), sig()),
        Some(entry),
    );
    let redacted = el.privatized();
    assert_eq!(*redacted.entry(), ElementEntry::Hidden);
}

#[test]
fn privatized_keeps_public_entries() {
    let entry = Entry::App(b"public".to_vec());
    let public = EntryType::App(EntryVisibility::Public);
    let el = Element::new(
        SignedHashed::new(create_action(public, &entry), sig()),
        Some(entry.clone()),
    );
    let same = el.privatized();
    assert_eq!(*same.entry(), ElementEntry::Present(entry));
}

#[test]
fn privatized_is_idempotent() {
    let entry = Entry::App(b"secret".to_vec());
    for entry_type in [
        EntryType::App(EntryVisibility::Private),
        EntryType::App(EntryVisibility::Public),
        EntryType::CapGrant,
    ] {
        let el = Element::new(
            SignedHashed::new(create_action(entry_type, &entry), sig()),
            Some(entry.clone()),
        );
        let once = el.clone().privatized();
        let twice = el.privatized().privatized();
        assert_eq!(twice, once);
    }
}

#[test]
fn cap_grants_are_private() {
    let grant = Entry::CapGrant(CapGrantEntry { tag: b"assistant".to_vec() });
    let el = Element::new(
        SignedHashed::new(create_action(EntryType::CapGrant, &grant), sig()),
        Some(grant.clone()),
    );
    let redacted = el.privatized();
    assert_eq!(*redacted.entry(), ElementEntry::Hidden);
}

#[test]
fn entry_views() {
    let app = ElementEntry::Present(Entry::App(b"payload".to_vec()));
    assert_eq!(app.as_option(), Some(&Entry::App(b"payload".to_vec())));
    assert_eq!(app.to_app_option(), Some(b"payload".to_vec()));
    assert_eq!(app.to_grant_option(), None);
    assert_eq!(app.into_option(), Some(Entry::App(b"payload".to_vec())));

    let grant = ElementEntry::Present(Entry::CapGrant(CapGrantEntry { tag: b"t".to_vec() }));
    assert_eq!(grant.to_app_option(), None);
    assert_eq!(
        grant.to_grant_option(),
        Some(CapGrantEntry { tag: b"t".to_vec() })
    );

    assert_eq!(ElementEntry::Hidden.as_option(), None);
    assert_eq!(ElementEntry::NotStored.into_option(), None);
    assert_eq!(ElementEntry::NotApplicable.to_app_option(), None);
}

#[test]
fn accessors_expose_the_signed_action() {
    let entry = Entry::App(b"acc".to_vec());
    let action = create_action(EntryType::App(EntryVisibility::Public), &entry);
    let signed = SignedHashed::new(action.clone(), sig());
    let expected_hash = signed.as_hash().clone();
    let el = Element::new(signed, Some(entry));
    assert_eq!(el.action(), &action);
    assert_eq!(el.action_address().bytes, expected_hash.bytes);
    assert_eq!(el.signature(), &sig());
    assert_eq!(el.action_hashed().hash.bytes, expected_hash.bytes);
    let (signed_action, entry_state) = el.into_inner();
    assert_eq!(signed_action.action(), &action);
    assert!(matches!(entry_state, ElementEntry::Present(_)));
}

#[test]
fn raw_from_same_hash_keeps_the_hash() {
    let entry = Entry::App(b"raw".to_vec());
    let Action::Create(create) = create_action(EntryType::App(EntryVisibility::Public), &entry)
    else {
        unreachable!();
    };
    let signed_new_entry = SignedHashed::new(NewEntryHeader::Create(create.clone()), sig());
    let expected = signed_new_entry.as_hash().clone();
    let widened = SignedHashed::<Action>::raw_from_same_hash(signed_new_entry);
    assert_eq!(widened.as_hash().bytes, expected.bytes);
    assert_eq!(widened.action(), &Action::Create(create.clone()));
    // And it is the hash the full action would get on its own.
    assert_eq!(
        HashedContent::new(Action::Create(create)).hash.bytes,
        expected.bytes
    );
}

#[test]
fn with_presigned_and_pre_hashed() {
    let action = marker_action();
    let hashed = HashedContent::new(action.clone());
    let pre = HashedContent::with_pre_hashed(action, hashed.hash.clone());
    assert_eq!(pre.hash.bytes, hashed.hash.bytes);
    let signed = SignedHashed::with_presigned(pre, sig());
    assert_eq!(signed.signature(), &sig());
    let (hashed_back, signature_back) = signed.into_inner();
    assert_eq!(hashed_back.hash.bytes, hashed.hash.bytes);
    assert_eq!(signature_back, sig());
}

#[test]
fn link_conversions() {
    let add = CreateLink {
        author: agent(),
        timestamp: 9,
        sequence_number: 5,
        prev_action_hash: hash("prev"),
        base_address: hash("base"),
        target_address: hash("target"),
        tag: b"tag".to_vec(),
    };
    let el = Element::new(SignedHashed::new(Action::CreateLink(add.clone()), sig()), None);
    assert_eq!(CreateLink::try_from_element(el), Ok(add.clone()));

    let el = Element::new(SignedHashed::new(Action::CreateLink(add), sig()), None);
    assert!(DeleteLink::try_from_element(el).is_err());

    let remove = DeleteLink {
        author: agent(),
        timestamp: 10,
        sequence_number: 6,
        prev_action_hash: hash("prev"),
        base_address: hash("base"),
        link_add_address: hash("add"),
    };
    let el = Element::new(SignedHashed::new(Action::DeleteLink(remove.clone()), sig()), None);
    assert_eq!(DeleteLink::try_from_element(el), Ok(remove));
}
