//! The derivation engine at runtime: the exact operation set for each
//! action kind, the routing bases, determinism, and that hidden or
//! withheld entries never reach an operation.

use chain_integrity::action::{
    Action, Create, CreateLink, Delete, DeleteLink, Dna, NewEntryHeader, Update,
};
use chain_integrity::element::{Element, ElementEntry, SignedHashed};
use chain_integrity::entry::{AgentId, Entry, EntryType, EntryVisibility, Signature};
use chain_integrity::hash::ContentHash;
use chain_integrity::op::{derive_ops, DhtOp};

fn agent() -> AgentId {
    AgentId { bytes: vec![7u8; 32] }
}

fn sig() -> Signature {
    Signature { bytes: vec![9u8; 64] }
}

fn hash(label: &str) -> ContentHash {
    ContentHash::compute(&label.as_bytes().to_vec())
}

fn create_action(visibility: EntryVisibility, entry: &Entry) -> Action {
    let entry_hash = chain_integrity::hash::HashedContent::new(entry.clone()).hash;
    Action::Create(Create {
        author: agent(),
        timestamp: 5,
        sequence_number: 0,
        prev_action_hash: hash("prev"),
        entry_type: EntryType::App(visibility),
        entry_hash,
    })
}

fn update_action() -> Update {
    Update {
        author: agent(),
        timestamp: 6,
        sequence_number: 3,
        prev_action_hash: hash("prev"),
        original_action_address: hash("orig action"),
        original_entry_address: hash("orig entry"),
        entry_type: EntryType::App(EntryVisibility::Public),
        entry_hash: hash("new entry"),
    }
}

fn carried_entry(op: &DhtOp) -> Option<&Entry> {
    match op {
        DhtOp::StoreElement(_, _, e) => e.as_ref(),
        DhtOp::StoreEntry(_, _, e) => Some(e),
        DhtOp::RegisterUpdatedContent(_, _, e) => e.as_ref(),
        DhtOp::RegisterUpdatedElement(_, _, e) => e.as_ref(),
        _ => None,
    }
}

#[test]
fn create_with_public_entry_emits_three_ops() {
    // A Create at sequence 0 whose public entry "hello" is present.
    let entry = Entry::App(b"hello".to_vec());
    let action = create_action(EntryVisibility::Public, &entry);
    let element = Element::new(SignedHashed::new(action, sig()), Some(entry));
    let ops = derive_ops(&element);
    assert_eq!(ops.len(), 3);
    assert!(matches!(ops[0], DhtOp::StoreElement(..)));
    assert!(matches!(ops[1], DhtOp::StoreEntry(..)));
    assert!(matches!(ops[2], DhtOp::RegisterAgentActivity(..)));
    // The store-entry operation carries the literal bytes of "hello".
    match &ops[1] {
        DhtOp::StoreEntry(_, NewEntryHeader::Create(_), Entry::App(bytes)) => {
            assert_eq!(bytes, b"hello");
        }
        other => panic!("unexpected op: {:?}", other),
    }
    // The agent-activity operation routes by the author's identity.
    assert_eq!(ops[2].dht_basis().bytes, agent().bytes);
    // The store-entry operation routes by the entry hash.
    let entry_hash = chain_integrity::hash::HashedContent::new(Entry::App(b"hello".to_vec())).hash;
    assert_eq!(ops[1].dht_basis().bytes, entry_hash.bytes);
    // The store-element operation routes by the action hash.
    assert_eq!(ops[0].dht_basis().bytes, element.action_address().bytes);
}

#[test]
fn create_with_hidden_entry_emits_no_store_entry() {
    // The same Create, entry marked private, record built without it.
    let entry = Entry::App(b"hello".to_vec());
    let action = create_action(EntryVisibility::Private, &entry);
    let element = Element::new(SignedHashed::new(action, sig()), None);
    assert_eq!(*element.entry(), ElementEntry::Hidden);
    let ops = derive_ops(&element);
    assert_eq!(ops.len(), 2);
    assert!(matches!(ops[0], DhtOp::StoreElement(_, _, None)));
    assert!(matches!(ops[1], DhtOp::RegisterAgentActivity(..)));
    for op in &ops {
        assert!(carried_entry(op).is_none());
    }
}

#[test]
fn withheld_public_entry_never_leaks() {
    let entry = Entry::App(b"withheld".to_vec());
    let action = create_action(EntryVisibility::Public, &entry);
    let element = Element::new(SignedHashed::new(action, sig()), None);
    assert_eq!(*element.entry(), ElementEntry::NotStored);
    for op in &derive_ops(&element) {
        assert!(carried_entry(op).is_none());
    }
}

#[test]
fn derivation_is_deterministic() {
    let entry = Entry::App(b"same record".to_vec());
    let action = create_action(EntryVisibility::Public, &entry);
    let element = Element::new(SignedHashed::new(action, sig()), Some(entry));
    let twin = element.clone();
    let once = derive_ops(&element);
    let twice = derive_ops(&twin);
    assert_eq!(once, twice);
    assert_eq!(once.len(), twice.len());
}

#[test]
fn update_emits_four_ops_in_order() {
    let entry = Entry::App(b"updated".to_vec());
    let update = update_action();
    let orig_entry_basis = update.original_entry_address.clone();
    let orig_action_basis = update.original_action_address.clone();
    let element = Element::new(
        SignedHashed::new(Action::Update(update), sig()),
        Some(entry),
    );
    let ops = derive_ops(&element);
    assert_eq!(ops.len(), 4);
    assert!(matches!(ops[0], DhtOp::StoreElement(..)));
    assert!(matches!(ops[1], DhtOp::RegisterUpdatedContent(..)));
    assert!(matches!(ops[2], DhtOp::RegisterUpdatedElement(..)));
    assert!(matches!(ops[3], DhtOp::RegisterAgentActivity(..)));
    assert_eq!(ops[1].dht_basis().bytes, orig_entry_basis.bytes);
    assert_eq!(ops[2].dht_basis().bytes, orig_action_basis.bytes);
}

#[test]
fn delete_emits_registrations_only() {
    let delete = Delete {
        author: agent(),
        timestamp: 8,
        sequence_number: 4,
        prev_action_hash: hash("prev"),
        deletes_address: hash("dead action"),
        deletes_entry_address: hash("dead entry"),
    };
    let by_basis = delete.deletes_address.clone();
    let entry_basis = delete.deletes_entry_address.clone();
    let element = Element::new(SignedHashed::new(Action::Delete(delete), sig()), None);
    let ops = derive_ops(&element);
    assert_eq!(ops.len(), 3);
    assert!(matches!(ops[0], DhtOp::RegisterDeletedBy(..)));
    assert!(matches!(ops[1], DhtOp::RegisterDeletedEntryAction(..)));
    assert!(matches!(ops[2], DhtOp::RegisterAgentActivity(..)));
    assert_eq!(ops[0].dht_basis().bytes, by_basis.bytes);
    assert_eq!(ops[1].dht_basis().bytes, entry_basis.bytes);
}

#[test]
fn links_route_by_base_address() {
    let add = CreateLink {
        author: agent(),
        timestamp: 9,
        sequence_number: 5,
        prev_action_hash: hash("prev"),
        base_address: hash("base"),
        target_address: hash("target"),
        tag: b"tag".to_vec(),
    };
    let element = Element::new(SignedHashed::new(Action::CreateLink(add), sig()), None);
    let ops = derive_ops(&element);
    assert_eq!(ops.len(), 2);
    assert!(matches!(ops[0], DhtOp::RegisterAddLink(..)));
    assert_eq!(ops[0].dht_basis().bytes, hash("base").bytes);

    let remove = DeleteLink {
        author: agent(),
        timestamp: 10,
        sequence_number: 6,
        prev_action_hash: hash("prev"),
        base_address: hash("base"),
        link_add_address: hash("link add"),
    };
    let element = Element::new(SignedHashed::new(Action::DeleteLink(remove), sig()), None);
    let ops = derive_ops(&element);
    assert_eq!(ops.len(), 2);
    assert!(matches!(ops[0], DhtOp::RegisterRemoveLink(..)));
    assert_eq!(ops[0].dht_basis().bytes, hash("base").bytes);
}

#[test]
fn bookkeeping_actions_emit_store_and_activity() {
    let action = Action::Dna(Dna {
        author: agent(),
        timestamp: 1,
        dna_hash: hash("dna"),
    });
    let element = Element::new(SignedHashed::new(action, sig()), None);
    let ops = derive_ops(&element);
    assert_eq!(ops.len(), 2);
    assert!(matches!(ops[0], DhtOp::StoreElement(_, _, None)));
    assert!(matches!(ops[1], DhtOp::RegisterAgentActivity(..)));
    assert_eq!(ops[1].dht_basis().bytes, agent().bytes);
}

#[test]
fn header_seq_projection() {
    let entry = Entry::App(b"seq".to_vec());
    let action = create_action(EntryVisibility::Public, &entry);
    let element = Element::new(SignedHashed::new(action, sig()), Some(entry));
    let mut ops = derive_ops(&element);
    for op in &ops {
        assert_eq!(op.header_seq(), Some(0));
    }
    // The activity op over a genesis action stores no sequence number.
    let dna = Action::Dna(Dna {
        author: agent(),
        timestamp: 1,
        dna_hash: hash("dna"),
    });
    let genesis_element = Element::new(SignedHashed::new(dna, sig()), None);
    let genesis_ops = derive_ops(&genesis_element);
    assert_eq!(genesis_ops[1].header_seq(), None);
    // The mutable projection reaches the same field.
    if let Some(seq) = ops[1].header_seq_mut() {
        *seq = 42;
    }
    assert_eq!(ops[1].header_seq(), Some(42));
}

#[test]
fn new_entry_header_seq_mut() {
    let entry = Entry::App(b"x".to_vec());
    let Action::Create(create) = create_action(EntryVisibility::Public, &entry) else {
        unreachable!();
    };
    let mut header = NewEntryHeader::Create(create);
    assert_eq!(*header.header_seq_mut(), 0);
    *header.header_seq_mut() = 11;
    let NewEntryHeader::Create(inner) = &header else {
        unreachable!();
    };
    assert_eq!(inner.sequence_number, 11);
}

#[test]
fn every_op_carries_the_record_signature() {
    let entry = Entry::App(b"signed".to_vec());
    let action = create_action(EntryVisibility::Public, &entry);
    let element = Element::new(SignedHashed::new(action, sig()), Some(entry));
    for op in &derive_ops(&element) {
        assert_eq!(op.signature(), element.signature());
    }
}

#[test]
fn digest_is_not_the_input() {
    let bytes = b"hello".to_vec();
    let digest = ContentHash::compute(&bytes);
    assert_eq!(digest.bytes.len(), 32);
    assert_ne!(digest.bytes, bytes);
    // Different contents give different digests.
    assert_ne!(digest.bytes, ContentHash::compute(&b"hellp".to_vec()).bytes);
    // Equal contents give equal digests.
    assert_eq!(digest.bytes, ContentHash::compute(&b"hello".to_vec()).bytes);
}
