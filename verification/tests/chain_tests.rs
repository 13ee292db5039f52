//! The chain invariant at runtime: consecutive sequence numbers,
//! hash links, and the exact error for each kind of broken extension.

use chain_integrity::action::{Action, Create, Dna, InitZomesComplete};
use chain_integrity::chain::{Chain, ChainIntegrityError};
use chain_integrity::entry::{AgentId, EntryType, EntryVisibility, Signature};
use chain_integrity::hash::ContentHash;

fn agent() -> AgentId {
    AgentId { bytes: vec![7u8; 32] }
}

fn sig(n: u8) -> Signature {
    Signature { bytes: vec![n; 64] }
}

fn genesis() -> Action {
    Action::Dna(Dna {
        author: agent(),
        timestamp: 1,
        dna_hash: ContentHash::compute(&b"dna".to_vec()),
    })
}

fn marker(seq: u32, prev: ContentHash) -> Action {
    Action::InitZomesComplete(InitZomesComplete {
        author: agent(),
        timestamp: 1 + seq as i64,
        sequence_number: seq,
        prev_action_hash: prev,
    })
}

fn entry_create(seq: u32, prev: ContentHash) -> Action {
    Action::Create(Create {
        author: agent(),
        timestamp: 100 + seq as i64,
        sequence_number: seq,
        prev_action_hash: prev,
        entry_type: EntryType::App(EntryVisibility::Public),
        entry_hash: ContentHash::compute(&b"entry".to_vec()),
    })
}

fn build_chain(n: u32) -> Chain {
    let mut chain = Chain::new();
    chain.append(genesis(), sig(0)).unwrap();
    for seq in 1..n {
        let prev = chain.get(chain.len() - 1).as_hash().clone();
        let action = if seq % 2 == 0 {
            entry_create(seq, prev)
        } else {
            marker(seq, prev)
        };
        chain.append(action, sig(seq as u8)).unwrap();
    }
    chain
}

#[test]
fn chain_monotonicity() {
    let chain = build_chain(6);
    assert_eq!(chain.len(), 6);
    for i in 0..6usize {
        assert_eq!(chain.get(i).action().sequence_number(), i as u32);
    }
}

#[test]
fn chain_hash_links() {
    let chain = build_chain(5);
    for i in 1..5usize {
        let prev_hash = chain.get(i).action().prev_action_hash().unwrap();
        assert_eq!(prev_hash.bytes, chain.get(i - 1).as_hash().bytes);
    }
    assert!(chain.get(0).action().prev_action_hash().is_none());
}

#[test]
fn sequence_gap_is_rejected() {
    // Appending sequence number 2 directly after sequence number 0.
    let mut chain = Chain::new();
    chain.append(genesis(), sig(0)).unwrap();
    let prev = chain.get(0).as_hash().clone();
    let err = chain.append(marker(2, prev), sig(1)).unwrap_err();
    assert_eq!(err, ChainIntegrityError::SequenceMismatch);
    assert_eq!(chain.len(), 1);
}

#[test]
fn first_action_must_be_genesis() {
    let mut chain = Chain::new();
    let err = chain
        .append(marker(0, ContentHash::compute(&b"x".to_vec())), sig(0))
        .unwrap_err();
    assert_eq!(err, ChainIntegrityError::MissingGenesis);
    assert_eq!(chain.len(), 0);
}

#[test]
fn second_genesis_is_rejected() {
    let mut chain = Chain::new();
    chain.append(genesis(), sig(0)).unwrap();
    let err = chain.append(genesis(), sig(1)).unwrap_err();
    assert_eq!(err, ChainIntegrityError::UnexpectedGenesis);
    assert_eq!(chain.len(), 1);
}

#[test]
fn broken_hash_link_is_rejected() {
    let mut chain = Chain::new();
    chain.append(genesis(), sig(0)).unwrap();
    let wrong_prev = ContentHash::compute(&b"not the genesis hash".to_vec());
    let err = chain.append(marker(1, wrong_prev), sig(1)).unwrap_err();
    assert_eq!(err, ChainIntegrityError::PrevHashMismatch);
    assert_eq!(chain.len(), 1);
}

#[test]
fn append_hashes_the_action() {
    let mut chain = Chain::new();
    chain.append(genesis(), sig(0)).unwrap();
    let stored = chain.get(0);
    // The stored hash is a digest: fixed width, not the serialization.
    assert_eq!(stored.as_hash().bytes.len(), 32);
    // The same action hashes to the same digest.
    let again = chain_integrity::hash::HashedContent::new(genesis());
    assert_eq!(again.hash.bytes, stored.as_hash().bytes);
}
