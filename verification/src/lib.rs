//! Integrity core of an agent-centric, append-only, hash-linked action
//! chain: the action and record data model, the signed-and-hashed wrapper,
//! the entry visibility and redaction rules, and the derivation of the
//! content-addressed operations that each record implies.

pub mod codec;
pub mod hash;
pub mod entry;
pub mod action;
pub mod element;
pub mod op;
pub mod chain;
pub mod anchor;
pub mod bundle;
