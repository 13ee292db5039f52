//! Entries: the application payload an action may reference, its
//! visibility, and the signing material around it.

use vstd::prelude::*;
use crate::codec::{clone_bytes, enc_bytes, push_bytes};
use crate::hash::HashableContent;

verus! {

/// A signature over the hash of some signed content. This core accepts
/// already-signed values and preserves the signature bytes losslessly;
/// verifying them is a validation-layer concern.
#[derive(Debug, PartialEq, Eq)]
pub struct Signature {
    /// The raw signature bytes.
    pub bytes: Vec<u8>,
}

impl View for Signature {
    type V = Seq<u8>;

    open spec fn view(&self) -> Seq<u8> {
        self.bytes@
    }
}

impl Clone for Signature {
    fn clone(&self) -> (r: Self)
        ensures
            r@ == self@,
    {
        Signature { bytes: clone_bytes(&self.bytes) }
    }
}

/// The identity of the agent that authors a chain: its public key bytes.
/// Also the routing basis of every agent-activity operation.
#[derive(Debug, PartialEq, Eq)]
pub struct AgentId {
    /// The raw key bytes.
    pub bytes: Vec<u8>,
}

impl View for AgentId {
    type V = Seq<u8>;

    open spec fn view(&self) -> Seq<u8> {
        self.bytes@
    }
}

impl Clone for AgentId {
    fn clone(&self) -> (r: Self)
        ensures
            r@ == self@,
    {
        AgentId { bytes: clone_bytes(&self.bytes) }
    }
}

/// Whether an entry may be served to anyone, or only to its author.
#[derive(Debug, Clone, Copy, PartialEq, Eq, Structural)]
pub enum EntryVisibility {
    /// The entry is public DHT data.
    Public,
    /// The entry never leaves the author's chain.
    Private,
}

/// The kind of entry an entry-creating action points at. Carries the
/// visibility that governs redaction.
#[derive(Debug, Clone, Copy, PartialEq, Eq, Structural)]
pub enum EntryType {
    /// An application-defined entry, with the visibility its definition chose.
    App(EntryVisibility),
    /// A capability grant; grants never leave the author's chain.
    CapGrant,
}

impl EntryType {
    /// The visibility of entries of this type.
    pub open spec fn spec_visibility(&self) -> EntryVisibility {
        match *self {
            EntryType::App(v) => v,
            EntryType::CapGrant => EntryVisibility::Private,
        }
    }

    /// The visibility of entries of this type.
    pub fn visibility(&self) -> (r: EntryVisibility)
        ensures
            r == self.spec_visibility(),
    {
        match *self {
            EntryType::App(v) => v,
            EntryType::CapGrant => EntryVisibility::Private,
        }
    }
}

/// A capability grant payload, carried by a grant entry.
#[derive(Debug, PartialEq, Eq)]
pub struct CapGrantEntry {
    /// The tag under which the grant was issued.
    pub tag: Vec<u8>,
}

impl View for CapGrantEntry {
    type V = Seq<u8>;

    open spec fn view(&self) -> Seq<u8> {
        self.tag@
    }
}

impl Clone for CapGrantEntry {
    fn clone(&self) -> (r: Self)
        ensures
            r@ == self@,
    {
        CapGrantEntry { tag: clone_bytes(&self.tag) }
    }
}

/// The mathematical value of an entry.
pub enum EntryModel {
    /// An opaque application payload.
    App(Seq<u8>),
    /// A capability grant.
    CapGrant(Seq<u8>),
}

/// An entry: the payload an entry-creating action points at.
#[derive(Debug, PartialEq, Eq)]
pub enum Entry {
    /// An opaque application payload.
    App(Vec<u8>),
    /// A capability grant.
    CapGrant(CapGrantEntry),
}

impl View for Entry {
    type V = EntryModel;

    open spec fn view(&self) -> EntryModel {
        match *self {
            Entry::App(ref b) => EntryModel::App(b@),
            Entry::CapGrant(ref g) => EntryModel::CapGrant(g@),
        }
    }
}

impl Clone for Entry {
    fn clone(&self) -> (r: Self)
        ensures
            r@ == self@,
    {
        match *self {
            Entry::App(ref b) => Entry::App(clone_bytes(b)),
            Entry::CapGrant(ref g) => Entry::CapGrant(g.clone()),
        }
    }
}

/// The canonical serialization of an entry: a variant tag, then the
/// length-prefixed payload.
pub open spec fn canonical_entry(e: EntryModel) -> Seq<u8> {
    match e {
        EntryModel::App(b) => seq![1u8] + enc_bytes(b),
        EntryModel::CapGrant(t) => seq![2u8] + enc_bytes(t),
    }
}

impl HashableContent for Entry {
    open spec fn canonical(&self) -> Seq<u8> {
        canonical_entry(self@)
    }

    fn canonical_bytes(&self) -> (r: Vec<u8>)
        ensures
            r@ == self.canonical(),
    {
        let mut buf: Vec<u8> = Vec::new();
        match *self {
            Entry::App(ref b) => {
                buf.push(1u8);
                push_bytes(&mut buf, b);
            }
            Entry::CapGrant(ref g) => {
                buf.push(2u8);
                push_bytes(&mut buf, &g.tag);
            }
        }
        assert(buf@ =~= self.canonical());
        buf
    }
}

} // verus!
