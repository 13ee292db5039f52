//! Anchors: the conventional public entry definition used to root
//! well-known link trees in the DHT.

use vstd::prelude::*;
use vstd::string::StringExecFns;
use crate::entry::EntryVisibility;

verus! {

/// How many peers must validate an anchor entry before it is settled.
pub const REQUIRED_VALIDATIONS: u8 = 13;

/// The name of an entry definition.
#[derive(Debug, PartialEq, Eq)]
pub struct EntryDefId(pub String);

impl Clone for EntryDefId {
    fn clone(&self) -> (r: Self)
        ensures
            r == *self,
    {
        EntryDefId(self.0.clone())
    }
}

/// The replication strategy of an entry definition. A single strategy
/// exists.
#[derive(Debug, Clone, Copy, PartialEq, Eq, Structural)]
pub struct CrdtType;

/// How many validations an entry definition demands.
#[derive(Debug, Clone, Copy, PartialEq, Eq, Structural)]
pub struct RequiredValidations(pub u8);

/// An entry definition: the name, replication strategy, validation
/// demand and visibility under which an application commits entries.
#[derive(Debug, PartialEq, Eq)]
pub struct EntryDef {
    pub id: EntryDefId,
    pub crdt_type: CrdtType,
    pub required_validations: RequiredValidations,
    pub visibility: EntryVisibility,
}

impl Clone for EntryDef {
    fn clone(&self) -> (r: Self)
        ensures
            r == *self,
    {
        EntryDef {
            id: self.id.clone(),
            crdt_type: self.crdt_type,
            required_validations: self.required_validations,
            visibility: self.visibility,
        }
    }
}

/// The text that identifies an anchor.
pub type AnchorId = String;

/// An anchor: a well-known public entry whose only content is its
/// identifying text.
#[derive(Debug, PartialEq, Eq)]
pub struct Anchor(pub AnchorId);

impl Default for Anchor {
    fn default() -> (r: Self)
        ensures
            r.0@ == Seq::<char>::empty(),
    {
        Anchor(String::new())
    }
}

impl Clone for Anchor {
    fn clone(&self) -> (r: Self)
        ensures
            r == *self,
    {
        Anchor(self.0.clone())
    }
}

impl Anchor {
    /// The entry definition under which every anchor is committed:
    /// always public, under the anchors namespace, with the standing
    /// validation demand.
    pub fn entry_def() -> (r: EntryDef)
        ensures
            r.id.0@ == "holochain_anchors::anchor"@,
            r.crdt_type == CrdtType,
            r.required_validations.0 == REQUIRED_VALIDATIONS,
            r.visibility == EntryVisibility::Public,
    {
        EntryDef {
            id: EntryDefId(String::from_str("holochain_anchors::anchor")),
            crdt_type: CrdtType,
            required_validations: RequiredValidations(REQUIRED_VALIDATIONS),
            visibility: EntryVisibility::Public,
        }
    }
}

} // verus!
