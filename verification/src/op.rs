//! Operations: the content-addressed units a record is expanded into for
//! publication, each with the basis hash that routes it, and the pure
//! derivation that maps one record to its exact, ordered operation set.

use vstd::prelude::*;
use crate::action::{
    Action, ActionModel, CreateLink, CreateLinkModel, Delete, DeleteLink, DeleteLinkModel,
    DeleteModel, NewEntryHeader, NewEntryHeaderModel, Update, UpdateModel, canonical_action,
};
use crate::element::{Element, ElementEntry, ElementEntryModel, ElementModel};
use crate::entry::{Entry, EntryModel, Signature};
use crate::hash::{ContentHash, HashableContent, hash_of};

verus! {

/// The value of a derived operation.
pub enum DhtOpModel {
    StoreElement(Seq<u8>, ActionModel, Option<EntryModel>),
    StoreEntry(Seq<u8>, NewEntryHeaderModel, EntryModel),
    RegisterAgentActivity(Seq<u8>, ActionModel),
    RegisterUpdatedContent(Seq<u8>, UpdateModel, Option<EntryModel>),
    RegisterUpdatedElement(Seq<u8>, UpdateModel, Option<EntryModel>),
    RegisterDeletedBy(Seq<u8>, DeleteModel),
    RegisterDeletedEntryAction(Seq<u8>, DeleteModel),
    RegisterAddLink(Seq<u8>, CreateLinkModel),
    RegisterRemoveLink(Seq<u8>, DeleteLinkModel),
}

impl DhtOpModel {
    /// The basis hash: the address that routes this operation to the
    /// peers responsible for it. Element-storing operations route by the
    /// action hash; entry-storing by the entry hash; registrations by
    /// the address they annotate; agent activity always by the author's
    /// identity.
    pub open spec fn basis(self) -> Seq<u8> {
        match self {
            DhtOpModel::StoreElement(_, a, _) => hash_of(canonical_action(a)),
            DhtOpModel::StoreEntry(_, h, _) => match h {
                NewEntryHeaderModel::Create(c) => c.entry_hash,
                NewEntryHeaderModel::Update(u) => u.entry_hash,
            },
            DhtOpModel::RegisterAgentActivity(_, a) => a.author(),
            DhtOpModel::RegisterUpdatedContent(_, u, _) => u.original_entry_address,
            DhtOpModel::RegisterUpdatedElement(_, u, _) => u.original_action_address,
            DhtOpModel::RegisterDeletedBy(_, d) => d.deletes_address,
            DhtOpModel::RegisterDeletedEntryAction(_, d) => d.deletes_entry_address,
            DhtOpModel::RegisterAddLink(_, c) => c.base_address,
            DhtOpModel::RegisterRemoveLink(_, d) => d.base_address,
        }
    }

    /// The signature carried by this operation.
    pub open spec fn signature(self) -> Seq<u8> {
        match self {
            DhtOpModel::StoreElement(s, _, _) => s,
            DhtOpModel::StoreEntry(s, _, _) => s,
            DhtOpModel::RegisterAgentActivity(s, _) => s,
            DhtOpModel::RegisterUpdatedContent(s, _, _) => s,
            DhtOpModel::RegisterUpdatedElement(s, _, _) => s,
            DhtOpModel::RegisterDeletedBy(s, _) => s,
            DhtOpModel::RegisterDeletedEntryAction(s, _) => s,
            DhtOpModel::RegisterAddLink(s, _) => s,
            DhtOpModel::RegisterRemoveLink(s, _) => s,
        }
    }

    /// Whether this operation carries entry bytes.
    pub open spec fn carries_entry(self) -> bool {
        match self {
            DhtOpModel::StoreElement(_, _, e) => e is Some,
            DhtOpModel::StoreEntry(_, _, _) => true,
            DhtOpModel::RegisterUpdatedContent(_, _, e) => e is Some,
            DhtOpModel::RegisterUpdatedElement(_, _, e) => e is Some,
            _ => false,
        }
    }

    /// The sequence number of the wrapped action, for the kinds that
    /// store one.
    pub open spec fn header_seq(self) -> Option<u32> {
        match self {
            DhtOpModel::StoreElement(_, a, _) => a.stored_sequence_number(),
            DhtOpModel::StoreEntry(_, h, _) => Some(h.sequence_number()),
            DhtOpModel::RegisterAgentActivity(_, a) => a.stored_sequence_number(),
            DhtOpModel::RegisterUpdatedContent(_, u, _) => Some(u.sequence_number),
            DhtOpModel::RegisterUpdatedElement(_, u, _) => Some(u.sequence_number),
            DhtOpModel::RegisterDeletedBy(_, d) => Some(d.sequence_number),
            DhtOpModel::RegisterDeletedEntryAction(_, d) => Some(d.sequence_number),
            DhtOpModel::RegisterAddLink(_, c) => Some(c.sequence_number),
            DhtOpModel::RegisterRemoveLink(_, d) => Some(d.sequence_number),
        }
    }

    /// The same operation with the wrapped action's stored sequence
    /// number replaced, where it stores one.
    pub open spec fn with_header_seq(self, n: u32) -> DhtOpModel {
        match self {
            DhtOpModel::StoreElement(s, a, e) => DhtOpModel::StoreElement(
                s,
                a.with_sequence_number(n),
                e,
            ),
            DhtOpModel::StoreEntry(s, h, e) => DhtOpModel::StoreEntry(
                s,
                h.with_sequence_number(n),
                e,
            ),
            DhtOpModel::RegisterAgentActivity(s, a) => DhtOpModel::RegisterAgentActivity(
                s,
                a.with_sequence_number(n),
            ),
            DhtOpModel::RegisterUpdatedContent(s, u, e) => DhtOpModel::RegisterUpdatedContent(
                s,
                UpdateModel { sequence_number: n, ..u },
                e,
            ),
            DhtOpModel::RegisterUpdatedElement(s, u, e) => DhtOpModel::RegisterUpdatedElement(
                s,
                UpdateModel { sequence_number: n, ..u },
                e,
            ),
            DhtOpModel::RegisterDeletedBy(s, d) => DhtOpModel::RegisterDeletedBy(
                s,
                DeleteModel { sequence_number: n, ..d },
            ),
            DhtOpModel::RegisterDeletedEntryAction(s, d) => DhtOpModel::RegisterDeletedEntryAction(
                s,
                DeleteModel { sequence_number: n, ..d },
            ),
            DhtOpModel::RegisterAddLink(s, c) => DhtOpModel::RegisterAddLink(
                s,
                CreateLinkModel { sequence_number: n, ..c },
            ),
            DhtOpModel::RegisterRemoveLink(s, d) => DhtOpModel::RegisterRemoveLink(
                s,
                DeleteLinkModel { sequence_number: n, ..d },
            ),
        }
    }
}

/// A derived, independently publishable, content-addressed operation:
/// one facet of an action's effect on the shared DHT. Immutable once
/// derived.
#[derive(Debug, PartialEq, Eq)]
pub enum DhtOp {
    /// Store the element at the action's address.
    StoreElement(Signature, Action, Option<Entry>),
    /// Store the entry at the entry's address.
    StoreEntry(Signature, NewEntryHeader, Entry),
    /// Register the action on the author's activity record.
    RegisterAgentActivity(Signature, Action),
    /// Register an update at the replaced entry's address.
    RegisterUpdatedContent(Signature, Update, Option<Entry>),
    /// Register an update at the replaced element's address.
    RegisterUpdatedElement(Signature, Update, Option<Entry>),
    /// Register a delete at the deleted action's address.
    RegisterDeletedBy(Signature, Delete),
    /// Register a delete at the deleted entry's address.
    RegisterDeletedEntryAction(Signature, Delete),
    /// Register a new link at its base address.
    RegisterAddLink(Signature, CreateLink),
    /// Register a link removal at its base address.
    RegisterRemoveLink(Signature, DeleteLink),
}

/// The value of an optional entry.
pub open spec fn opt_entry_model(o: Option<Entry>) -> Option<EntryModel> {
    match o {
        Some(e) => Some(e@),
        None => None,
    }
}

impl View for DhtOp {
    type V = DhtOpModel;

    open spec fn view(&self) -> DhtOpModel {
        match *self {
            DhtOp::StoreElement(ref s, ref a, ref e) => DhtOpModel::StoreElement(
                s@,
                a@,
                opt_entry_model(*e),
            ),
            DhtOp::StoreEntry(ref s, ref h, ref e) => DhtOpModel::StoreEntry(s@, h@, e@),
            DhtOp::RegisterAgentActivity(ref s, ref a) => DhtOpModel::RegisterAgentActivity(
                s@,
                a@,
            ),
            DhtOp::RegisterUpdatedContent(ref s, ref u, ref e) => DhtOpModel::RegisterUpdatedContent(
                s@,
                u@,
                opt_entry_model(*e),
            ),
            DhtOp::RegisterUpdatedElement(ref s, ref u, ref e) => DhtOpModel::RegisterUpdatedElement(
                s@,
                u@,
                opt_entry_model(*e),
            ),
            DhtOp::RegisterDeletedBy(ref s, ref d) => DhtOpModel::RegisterDeletedBy(s@, d@),
            DhtOp::RegisterDeletedEntryAction(ref s, ref d) => DhtOpModel::RegisterDeletedEntryAction(
                s@,
                d@,
            ),
            DhtOp::RegisterAddLink(ref s, ref c) => DhtOpModel::RegisterAddLink(s@, c@),
            DhtOp::RegisterRemoveLink(ref s, ref d) => DhtOpModel::RegisterRemoveLink(s@, d@),
        }
    }
}

impl DhtOp {
    /// The basis hash: the address this operation is routed by.
    pub fn dht_basis(&self) -> (r: ContentHash)
        ensures
            r@ == self@.basis(),
    {
        match *self {
            DhtOp::StoreElement(_, ref a, _) => {
                let bytes = a.canonical_bytes();
                ContentHash::compute(&bytes)
            }
            DhtOp::StoreEntry(_, ref h, _) => match *h {
                NewEntryHeader::Create(ref c) => c.entry_hash.clone(),
                NewEntryHeader::Update(ref u) => u.entry_hash.clone(),
            },
            DhtOp::RegisterAgentActivity(_, ref a) => ContentHash::from_raw(
                crate::codec::clone_bytes(&a.author().bytes),
            ),
            DhtOp::RegisterUpdatedContent(_, ref u, _) => u.original_entry_address.clone(),
            DhtOp::RegisterUpdatedElement(_, ref u, _) => u.original_action_address.clone(),
            DhtOp::RegisterDeletedBy(_, ref d) => d.deletes_address.clone(),
            DhtOp::RegisterDeletedEntryAction(_, ref d) => d.deletes_entry_address.clone(),
            DhtOp::RegisterAddLink(_, ref c) => c.base_address.clone(),
            DhtOp::RegisterRemoveLink(_, ref d) => d.base_address.clone(),
        }
    }

    /// The signature this operation carries: the one that signed the
    /// action it was derived from.
    pub fn signature(&self) -> (r: &Signature)
        ensures
            r@ == self@.signature(),
    {
        match *self {
            DhtOp::StoreElement(ref s, _, _) => s,
            DhtOp::StoreEntry(ref s, _, _) => s,
            DhtOp::RegisterAgentActivity(ref s, _) => s,
            DhtOp::RegisterUpdatedContent(ref s, _, _) => s,
            DhtOp::RegisterUpdatedElement(ref s, _, _) => s,
            DhtOp::RegisterDeletedBy(ref s, _) => s,
            DhtOp::RegisterDeletedEntryAction(ref s, _) => s,
            DhtOp::RegisterAddLink(ref s, _) => s,
            DhtOp::RegisterRemoveLink(ref s, _) => s,
        }
    }

    /// The sequence number of the wrapped action, for the kinds that
    /// store one.
    pub fn header_seq(&self) -> (r: Option<u32>)
        ensures
            r == self@.header_seq(),
    {
        match *self {
            DhtOp::StoreElement(_, ref a, _) => match *a {
                Action::Dna(_) => None,
                _ => Some(a.sequence_number()),
            },
            DhtOp::StoreEntry(_, ref h, _) => match *h {
                NewEntryHeader::Create(ref c) => Some(c.sequence_number),
                NewEntryHeader::Update(ref u) => Some(u.sequence_number),
            },
            DhtOp::RegisterAgentActivity(_, ref a) => match *a {
                Action::Dna(_) => None,
                _ => Some(a.sequence_number()),
            },
            DhtOp::RegisterUpdatedContent(_, ref u, _) => Some(u.sequence_number),
            DhtOp::RegisterUpdatedElement(_, ref u, _) => Some(u.sequence_number),
            DhtOp::RegisterDeletedBy(_, ref d) => Some(d.sequence_number),
            DhtOp::RegisterDeletedEntryAction(_, ref d) => Some(d.sequence_number),
            DhtOp::RegisterAddLink(_, ref c) => Some(c.sequence_number),
            DhtOp::RegisterRemoveLink(_, ref d) => Some(d.sequence_number),
        }
    }

    /// The mutable sequence-number field of the wrapped action, for the
    /// kinds that store one. The hook that property-based oracles use to
    /// watch consecutiveness across a stream of operations.
    pub fn header_seq_mut(&mut self) -> (r: Option<&mut u32>)
        ensures
            match r {
                Some(seq) => old(self)@.header_seq() == Some(*seq)
                    && final(self)@ == old(self)@.with_header_seq(*final(seq)),
                None => old(self)@.header_seq() is None && *final(self) == *old(self),
            },
    {
        match self {
            DhtOp::StoreElement(_, ref mut a, _) => a.header_seq_mut(),
            DhtOp::StoreEntry(_, ref mut h, _) => Some(h.header_seq_mut()),
            DhtOp::RegisterAgentActivity(_, ref mut a) => a.header_seq_mut(),
            DhtOp::RegisterUpdatedContent(_, ref mut u, _) => Some(&mut u.sequence_number),
            DhtOp::RegisterUpdatedElement(_, ref mut u, _) => Some(&mut u.sequence_number),
            DhtOp::RegisterDeletedBy(_, ref mut d) => Some(&mut d.sequence_number),
            DhtOp::RegisterDeletedEntryAction(_, ref mut d) => Some(&mut d.sequence_number),
            DhtOp::RegisterAddLink(_, ref mut c) => Some(&mut c.sequence_number),
            DhtOp::RegisterRemoveLink(_, ref mut d) => Some(&mut d.sequence_number),
        }
    }
}

/// The entry an element holds, if it is present.
pub open spec fn present_entry(e: ElementEntryModel) -> Option<EntryModel> {
    match e {
        ElementEntryModel::Present(entry) => Some(entry),
        _ => None,
    }
}

/// The exact, ordered operation set a record is expanded into. Content
/// operations come first; the agent-activity operation is always
/// emitted, always last. Entry bytes are attached only where the
/// element actually holds its entry: a hidden or withheld entry is
/// never attached, whatever happened further up the call chain.
pub open spec fn derived_ops(e: ElementModel) -> Seq<DhtOpModel> {
    let sig = e.signed_action.signature;
    let a = e.signed_action.content;
    let maybe = present_entry(e.entry);
    match a {
        ActionModel::Create(c) => match e.entry {
            ElementEntryModel::Present(entry) => seq![
                DhtOpModel::StoreElement(sig, a, Some(entry)),
                DhtOpModel::StoreEntry(sig, NewEntryHeaderModel::Create(c), entry),
                DhtOpModel::RegisterAgentActivity(sig, a),
            ],
            _ => seq![
                DhtOpModel::StoreElement(sig, a, None),
                DhtOpModel::RegisterAgentActivity(sig, a),
            ],
        },
        ActionModel::Update(u) => seq![
            DhtOpModel::StoreElement(sig, a, maybe),
            DhtOpModel::RegisterUpdatedContent(sig, u, maybe),
            DhtOpModel::RegisterUpdatedElement(sig, u, maybe),
            DhtOpModel::RegisterAgentActivity(sig, a),
        ],
        ActionModel::Delete(d) => seq![
            DhtOpModel::RegisterDeletedBy(sig, d),
            DhtOpModel::RegisterDeletedEntryAction(sig, d),
            DhtOpModel::RegisterAgentActivity(sig, a),
        ],
        ActionModel::CreateLink(c) => seq![
            DhtOpModel::RegisterAddLink(sig, c),
            DhtOpModel::RegisterAgentActivity(sig, a),
        ],
        ActionModel::DeleteLink(d) => seq![
            DhtOpModel::RegisterRemoveLink(sig, d),
            DhtOpModel::RegisterAgentActivity(sig, a),
        ],
        _ => seq![
            DhtOpModel::StoreElement(sig, a, None),
            DhtOpModel::RegisterAgentActivity(sig, a),
        ],
    }
}

/// The values of a sequence of operations.
pub open spec fn ops_models(ops: Seq<DhtOp>) -> Seq<DhtOpModel> {
    ops.map_values(|op: DhtOp| op@)
}

/// A fresh copy of the entry an element holds, if it is present.
fn present_entry_clone(e: &ElementEntry) -> (r: Option<Entry>)
    ensures
        opt_entry_model(r) == present_entry(e@),
{
    match *e {
        ElementEntry::Present(ref entry) => Some(entry.clone()),
        _ => None,
    }
}

/// Expands one record into the deterministic, ordered set of operations
/// it implies. Pure: the result is a function of the record's value
/// alone, so deriving twice from the same record gives the same
/// operations in the same order.
pub fn derive_ops(element: &Element) -> (ops: Vec<DhtOp>)
    ensures
        ops_models(ops@) == derived_ops(element@),
        ops@.len() == derived_ops(element@).len(),
        forall|i: int| 0 <= i < ops@.len() ==> (#[trigger] ops@[i])@ == derived_ops(element@)[i],
{
    let mut ops: Vec<DhtOp> = Vec::new();
    match *element.action() {
        Action::Create(ref c) => {
            match *element.entry() {
                ElementEntry::Present(ref entry) => {
                    ops.push(DhtOp::StoreElement(
                        element.signature().clone(),
                        element.action().clone(),
                        Some(entry.clone()),
                    ));
                    ops.push(DhtOp::StoreEntry(
                        element.signature().clone(),
                        NewEntryHeader::Create(c.clone()),
                        entry.clone(),
                    ));
                }
                _ => {
                    ops.push(DhtOp::StoreElement(
                        element.signature().clone(),
                        element.action().clone(),
                        None,
                    ));
                }
            }
        }
        Action::Update(ref u) => {
            ops.push(DhtOp::StoreElement(
                element.signature().clone(),
                element.action().clone(),
                present_entry_clone(element.entry()),
            ));
            ops.push(DhtOp::RegisterUpdatedContent(
                element.signature().clone(),
                u.clone(),
                present_entry_clone(element.entry()),
            ));
            ops.push(DhtOp::RegisterUpdatedElement(
                element.signature().clone(),
                u.clone(),
                present_entry_clone(element.entry()),
            ));
        }
        Action::Delete(ref d) => {
            ops.push(DhtOp::RegisterDeletedBy(element.signature().clone(), d.clone()));
            ops.push(DhtOp::RegisterDeletedEntryAction(element.signature().clone(), d.clone()));
        }
        Action::CreateLink(ref c) => {
            ops.push(DhtOp::RegisterAddLink(element.signature().clone(), c.clone()));
        }
        Action::DeleteLink(ref d) => {
            ops.push(DhtOp::RegisterRemoveLink(element.signature().clone(), d.clone()));
        }
        _ => {
            ops.push(DhtOp::StoreElement(
                element.signature().clone(),
                element.action().clone(),
                None,
            ));
        }
    }
    ops.push(DhtOp::RegisterAgentActivity(
        element.signature().clone(),
        element.action().clone(),
    ));
    assert(ops_models(ops@) =~= derived_ops(element@));
    assert forall|i: int| 0 <= i < ops@.len() implies (#[trigger] ops@[i])@ == derived_ops(
        element@,
    )[i] by {
        assert(ops_models(ops@)[i] == ops@[i]@);
    }
    ops
}

/// Derivation is deterministic: two records with the same value expand
/// to the same operations, equal in length, members and order.
pub proof fn lemma_derivation_deterministic(e1: ElementModel, e2: ElementModel)
    requires
        e1 == e2,
    ensures
        derived_ops(e1) == derived_ops(e2),
{
}

/// No private leakage: a record whose entry is hidden or withheld
/// expands to operations none of which carries entry bytes.
pub proof fn lemma_no_private_leakage(e: ElementModel)
    requires
        e.entry is Hidden || e.entry is NotStored,
    ensures
        forall|i: int|
            0 <= i < derived_ops(e).len() ==> !(#[trigger] derived_ops(e)[i]).carries_entry(),
{
    let ops = derived_ops(e);
    assert forall|i: int| 0 <= i < ops.len() implies !(#[trigger] ops[i]).carries_entry() by {}
}

/// Every derivation emits the agent-activity operation, exactly once
/// and always last; content operations come first, so the activity
/// operation is never first.
pub proof fn lemma_activity_always_last(e: ElementModel)
    ensures
        derived_ops(e).len() >= 2,
        derived_ops(e).last() == DhtOpModel::RegisterAgentActivity(
            e.signed_action.signature,
            e.signed_action.content,
        ),
        forall|i: int|
            0 <= i < derived_ops(e).len() - 1 ==> !(#[trigger] derived_ops(
                e,
            )[i] is RegisterAgentActivity),
{
}

/// The activity operation routes by the author's identity: its basis is
/// the author of the action it registers.
pub proof fn lemma_activity_basis_is_author(e: ElementModel)
    ensures
        derived_ops(e).last().basis() == e.signed_action.content.author(),
{
}

/// Element-storing operations route by the record's own address: on a
/// record whose stored hash really is its action's hash, every
/// store-element operation derived from it has that hash as its basis.
pub proof fn lemma_store_element_basis_is_address(e: ElementModel)
    requires
        e.signed_action.hash == hash_of(canonical_action(e.signed_action.content)),
    ensures
        forall|i: int|
            0 <= i < derived_ops(e).len() && (#[trigger] derived_ops(e)[i]) is StoreElement
                ==> derived_ops(e)[i].basis() == e.signed_action.hash,
{
}

/// Signature bytes are preserved losslessly through derivation: every
/// operation derived from a record carries the record's signature.
pub proof fn lemma_ops_carry_the_signature(e: ElementModel)
    ensures
        forall|i: int|
            0 <= i < derived_ops(e).len() ==> (#[trigger] derived_ops(e)[i]).signature()
                == e.signed_action.signature,
{
}

} // verus!
