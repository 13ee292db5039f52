//! Actions: the tagged union of the kinds of record an agent can append
//! to its chain, each with its canonical serialization and the fields the
//! chain invariant speaks of.

use vstd::prelude::*;
use crate::codec::{clone_bytes, enc_bytes, enc_i64, enc_u32, push_bytes, push_i64, push_u32};
use crate::entry::{AgentId, EntryType, EntryVisibility};
use crate::hash::{ContentHash, HashableContent};

verus! {

// ---------------------------------------------------------------------
// The mathematical value of each action kind.
// ---------------------------------------------------------------------

/// The value of a chain-genesis action.
pub struct DnaModel {
    pub author: Seq<u8>,
    pub timestamp: i64,
    pub dna_hash: Seq<u8>,
}

/// The value of an agent-validation marker.
pub struct AgentValidationPkgModel {
    pub author: Seq<u8>,
    pub timestamp: i64,
    pub sequence_number: u32,
    pub prev_action_hash: Seq<u8>,
}

/// The value of an initialization-complete marker.
pub struct InitZomesCompleteModel {
    pub author: Seq<u8>,
    pub timestamp: i64,
    pub sequence_number: u32,
    pub prev_action_hash: Seq<u8>,
}

/// The value of a link-creating action.
pub struct CreateLinkModel {
    pub author: Seq<u8>,
    pub timestamp: i64,
    pub sequence_number: u32,
    pub prev_action_hash: Seq<u8>,
    pub base_address: Seq<u8>,
    pub target_address: Seq<u8>,
    pub tag: Seq<u8>,
}

/// The value of a link-deleting action.
pub struct DeleteLinkModel {
    pub author: Seq<u8>,
    pub timestamp: i64,
    pub sequence_number: u32,
    pub prev_action_hash: Seq<u8>,
    pub base_address: Seq<u8>,
    pub link_add_address: Seq<u8>,
}

/// The value of a chain-open marker.
pub struct OpenChainModel {
    pub author: Seq<u8>,
    pub timestamp: i64,
    pub sequence_number: u32,
    pub prev_action_hash: Seq<u8>,
    pub prev_dna_hash: Seq<u8>,
}

/// The value of a chain-close marker.
pub struct CloseChainModel {
    pub author: Seq<u8>,
    pub timestamp: i64,
    pub sequence_number: u32,
    pub prev_action_hash: Seq<u8>,
    pub new_dna_hash: Seq<u8>,
}

/// The value of an entry-creating action.
pub struct CreateModel {
    pub author: Seq<u8>,
    pub timestamp: i64,
    pub sequence_number: u32,
    pub prev_action_hash: Seq<u8>,
    pub entry_type: EntryType,
    pub entry_hash: Seq<u8>,
}

/// The value of an entry-updating action.
pub struct UpdateModel {
    pub author: Seq<u8>,
    pub timestamp: i64,
    pub sequence_number: u32,
    pub prev_action_hash: Seq<u8>,
    pub original_action_address: Seq<u8>,
    pub original_entry_address: Seq<u8>,
    pub entry_type: EntryType,
    pub entry_hash: Seq<u8>,
}

/// The value of an entry-deleting action.
pub struct DeleteModel {
    pub author: Seq<u8>,
    pub timestamp: i64,
    pub sequence_number: u32,
    pub prev_action_hash: Seq<u8>,
    pub deletes_address: Seq<u8>,
    pub deletes_entry_address: Seq<u8>,
}

/// The value of an action, over all kinds.
pub enum ActionModel {
    Dna(DnaModel),
    AgentValidationPkg(AgentValidationPkgModel),
    InitZomesComplete(InitZomesCompleteModel),
    CreateLink(CreateLinkModel),
    DeleteLink(DeleteLinkModel),
    OpenChain(OpenChainModel),
    CloseChain(CloseChainModel),
    Create(CreateModel),
    Update(UpdateModel),
    Delete(DeleteModel),
}

impl ActionModel {
    /// The position this action claims on its chain. The genesis action
    /// is always at position zero.
    pub open spec fn sequence_number(self) -> u32 {
        match self {
            ActionModel::Dna(_) => 0u32,
            ActionModel::AgentValidationPkg(a) => a.sequence_number,
            ActionModel::InitZomesComplete(a) => a.sequence_number,
            ActionModel::CreateLink(a) => a.sequence_number,
            ActionModel::DeleteLink(a) => a.sequence_number,
            ActionModel::OpenChain(a) => a.sequence_number,
            ActionModel::CloseChain(a) => a.sequence_number,
            ActionModel::Create(a) => a.sequence_number,
            ActionModel::Update(a) => a.sequence_number,
            ActionModel::Delete(a) => a.sequence_number,
        }
    }

    /// The hash of the preceding action; the genesis action has none.
    pub open spec fn prev_action_hash(self) -> Option<Seq<u8>> {
        match self {
            ActionModel::Dna(_) => None,
            ActionModel::AgentValidationPkg(a) => Some(a.prev_action_hash),
            ActionModel::InitZomesComplete(a) => Some(a.prev_action_hash),
            ActionModel::CreateLink(a) => Some(a.prev_action_hash),
            ActionModel::DeleteLink(a) => Some(a.prev_action_hash),
            ActionModel::OpenChain(a) => Some(a.prev_action_hash),
            ActionModel::CloseChain(a) => Some(a.prev_action_hash),
            ActionModel::Create(a) => Some(a.prev_action_hash),
            ActionModel::Update(a) => Some(a.prev_action_hash),
            ActionModel::Delete(a) => Some(a.prev_action_hash),
        }
    }

    /// The identity of the authoring agent.
    pub open spec fn author(self) -> Seq<u8> {
        match self {
            ActionModel::Dna(a) => a.author,
            ActionModel::AgentValidationPkg(a) => a.author,
            ActionModel::InitZomesComplete(a) => a.author,
            ActionModel::CreateLink(a) => a.author,
            ActionModel::DeleteLink(a) => a.author,
            ActionModel::OpenChain(a) => a.author,
            ActionModel::CloseChain(a) => a.author,
            ActionModel::Create(a) => a.author,
            ActionModel::Update(a) => a.author,
            ActionModel::Delete(a) => a.author,
        }
    }

    /// The entry reference an entry-creating or entry-updating action
    /// carries; no other kind carries one.
    pub open spec fn entry_data(self) -> Option<(Seq<u8>, EntryType)> {
        match self {
            ActionModel::Create(a) => Some((a.entry_hash, a.entry_type)),
            ActionModel::Update(a) => Some((a.entry_hash, a.entry_type)),
            _ => None,
        }
    }

    /// The visibility of the entry this action references, if it
    /// references one.
    pub open spec fn entry_visibility(self) -> Option<EntryVisibility> {
        match self.entry_data() {
            Some((_h, et)) => Some(et.spec_visibility()),
            None => None,
        }
    }

    /// The sequence number as a mutable projection sees it: every kind
    /// carries one except the genesis kind, whose position is fixed.
    pub open spec fn stored_sequence_number(self) -> Option<u32> {
        match self {
            ActionModel::Dna(_) => None,
            _ => Some(self.sequence_number()),
        }
    }

    /// The same action with its stored sequence number replaced; the
    /// genesis kind stores none and is unchanged.
    pub open spec fn with_sequence_number(self, n: u32) -> ActionModel {
        match self {
            ActionModel::Dna(m) => ActionModel::Dna(m),
            ActionModel::AgentValidationPkg(m) => ActionModel::AgentValidationPkg(
                AgentValidationPkgModel { sequence_number: n, ..m },
            ),
            ActionModel::InitZomesComplete(m) => ActionModel::InitZomesComplete(
                InitZomesCompleteModel { sequence_number: n, ..m },
            ),
            ActionModel::CreateLink(m) => ActionModel::CreateLink(
                CreateLinkModel { sequence_number: n, ..m },
            ),
            ActionModel::DeleteLink(m) => ActionModel::DeleteLink(
                DeleteLinkModel { sequence_number: n, ..m },
            ),
            ActionModel::OpenChain(m) => ActionModel::OpenChain(
                OpenChainModel { sequence_number: n, ..m },
            ),
            ActionModel::CloseChain(m) => ActionModel::CloseChain(
                CloseChainModel { sequence_number: n, ..m },
            ),
            ActionModel::Create(m) => ActionModel::Create(CreateModel { sequence_number: n, ..m }),
            ActionModel::Update(m) => ActionModel::Update(UpdateModel { sequence_number: n, ..m }),
            ActionModel::Delete(m) => ActionModel::Delete(DeleteModel { sequence_number: n, ..m }),
        }
    }
}

// ---------------------------------------------------------------------
// Canonical serialization: a variant tag, then each field in order.
// ---------------------------------------------------------------------

/// The two canonical bytes of an entry type: its kind and its visibility.
pub open spec fn enc_entry_type(et: EntryType) -> Seq<u8> {
    match et {
        EntryType::App(EntryVisibility::Public) => seq![1u8, 1u8],
        EntryType::App(EntryVisibility::Private) => seq![1u8, 2u8],
        EntryType::CapGrant => seq![2u8, 2u8],
    }
}

/// The canonical serialization of an action: the variant tag, then
/// every field, length-prefixed where variable in width.
pub open spec fn canonical_action(a: ActionModel) -> Seq<u8> {
    match a {
        ActionModel::Dna(m) => seq![1u8] + enc_bytes(m.author) + enc_i64(m.timestamp)
            + enc_bytes(m.dna_hash),
        ActionModel::AgentValidationPkg(m) => seq![2u8] + enc_bytes(m.author)
            + enc_i64(m.timestamp) + enc_u32(m.sequence_number) + enc_bytes(m.prev_action_hash),
        ActionModel::InitZomesComplete(m) => seq![3u8] + enc_bytes(m.author)
            + enc_i64(m.timestamp) + enc_u32(m.sequence_number) + enc_bytes(m.prev_action_hash),
        ActionModel::CreateLink(m) => seq![4u8] + enc_bytes(m.author) + enc_i64(m.timestamp)
            + enc_u32(m.sequence_number) + enc_bytes(m.prev_action_hash)
            + enc_bytes(m.base_address) + enc_bytes(m.target_address) + enc_bytes(m.tag),
        ActionModel::DeleteLink(m) => seq![5u8] + enc_bytes(m.author) + enc_i64(m.timestamp)
            + enc_u32(m.sequence_number) + enc_bytes(m.prev_action_hash)
            + enc_bytes(m.base_address) + enc_bytes(m.link_add_address),
        ActionModel::OpenChain(m) => seq![6u8] + enc_bytes(m.author) + enc_i64(m.timestamp)
            + enc_u32(m.sequence_number) + enc_bytes(m.prev_action_hash)
            + enc_bytes(m.prev_dna_hash),
        ActionModel::CloseChain(m) => seq![7u8] + enc_bytes(m.author) + enc_i64(m.timestamp)
            + enc_u32(m.sequence_number) + enc_bytes(m.prev_action_hash)
            + enc_bytes(m.new_dna_hash),
        ActionModel::Create(m) => seq![8u8] + enc_bytes(m.author) + enc_i64(m.timestamp)
            + enc_u32(m.sequence_number) + enc_bytes(m.prev_action_hash)
            + enc_entry_type(m.entry_type) + enc_bytes(m.entry_hash),
        ActionModel::Update(m) => seq![9u8] + enc_bytes(m.author) + enc_i64(m.timestamp)
            + enc_u32(m.sequence_number) + enc_bytes(m.prev_action_hash)
            + enc_bytes(m.original_action_address) + enc_bytes(m.original_entry_address)
            + enc_entry_type(m.entry_type) + enc_bytes(m.entry_hash),
        ActionModel::Delete(m) => seq![10u8] + enc_bytes(m.author) + enc_i64(m.timestamp)
            + enc_u32(m.sequence_number) + enc_bytes(m.prev_action_hash)
            + enc_bytes(m.deletes_address) + enc_bytes(m.deletes_entry_address),
    }
}

// ---------------------------------------------------------------------
// The executable action kinds.
// ---------------------------------------------------------------------

/// A chain-genesis action: the first action of every chain.
#[derive(Debug, PartialEq, Eq)]
pub struct Dna {
    pub author: AgentId,
    pub timestamp: i64,
    pub dna_hash: ContentHash,
}

impl View for Dna {
    type V = DnaModel;

    open spec fn view(&self) -> DnaModel {
        DnaModel { author: self.author@, timestamp: self.timestamp, dna_hash: self.dna_hash@ }
    }
}

impl Clone for Dna {
    fn clone(&self) -> (r: Self)
        ensures
            r@ == self@,
    {
        Dna {
            author: self.author.clone(),
            timestamp: self.timestamp,
            dna_hash: self.dna_hash.clone(),
        }
    }
}

/// An agent-validation marker.
#[derive(Debug, PartialEq, Eq)]
pub struct AgentValidationPkg {
    pub author: AgentId,
    pub timestamp: i64,
    pub sequence_number: u32,
    pub prev_action_hash: ContentHash,
}

impl View for AgentValidationPkg {
    type V = AgentValidationPkgModel;

    open spec fn view(&self) -> AgentValidationPkgModel {
        AgentValidationPkgModel {
            author: self.author@,
            timestamp: self.timestamp,
            sequence_number: self.sequence_number,
            prev_action_hash: self.prev_action_hash@,
        }
    }
}

impl Clone for AgentValidationPkg {
    fn clone(&self) -> (r: Self)
        ensures
            r@ == self@,
    {
        AgentValidationPkg {
            author: self.author.clone(),
            timestamp: self.timestamp,
            sequence_number: self.sequence_number,
            prev_action_hash: self.prev_action_hash.clone(),
        }
    }
}

/// An initialization-complete marker.
#[derive(Debug, PartialEq, Eq)]
pub struct InitZomesComplete {
    pub author: AgentId,
    pub timestamp: i64,
    pub sequence_number: u32,
    pub prev_action_hash: ContentHash,
}

impl View for InitZomesComplete {
    type V = InitZomesCompleteModel;

    open spec fn view(&self) -> InitZomesCompleteModel {
        InitZomesCompleteModel {
            author: self.author@,
            timestamp: self.timestamp,
            sequence_number: self.sequence_number,
            prev_action_hash: self.prev_action_hash@,
        }
    }
}

impl Clone for InitZomesComplete {
    fn clone(&self) -> (r: Self)
        ensures
            r@ == self@,
    {
        InitZomesComplete {
            author: self.author.clone(),
            timestamp: self.timestamp,
            sequence_number: self.sequence_number,
            prev_action_hash: self.prev_action_hash.clone(),
        }
    }
}

/// A link-creating action, from a base address to a target address.
#[derive(Debug, PartialEq, Eq)]
pub struct CreateLink {
    pub author: AgentId,
    pub timestamp: i64,
    pub sequence_number: u32,
    pub prev_action_hash: ContentHash,
    pub base_address: ContentHash,
    pub target_address: ContentHash,
    pub tag: Vec<u8>,
}

impl View for CreateLink {
    type V = CreateLinkModel;

    open spec fn view(&self) -> CreateLinkModel {
        CreateLinkModel {
            author: self.author@,
            timestamp: self.timestamp,
            sequence_number: self.sequence_number,
            prev_action_hash: self.prev_action_hash@,
            base_address: self.base_address@,
            target_address: self.target_address@,
            tag: self.tag@,
        }
    }
}

impl Clone for CreateLink {
    fn clone(&self) -> (r: Self)
        ensures
            r@ == self@,
    {
        CreateLink {
            author: self.author.clone(),
            timestamp: self.timestamp,
            sequence_number: self.sequence_number,
            prev_action_hash: self.prev_action_hash.clone(),
            base_address: self.base_address.clone(),
            target_address: self.target_address.clone(),
            tag: clone_bytes(&self.tag),
        }
    }
}

/// A link-deleting action, naming the link-creating action it undoes.
#[derive(Debug, PartialEq, Eq)]
pub struct DeleteLink {
    pub author: AgentId,
    pub timestamp: i64,
    pub sequence_number: u32,
    pub prev_action_hash: ContentHash,
    pub base_address: ContentHash,
    pub link_add_address: ContentHash,
}

impl View for DeleteLink {
    type V = DeleteLinkModel;

    open spec fn view(&self) -> DeleteLinkModel {
        DeleteLinkModel {
            author: self.author@,
            timestamp: self.timestamp,
            sequence_number: self.sequence_number,
            prev_action_hash: self.prev_action_hash@,
            base_address: self.base_address@,
            link_add_address: self.link_add_address@,
        }
    }
}

impl Clone for DeleteLink {
    fn clone(&self) -> (r: Self)
        ensures
            r@ == self@,
    {
        DeleteLink {
            author: self.author.clone(),
            timestamp: self.timestamp,
            sequence_number: self.sequence_number,
            prev_action_hash: self.prev_action_hash.clone(),
            base_address: self.base_address.clone(),
            link_add_address: self.link_add_address.clone(),
        }
    }
}

/// A chain-open marker, carried when migrating from a previous chain.
#[derive(Debug, PartialEq, Eq)]
pub struct OpenChain {
    pub author: AgentId,
    pub timestamp: i64,
    pub sequence_number: u32,
    pub prev_action_hash: ContentHash,
    pub prev_dna_hash: ContentHash,
}

impl View for OpenChain {
    type V = OpenChainModel;

    open spec fn view(&self) -> OpenChainModel {
        OpenChainModel {
            author: self.author@,
            timestamp: self.timestamp,
            sequence_number: self.sequence_number,
            prev_action_hash: self.prev_action_hash@,
            prev_dna_hash: self.prev_dna_hash@,
        }
    }
}

impl Clone for OpenChain {
    fn clone(&self) -> (r: Self)
        ensures
            r@ == self@,
    {
        OpenChain {
            author: self.author.clone(),
            timestamp: self.timestamp,
            sequence_number: self.sequence_number,
            prev_action_hash: self.prev_action_hash.clone(),
            prev_dna_hash: self.prev_dna_hash.clone(),
        }
    }
}

/// A chain-close marker, pointing at the chain that continues this one.
#[derive(Debug, PartialEq, Eq)]
pub struct CloseChain {
    pub author: AgentId,
    pub timestamp: i64,
    pub sequence_number: u32,
    pub prev_action_hash: ContentHash,
    pub new_dna_hash: ContentHash,
}

impl View for CloseChain {
    type V = CloseChainModel;

    open spec fn view(&self) -> CloseChainModel {
        CloseChainModel {
            author: self.author@,
            timestamp: self.timestamp,
            sequence_number: self.sequence_number,
            prev_action_hash: self.prev_action_hash@,
            new_dna_hash: self.new_dna_hash@,
        }
    }
}

impl Clone for CloseChain {
    fn clone(&self) -> (r: Self)
        ensures
            r@ == self@,
    {
        CloseChain {
            author: self.author.clone(),
            timestamp: self.timestamp,
            sequence_number: self.sequence_number,
            prev_action_hash: self.prev_action_hash.clone(),
            new_dna_hash: self.new_dna_hash.clone(),
        }
    }
}

/// An entry-creating action.
#[derive(Debug, PartialEq, Eq)]
pub struct Create {
    pub author: AgentId,
    pub timestamp: i64,
    pub sequence_number: u32,
    pub prev_action_hash: ContentHash,
    pub entry_type: EntryType,
    pub entry_hash: ContentHash,
}

impl View for Create {
    type V = CreateModel;

    open spec fn view(&self) -> CreateModel {
        CreateModel {
            author: self.author@,
            timestamp: self.timestamp,
            sequence_number: self.sequence_number,
            prev_action_hash: self.prev_action_hash@,
            entry_type: self.entry_type,
            entry_hash: self.entry_hash@,
        }
    }
}

impl Clone for Create {
    fn clone(&self) -> (r: Self)
        ensures
            r@ == self@,
    {
        Create {
            author: self.author.clone(),
            timestamp: self.timestamp,
            sequence_number: self.sequence_number,
            prev_action_hash: self.prev_action_hash.clone(),
            entry_type: self.entry_type,
            entry_hash: self.entry_hash.clone(),
        }
    }
}

/// An entry-updating action, naming the action and entry it replaces.
#[derive(Debug, PartialEq, Eq)]
pub struct Update {
    pub author: AgentId,
    pub timestamp: i64,
    pub sequence_number: u32,
    pub prev_action_hash: ContentHash,
    pub original_action_address: ContentHash,
    pub original_entry_address: ContentHash,
    pub entry_type: EntryType,
    pub entry_hash: ContentHash,
}

impl View for Update {
    type V = UpdateModel;

    open spec fn view(&self) -> UpdateModel {
        UpdateModel {
            author: self.author@,
            timestamp: self.timestamp,
            sequence_number: self.sequence_number,
            prev_action_hash: self.prev_action_hash@,
            original_action_address: self.original_action_address@,
            original_entry_address: self.original_entry_address@,
            entry_type: self.entry_type,
            entry_hash: self.entry_hash@,
        }
    }
}

impl Clone for Update {
    fn clone(&self) -> (r: Self)
        ensures
            r@ == self@,
    {
        Update {
            author: self.author.clone(),
            timestamp: self.timestamp,
            sequence_number: self.sequence_number,
            prev_action_hash: self.prev_action_hash.clone(),
            original_action_address: self.original_action_address.clone(),
            original_entry_address: self.original_entry_address.clone(),
            entry_type: self.entry_type,
            entry_hash: self.entry_hash.clone(),
        }
    }
}

/// An entry-deleting action, naming the action and entry it deletes.
#[derive(Debug, PartialEq, Eq)]
pub struct Delete {
    pub author: AgentId,
    pub timestamp: i64,
    pub sequence_number: u32,
    pub prev_action_hash: ContentHash,
    pub deletes_address: ContentHash,
    pub deletes_entry_address: ContentHash,
}

impl View for Delete {
    type V = DeleteModel;

    open spec fn view(&self) -> DeleteModel {
        DeleteModel {
            author: self.author@,
            timestamp: self.timestamp,
            sequence_number: self.sequence_number,
            prev_action_hash: self.prev_action_hash@,
            deletes_address: self.deletes_address@,
            deletes_entry_address: self.deletes_entry_address@,
        }
    }
}

impl Clone for Delete {
    fn clone(&self) -> (r: Self)
        ensures
            r@ == self@,
    {
        Delete {
            author: self.author.clone(),
            timestamp: self.timestamp,
            sequence_number: self.sequence_number,
            prev_action_hash: self.prev_action_hash.clone(),
            deletes_address: self.deletes_address.clone(),
            deletes_entry_address: self.deletes_entry_address.clone(),
        }
    }
}

/// One append-only record in an agent's local chain.
#[derive(Debug, PartialEq, Eq)]
pub enum Action {
    Dna(Dna),
    AgentValidationPkg(AgentValidationPkg),
    InitZomesComplete(InitZomesComplete),
    CreateLink(CreateLink),
    DeleteLink(DeleteLink),
    OpenChain(OpenChain),
    CloseChain(CloseChain),
    Create(Create),
    Update(Update),
    Delete(Delete),
}

impl View for Action {
    type V = ActionModel;

    open spec fn view(&self) -> ActionModel {
        match *self {
            Action::Dna(ref a) => ActionModel::Dna(a@),
            Action::AgentValidationPkg(ref a) => ActionModel::AgentValidationPkg(a@),
            Action::InitZomesComplete(ref a) => ActionModel::InitZomesComplete(a@),
            Action::CreateLink(ref a) => ActionModel::CreateLink(a@),
            Action::DeleteLink(ref a) => ActionModel::DeleteLink(a@),
            Action::OpenChain(ref a) => ActionModel::OpenChain(a@),
            Action::CloseChain(ref a) => ActionModel::CloseChain(a@),
            Action::Create(ref a) => ActionModel::Create(a@),
            Action::Update(ref a) => ActionModel::Update(a@),
            Action::Delete(ref a) => ActionModel::Delete(a@),
        }
    }
}

impl Clone for Action {
    fn clone(&self) -> (r: Self)
        ensures
            r@ == self@,
    {
        match *self {
            Action::Dna(ref a) => Action::Dna(a.clone()),
            Action::AgentValidationPkg(ref a) => Action::AgentValidationPkg(a.clone()),
            Action::InitZomesComplete(ref a) => Action::InitZomesComplete(a.clone()),
            Action::CreateLink(ref a) => Action::CreateLink(a.clone()),
            Action::DeleteLink(ref a) => Action::DeleteLink(a.clone()),
            Action::OpenChain(ref a) => Action::OpenChain(a.clone()),
            Action::CloseChain(ref a) => Action::CloseChain(a.clone()),
            Action::Create(ref a) => Action::Create(a.clone()),
            Action::Update(ref a) => Action::Update(a.clone()),
            Action::Delete(ref a) => Action::Delete(a.clone()),
        }
    }
}

impl Action {
    /// The position this action claims on its chain.
    pub fn sequence_number(&self) -> (r: u32)
        ensures
            r == self@.sequence_number(),
    {
        match *self {
            Action::Dna(_) => 0,
            Action::AgentValidationPkg(ref a) => a.sequence_number,
            Action::InitZomesComplete(ref a) => a.sequence_number,
            Action::CreateLink(ref a) => a.sequence_number,
            Action::DeleteLink(ref a) => a.sequence_number,
            Action::OpenChain(ref a) => a.sequence_number,
            Action::CloseChain(ref a) => a.sequence_number,
            Action::Create(ref a) => a.sequence_number,
            Action::Update(ref a) => a.sequence_number,
            Action::Delete(ref a) => a.sequence_number,
        }
    }

    /// The hash of the preceding action; the genesis action has none.
    pub fn prev_action_hash(&self) -> (r: Option<&ContentHash>)
        ensures
            match r {
                Some(h) => self@.prev_action_hash() == Some(h@),
                None => self@.prev_action_hash() is None,
            },
    {
        match *self {
            Action::Dna(_) => None,
            Action::AgentValidationPkg(ref a) => Some(&a.prev_action_hash),
            Action::InitZomesComplete(ref a) => Some(&a.prev_action_hash),
            Action::CreateLink(ref a) => Some(&a.prev_action_hash),
            Action::DeleteLink(ref a) => Some(&a.prev_action_hash),
            Action::OpenChain(ref a) => Some(&a.prev_action_hash),
            Action::CloseChain(ref a) => Some(&a.prev_action_hash),
            Action::Create(ref a) => Some(&a.prev_action_hash),
            Action::Update(ref a) => Some(&a.prev_action_hash),
            Action::Delete(ref a) => Some(&a.prev_action_hash),
        }
    }

    /// The identity of the authoring agent.
    pub fn author(&self) -> (r: &AgentId)
        ensures
            r@ == self@.author(),
    {
        match *self {
            Action::Dna(ref a) => &a.author,
            Action::AgentValidationPkg(ref a) => &a.author,
            Action::InitZomesComplete(ref a) => &a.author,
            Action::CreateLink(ref a) => &a.author,
            Action::DeleteLink(ref a) => &a.author,
            Action::OpenChain(ref a) => &a.author,
            Action::CloseChain(ref a) => &a.author,
            Action::Create(ref a) => &a.author,
            Action::Update(ref a) => &a.author,
            Action::Delete(ref a) => &a.author,
        }
    }

    /// The entry reference this action carries, if its kind carries one.
    pub fn entry_data(&self) -> (r: Option<(&ContentHash, EntryType)>)
        ensures
            match r {
                Some((h, et)) => self@.entry_data() == Some((h@, et)),
                None => self@.entry_data() is None,
            },
    {
        match *self {
            Action::Create(ref a) => Some((&a.entry_hash, a.entry_type)),
            Action::Update(ref a) => Some((&a.entry_hash, a.entry_type)),
            _ => None,
        }
    }

    /// The mutable sequence-number field of this action, for the kinds
    /// that store one; the genesis kind stores none. Meant for fixture
    /// construction: mutating a hashed or signed action makes its hash
    /// and signature mismatch.
    pub fn header_seq_mut(&mut self) -> (r: Option<&mut u32>)
        ensures
            match r {
                Some(seq) => old(self)@.stored_sequence_number() == Some(*seq)
                    && final(self)@ == old(self)@.with_sequence_number(*final(seq)),
                None => old(self)@.stored_sequence_number() is None
                    && *final(self) == *old(self),
            },
    {
        match self {
            Action::Dna(_) => None,
            Action::AgentValidationPkg(ref mut a) => Some(&mut a.sequence_number),
            Action::InitZomesComplete(ref mut a) => Some(&mut a.sequence_number),
            Action::CreateLink(ref mut a) => Some(&mut a.sequence_number),
            Action::DeleteLink(ref mut a) => Some(&mut a.sequence_number),
            Action::OpenChain(ref mut a) => Some(&mut a.sequence_number),
            Action::CloseChain(ref mut a) => Some(&mut a.sequence_number),
            Action::Create(ref mut a) => Some(&mut a.sequence_number),
            Action::Update(ref mut a) => Some(&mut a.sequence_number),
            Action::Delete(ref mut a) => Some(&mut a.sequence_number),
        }
    }

    /// Whether this is the chain-genesis kind.
    pub fn is_genesis(&self) -> (r: bool)
        ensures
            r == (self@ is Dna),
    {
        match *self {
            Action::Dna(_) => true,
            _ => false,
        }
    }
}

impl HashableContent for Action {
    open spec fn canonical(&self) -> Seq<u8> {
        canonical_action(self@)
    }

    fn canonical_bytes(&self) -> (r: Vec<u8>)
        ensures
            r@ == self.canonical(),
    {
        let mut buf: Vec<u8> = Vec::new();
        match *self {
            Action::Dna(ref m) => {
                buf.push(1u8);
                push_bytes(&mut buf, &m.author.bytes);
                push_i64(&mut buf, m.timestamp);
                push_bytes(&mut buf, &m.dna_hash.bytes);
            }
            Action::AgentValidationPkg(ref m) => {
                buf.push(2u8);
                push_bytes(&mut buf, &m.author.bytes);
                push_i64(&mut buf, m.timestamp);
                push_u32(&mut buf, m.sequence_number);
                push_bytes(&mut buf, &m.prev_action_hash.bytes);
            }
            Action::InitZomesComplete(ref m) => {
                buf.push(3u8);
                push_bytes(&mut buf, &m.author.bytes);
                push_i64(&mut buf, m.timestamp);
                push_u32(&mut buf, m.sequence_number);
                push_bytes(&mut buf, &m.prev_action_hash.bytes);
            }
            Action::CreateLink(ref m) => {
                buf.push(4u8);
                push_bytes(&mut buf, &m.author.bytes);
                push_i64(&mut buf, m.timestamp);
                push_u32(&mut buf, m.sequence_number);
                push_bytes(&mut buf, &m.prev_action_hash.bytes);
                push_bytes(&mut buf, &m.base_address.bytes);
                push_bytes(&mut buf, &m.target_address.bytes);
                push_bytes(&mut buf, &m.tag);
            }
            Action::DeleteLink(ref m) => {
                buf.push(5u8);
                push_bytes(&mut buf, &m.author.bytes);
                push_i64(&mut buf, m.timestamp);
                push_u32(&mut buf, m.sequence_number);
                push_bytes(&mut buf, &m.prev_action_hash.bytes);
                push_bytes(&mut buf, &m.base_address.bytes);
                push_bytes(&mut buf, &m.link_add_address.bytes);
            }
            Action::OpenChain(ref m) => {
                buf.push(6u8);
                push_bytes(&mut buf, &m.author.bytes);
                push_i64(&mut buf, m.timestamp);
                push_u32(&mut buf, m.sequence_number);
                push_bytes(&mut buf, &m.prev_action_hash.bytes);
                push_bytes(&mut buf, &m.prev_dna_hash.bytes);
            }
            Action::CloseChain(ref m) => {
                buf.push(7u8);
                push_bytes(&mut buf, &m.author.bytes);
                push_i64(&mut buf, m.timestamp);
                push_u32(&mut buf, m.sequence_number);
                push_bytes(&mut buf, &m.prev_action_hash.bytes);
                push_bytes(&mut buf, &m.new_dna_hash.bytes);
            }
            Action::Create(ref m) => {
                buf.push(8u8);
                push_bytes(&mut buf, &m.author.bytes);
                push_i64(&mut buf, m.timestamp);
                push_u32(&mut buf, m.sequence_number);
                push_bytes(&mut buf, &m.prev_action_hash.bytes);
                push_entry_type(&mut buf, m.entry_type);
                push_bytes(&mut buf, &m.entry_hash.bytes);
            }
            Action::Update(ref m) => {
                buf.push(9u8);
                push_bytes(&mut buf, &m.author.bytes);
                push_i64(&mut buf, m.timestamp);
                push_u32(&mut buf, m.sequence_number);
                push_bytes(&mut buf, &m.prev_action_hash.bytes);
                push_bytes(&mut buf, &m.original_action_address.bytes);
                push_bytes(&mut buf, &m.original_entry_address.bytes);
                push_entry_type(&mut buf, m.entry_type);
                push_bytes(&mut buf, &m.entry_hash.bytes);
            }
            Action::Delete(ref m) => {
                buf.push(10u8);
                push_bytes(&mut buf, &m.author.bytes);
                push_i64(&mut buf, m.timestamp);
                push_u32(&mut buf, m.sequence_number);
                push_bytes(&mut buf, &m.prev_action_hash.bytes);
                push_bytes(&mut buf, &m.deletes_address.bytes);
                push_bytes(&mut buf, &m.deletes_entry_address.bytes);
            }
        }
        assert(buf@ =~= self.canonical());
        buf
    }
}

/// Appends the two canonical bytes of an entry type to `buf`.
fn push_entry_type(buf: &mut Vec<u8>, et: EntryType)
    ensures
        final(buf)@ == old(buf)@ + enc_entry_type(et),
{
    match et {
        EntryType::App(EntryVisibility::Public) => {
            buf.push(1u8);
            buf.push(1u8);
        }
        EntryType::App(EntryVisibility::Private) => {
            buf.push(1u8);
            buf.push(2u8);
        }
        EntryType::CapGrant => {
            buf.push(2u8);
            buf.push(2u8);
        }
    }
    assert(buf@ =~= old(buf)@ + enc_entry_type(et));
}

// ---------------------------------------------------------------------
// The entry-creating subset, shared by the store-entry operation.
// ---------------------------------------------------------------------

/// The value of an entry-creating action, over both of its kinds.
pub enum NewEntryHeaderModel {
    Create(CreateModel),
    Update(UpdateModel),
}

impl NewEntryHeaderModel {
    /// The position this action claims on its chain.
    pub open spec fn sequence_number(self) -> u32 {
        match self {
            NewEntryHeaderModel::Create(c) => c.sequence_number,
            NewEntryHeaderModel::Update(u) => u.sequence_number,
        }
    }

    /// The same action with its position replaced.
    pub open spec fn with_sequence_number(self, n: u32) -> NewEntryHeaderModel {
        match self {
            NewEntryHeaderModel::Create(c) => NewEntryHeaderModel::Create(
                CreateModel { sequence_number: n, ..c },
            ),
            NewEntryHeaderModel::Update(u) => NewEntryHeaderModel::Update(
                UpdateModel { sequence_number: n, ..u },
            ),
        }
    }

    /// This action seen as a full action again.
    pub open spec fn as_action(self) -> ActionModel {
        match self {
            NewEntryHeaderModel::Create(c) => ActionModel::Create(c),
            NewEntryHeaderModel::Update(u) => ActionModel::Update(u),
        }
    }
}

/// The subset of actions that create an entry: the kinds whose record
/// can carry entry data, and the kinds the store-entry operation wraps.
#[derive(Debug, PartialEq, Eq)]
pub enum NewEntryHeader {
    Create(Create),
    Update(Update),
}

impl View for NewEntryHeader {
    type V = NewEntryHeaderModel;

    open spec fn view(&self) -> NewEntryHeaderModel {
        match *self {
            NewEntryHeader::Create(ref c) => NewEntryHeaderModel::Create(c@),
            NewEntryHeader::Update(ref u) => NewEntryHeaderModel::Update(u@),
        }
    }
}

impl Clone for NewEntryHeader {
    fn clone(&self) -> (r: Self)
        ensures
            r@ == self@,
    {
        match *self {
            NewEntryHeader::Create(ref c) => NewEntryHeader::Create(c.clone()),
            NewEntryHeader::Update(ref u) => NewEntryHeader::Update(u.clone()),
        }
    }
}

impl NewEntryHeader {
    /// The mutable sequence-number field of the action. Every
    /// entry-creating kind carries one, so the reference is never
    /// absent. Meant for fixture construction: mutating a hashed or
    /// signed action makes its hash and signature mismatch.
    pub fn header_seq_mut(&mut self) -> (seq: &mut u32)
        ensures
            *seq == old(self)@.sequence_number(),
            final(self)@ == old(self)@.with_sequence_number(*final(seq)),
    {
        match self {
            NewEntryHeader::Create(ref mut c) => &mut c.sequence_number,
            NewEntryHeader::Update(ref mut u) => &mut u.sequence_number,
        }
    }

    /// This action seen as a full action again. The canonical
    /// serialization, and so the hash, is unchanged.
    pub fn into_action(self) -> (a: Action)
        ensures
            a@ == self@.as_action(),
            a.canonical() == canonical_action(self@.as_action()),
    {
        match self {
            NewEntryHeader::Create(c) => Action::Create(c),
            NewEntryHeader::Update(u) => Action::Update(u),
        }
    }
}

impl HashableContent for NewEntryHeader {
    open spec fn canonical(&self) -> Seq<u8> {
        canonical_action(self@.as_action())
    }

    fn canonical_bytes(&self) -> (r: Vec<u8>)
        ensures
            r@ == self.canonical(),
    {
        match *self {
            NewEntryHeader::Create(ref c) => {
                let a = Action::Create(c.clone());
                a.canonical_bytes()
            }
            NewEntryHeader::Update(ref u) => {
                let a = Action::Update(u.clone());
                a.canonical_bytes()
            }
        }
    }
}

} // verus!
