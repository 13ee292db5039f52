//! Elements: a signed, hashed action paired with its entry data, or with
//! the reason the entry is absent, and the redaction rule that keeps
//! private entries from crossing a trust boundary.

use vstd::prelude::*;
use crate::action::{Action, ActionModel, CreateLink, DeleteLink, NewEntryHeader};
use crate::codec::clone_bytes;
use crate::entry::{CapGrantEntry, Entry, EntryModel, EntryVisibility, Signature};
use crate::hash::{ContentHash, HashableContent, HashedContent};

verus! {

/// The value of signed-and-hashed content.
pub struct SignedHashedModel<C> {
    pub content: C,
    pub hash: Seq<u8>,
    pub signature: Seq<u8>,
}

/// Any content that has been hashed and signed. Immutable once built:
/// every transformation preserves the signature bytes losslessly.
#[derive(Debug, PartialEq, Eq)]
pub struct SignedHashed<T: HashableContent> {
    /// The hashed content.
    pub hashed: HashedContent<T>,
    /// The signature over the content's hash.
    pub signature: Signature,
}

impl<T: HashableContent + View> View for SignedHashed<T> {
    type V = SignedHashedModel<<T as View>::V>;

    open spec fn view(&self) -> SignedHashedModel<<T as View>::V> {
        SignedHashedModel {
            content: self.hashed.content@,
            hash: self.hashed.hash@,
            signature: self.signature@,
        }
    }
}

impl<T: HashableContent> SignedHashed<T> {
    /// The stored hash is in fact the hash of the stored content.
    pub open spec fn wf(&self) -> bool {
        self.hashed.wf()
    }

    /// Hashes `content` and binds it to an already-made signature.
    pub fn new(content: T, signature: Signature) -> (r: Self)
        ensures
            r.hashed.content == content,
            r.signature == signature,
            r.wf(),
    {
        SignedHashed { hashed: HashedContent::new(content), signature }
    }

    /// Wraps content that was hashed earlier, with its signature.
    pub fn with_presigned(hashed: HashedContent<T>, signature: Signature) -> (r: Self)
        ensures
            r.hashed == hashed,
            r.signature == signature,
    {
        SignedHashed { hashed, signature }
    }

    /// Breaks this wrapper into its hashed content and its signature.
    pub fn into_inner(self) -> (r: (HashedContent<T>, Signature))
        ensures
            r.0 == self.hashed,
            r.1 == self.signature,
    {
        (self.hashed, self.signature)
    }

    /// The already-calculated hash stored in this wrapper.
    pub fn as_hash(&self) -> (r: &ContentHash)
        ensures
            r == &self.hashed.hash,
    {
        &self.hashed.hash
    }

    /// The signature portion.
    pub fn signature(&self) -> (r: &Signature)
        ensures
            r == &self.signature,
    {
        &self.signature
    }
}

/// The hashed action and the signature that signed it.
pub type SignedActionHashed = SignedHashed<Action>;

impl Clone for HashedContent<Action> {
    fn clone(&self) -> (r: Self)
        ensures
            r.content@ == self.content@,
            r.hash@ == self.hash@,
            self.wf() ==> r.wf(),
    {
        HashedContent { content: self.content.clone(), hash: self.hash.clone() }
    }
}

impl Clone for SignedHashed<Action> {
    fn clone(&self) -> (r: Self)
        ensures
            r@ == self@,
            self.wf() ==> r.wf(),
    {
        SignedHashed { hashed: self.hashed.clone(), signature: self.signature.clone() }
    }
}

impl SignedHashed<Action> {
    /// The action's hash: its address on the DHT.
    pub fn action_address(&self) -> (r: &ContentHash)
        ensures
            r == &self.hashed.hash,
    {
        &self.hashed.hash
    }

    /// The action portion.
    pub fn action(&self) -> (r: &Action)
        ensures
            r == &self.hashed.content,
    {
        &self.hashed.content
    }

    /// Re-wraps a signed, hashed entry-creating action as a signed,
    /// hashed action. The canonical serialization is unchanged by the
    /// widening, so the stored hash still belongs to the content.
    pub fn raw_from_same_hash(other: SignedHashed<NewEntryHeader>) -> (r: Self)
        requires
            other.wf(),
        ensures
            r@.content == other@.content.as_action(),
            r@.hash == other@.hash,
            r@.signature == other@.signature,
            r.wf(),
    {
        let (hashed, signature) = other.into_inner();
        let hash_copy = hashed.hash.clone();
        let action = hashed.into_content().into_action();
        let rehashed = HashedContent::with_pre_hashed(action, ContentHash::from_raw(
            hash_copy.bytes,
        ));
        SignedHashed { hashed: rehashed, signature }
    }
}

/// The ways the entry reference within an action can be interpreted
/// when the action is paired into an element.
#[derive(Debug, PartialEq, Eq)]
pub enum ElementEntry {
    /// The action references an entry, and the entry is here.
    Present(Entry),
    /// The action references a private entry, excluded from this view.
    Hidden,
    /// The action's kind carries no entry reference.
    NotApplicable,
    /// The action references a public entry that was stored without it.
    NotStored,
}

/// The value of an element's entry portion.
pub enum ElementEntryModel {
    Present(EntryModel),
    Hidden,
    NotApplicable,
    NotStored,
}

impl View for ElementEntry {
    type V = ElementEntryModel;

    open spec fn view(&self) -> ElementEntryModel {
        match *self {
            ElementEntry::Present(ref e) => ElementEntryModel::Present(e@),
            ElementEntry::Hidden => ElementEntryModel::Hidden,
            ElementEntry::NotApplicable => ElementEntryModel::NotApplicable,
            ElementEntry::NotStored => ElementEntryModel::NotStored,
        }
    }
}

impl Clone for ElementEntry {
    fn clone(&self) -> (r: Self)
        ensures
            r@ == self@,
    {
        match *self {
            ElementEntry::Present(ref e) => ElementEntry::Present(e.clone()),
            ElementEntry::Hidden => ElementEntry::Hidden,
            ElementEntry::NotApplicable => ElementEntry::NotApplicable,
            ElementEntry::NotStored => ElementEntry::NotStored,
        }
    }
}

impl ElementEntry {
    /// The entry data by reference, if it is here.
    pub fn as_option(&self) -> (r: Option<&Entry>)
        ensures
            match r {
                Some(e) => self@ == ElementEntryModel::Present(e@),
                None => !(self@ is Present),
            },
    {
        match *self {
            ElementEntry::Present(ref entry) => Some(entry),
            _ => None,
        }
    }

    /// The entry data as an owned value, if it is here.
    pub fn into_option(self) -> (r: Option<Entry>)
        ensures
            match r {
                Some(e) => self@ == ElementEntryModel::Present(e@),
                None => !(self@ is Present),
            },
    {
        match self {
            ElementEntry::Present(entry) => Some(entry),
            _ => None,
        }
    }

    /// The application payload, if the entry is here and is one;
    /// anything else gives nothing.
    pub fn to_app_option(&self) -> (r: Option<Vec<u8>>)
        ensures
            match r {
                Some(b) => self@ == ElementEntryModel::Present(EntryModel::App(b@)),
                None => forall|b: Seq<u8>|
                    self@ != ElementEntryModel::Present(EntryModel::App(b)),
            },
    {
        match *self {
            ElementEntry::Present(Entry::App(ref b)) => Some(clone_bytes(b)),
            _ => None,
        }
    }

    /// The capability grant, if the entry is here and is one;
    /// anything else gives nothing.
    pub fn to_grant_option(&self) -> (r: Option<CapGrantEntry>)
        ensures
            match r {
                Some(g) => self@ == ElementEntryModel::Present(EntryModel::CapGrant(g@)),
                None => forall|t: Seq<u8>|
                    self@ != ElementEntryModel::Present(EntryModel::CapGrant(t)),
            },
    {
        match *self {
            ElementEntry::Present(Entry::CapGrant(ref g)) => Some(g.clone()),
            _ => None,
        }
    }
}

/// The value of an element.
pub struct ElementModel {
    pub signed_action: SignedHashedModel<ActionModel>,
    pub entry: ElementEntryModel,
}

/// The entry portion an element gets, given its action and the entry
/// that was supplied: present only when an entry was supplied and the
/// action expects one; hidden when a private entry was expected and
/// none supplied; not stored when a public one was withheld; not
/// applicable when the action's kind carries no entry reference.
pub open spec fn element_entry_of(
    action: ActionModel,
    maybe_entry: Option<EntryModel>,
) -> ElementEntryModel {
    match (maybe_entry, action.entry_visibility()) {
        (Some(e), Some(_)) => ElementEntryModel::Present(e),
        (None, Some(EntryVisibility::Private)) => ElementEntryModel::Hidden,
        (None, Some(EntryVisibility::Public)) => ElementEntryModel::NotStored,
        (None, None) => ElementEntryModel::NotApplicable,
        (Some(_), None) => ElementEntryModel::NotApplicable,
    }
}

/// A record as privatized: an entry that is present for a
/// private-visibility action is forcibly hidden; everything else is
/// untouched.
pub open spec fn privatized_model(e: ElementModel) -> ElementModel {
    if e.signed_action.content.entry_visibility() == Some(EntryVisibility::Private) {
        match e.entry {
            ElementEntryModel::Present(_) => ElementModel {
                signed_action: e.signed_action,
                entry: ElementEntryModel::Hidden,
            },
            _ => e,
        }
    } else {
        e
    }
}

/// Redaction is idempotent: privatizing an element twice gives exactly
/// what privatizing it once gives.
pub proof fn lemma_privatized_idempotent(e: ElementModel)
    ensures
        privatized_model(privatized_model(e)) == privatized_model(e),
{
}

/// A chain element: the signed action along with its entry data, when
/// the action's kind has any.
#[derive(Debug, PartialEq, Eq)]
pub struct Element {
    /// The signed action for this element.
    pub signed_action: SignedActionHashed,
    /// The entry, or the reason it is absent.
    pub entry: ElementEntry,
}

impl View for Element {
    type V = ElementModel;

    open spec fn view(&self) -> ElementModel {
        ElementModel { signed_action: self.signed_action@, entry: self.entry@ }
    }
}

impl Clone for Element {
    fn clone(&self) -> (r: Self)
        ensures
            r@ == self@,
    {
        Element { signed_action: self.signed_action.clone(), entry: self.entry.clone() }
    }
}

impl Element {
    /// The stored action hash is in fact the hash of the action.
    pub open spec fn wf(&self) -> bool {
        self.signed_action.wf()
    }

    /// Pairs a signed action with the entry that was supplied for it.
    /// Supplying an entry for an action kind that expects none is a
    /// caller bug, not a data error, and is excluded outright.
    pub fn new(signed_action: SignedActionHashed, maybe_entry: Option<Entry>) -> (r: Self)
        requires
            maybe_entry is Some ==> signed_action@.content.entry_data() is Some,
        ensures
            r.signed_action == signed_action,
            signed_action.wf() ==> r.wf(),
            r@.entry == element_entry_of(
                signed_action@.content,
                match maybe_entry {
                    Some(e) => Some(e@),
                    None => None,
                },
            ),
    {
        let has_entry_data = signed_action.action().entry_data().is_some();
        let entry = match (maybe_entry, has_entry_data) {
            (Some(entry), true) => ElementEntry::Present(entry),
            (None, true) => {
                let vis = match signed_action.action().entry_data() {
                    Some((_h, et)) => et.visibility(),
                    None => EntryVisibility::Public,
                };
                match vis {
                    EntryVisibility::Private => ElementEntry::Hidden,
                    EntryVisibility::Public => ElementEntry::NotStored,
                }
            }
            (None, false) => ElementEntry::NotApplicable,
            (Some(_), false) => ElementEntry::NotApplicable,
        };
        Element { signed_action, entry }
    }

    /// Hides any present entry whose action marks it private, so that
    /// it cannot leak across a trust boundary. One-way: nothing restores
    /// a hidden entry.
    pub fn privatized(self) -> (r: Self)
        ensures
            r@ == privatized_model(self@),
            r.signed_action == self.signed_action,
            self.wf() ==> r.wf(),
    {
        let is_private = match self.signed_action.action().entry_data() {
            Some((_h, et)) => match et.visibility() {
                EntryVisibility::Private => true,
                EntryVisibility::Public => false,
            },
            None => false,
        };
        let entry = if is_private {
            match self.entry {
                ElementEntry::Present(_) => ElementEntry::Hidden,
                other => other,
            }
        } else {
            self.entry
        };
        Element { signed_action: self.signed_action, entry }
    }

    /// Mutable reference to the action. Useless and dangerous in
    /// production use: whatever the action is mutated to, the stored
    /// hash and signature then mismatch it. Meant for tests that lean
    /// on fixture data.
    pub fn as_action_mut(&mut self) -> (r: &mut Action)
        ensures
            *r == old(self).signed_action.hashed.content,
            final(self).signed_action.hashed.content == *final(r),
            final(self).signed_action.hashed.hash == old(self).signed_action.hashed.hash,
            final(self).signed_action.signature == old(self).signed_action.signature,
            final(self).entry == old(self).entry,
    {
        &mut self.signed_action.hashed.content
    }

    /// Mutable reference to the entry portion. Useless and dangerous in
    /// production use, exactly as the mutable action accessor is.
    pub fn as_entry_mut(&mut self) -> (r: &mut ElementEntry)
        ensures
            *r == old(self).entry,
            final(self).entry == *final(r),
            final(self).signed_action == old(self).signed_action,
    {
        &mut self.entry
    }

    /// Breaks this element into its components.
    pub fn into_inner(self) -> (r: (SignedActionHashed, ElementEntry))
        ensures
            r.0 == self.signed_action,
            r.1 == self.entry,
    {
        (self.signed_action, self.entry)
    }

    /// The inner signed action.
    pub fn signed_action(&self) -> (r: &SignedActionHashed)
        ensures
            r == &self.signed_action,
    {
        &self.signed_action
    }

    /// The signature from this element's signed action.
    pub fn signature(&self) -> (r: &Signature)
        ensures
            r == &self.signed_action.signature,
    {
        self.signed_action.signature()
    }

    /// The action hash from this element's signed action.
    pub fn action_address(&self) -> (r: &ContentHash)
        ensures
            r == &self.signed_action.hashed.hash,
    {
        self.signed_action.action_address()
    }

    /// The action from this element's signed action.
    pub fn action(&self) -> (r: &Action)
        ensures
            r == &self.signed_action.hashed.content,
    {
        self.signed_action.action()
    }

    /// The hashed action portion.
    pub fn action_hashed(&self) -> (r: &HashedContent<Action>)
        ensures
            r == &self.signed_action.hashed,
    {
        &self.signed_action.hashed
    }

    /// The entry portion, with the context around its presence or
    /// absence.
    pub fn entry(&self) -> (r: &ElementEntry)
        ensures
            r == &self.entry,
    {
        &self.entry
    }
}

/// The element wraps some other kind of action than the conversion
/// asked for.
#[derive(Debug, Clone, Copy, PartialEq, Eq)]
pub struct WrongActionError;

impl CreateLink {
    /// The link-creating action inside an element, if that is the kind
    /// the element wraps.
    pub fn try_from_element(value: Element) -> (r: Result<CreateLink, WrongActionError>)
        ensures
            match r {
                Ok(c) => value@.signed_action.content == ActionModel::CreateLink(c@),
                Err(_) => !(value@.signed_action.content is CreateLink),
            },
    {
        match value.into_inner().0.into_inner().0.into_content() {
            Action::CreateLink(c) => Ok(c),
            _ => Err(WrongActionError),
        }
    }
}

impl DeleteLink {
    /// The link-deleting action inside an element, if that is the kind
    /// the element wraps.
    pub fn try_from_element(value: Element) -> (r: Result<DeleteLink, WrongActionError>)
        ensures
            match r {
                Ok(d) => value@.signed_action.content == ActionModel::DeleteLink(d@),
                Err(_) => !(value@.signed_action.content is DeleteLink),
            },
    {
        match value.into_inner().0.into_inner().0.into_content() {
            Action::DeleteLink(d) => Ok(d),
            _ => Err(WrongActionError),
        }
    }
}

} // verus!
