//! The local chain: an append-only, hash-linked sequence of signed
//! actions whose sequence numbers are exactly consecutive from zero.
//! An extension that would break either rule fails before the new
//! action is hashed or signed.

use vstd::prelude::*;
use crate::action::{Action, ActionModel, canonical_action};
use crate::element::{SignedActionHashed, SignedHashed, SignedHashedModel};
use crate::entry::Signature;
use crate::hash::hash_of;

verus! {

/// A broken sequence or hash link: never recoverable locally, always
/// surfaced to the caller, and always raised before anything is hashed,
/// signed or stored.
#[derive(Debug, Clone, Copy, PartialEq, Eq, Structural)]
pub enum ChainIntegrityError {
    /// The first action of a chain must be the genesis kind.
    MissingGenesis,
    /// A genesis action cannot extend a non-empty chain.
    UnexpectedGenesis,
    /// The appended action does not claim the next position.
    SequenceMismatch,
    /// The appended action does not back-reference the hash of the
    /// last action.
    PrevHashMismatch,
}

/// The chain invariant: the first action is the genesis kind and only
/// it; every stored hash is the hash of its action; sequence numbers
/// are exactly the positions; and every action after the first
/// back-references the hash of its immediate predecessor.
pub open spec fn chain_wf(c: Seq<SignedHashedModel<ActionModel>>) -> bool {
    &&& c.len() <= 0x100000000
    &&& forall|i: int| #![trigger c[i]]
        0 <= i < c.len() ==> {
            &&& c[i].hash == hash_of(canonical_action(c[i].content))
            &&& c[i].content.sequence_number() == i as u32
            &&& (c[i].content is Dna <==> i == 0)
        }
    &&& forall|i: int| #![trigger c[i]]
        1 <= i < c.len() ==> c[i].content.prev_action_hash() == Some(c[i - 1].hash)
}

/// Whether `a` may extend the chain `c`: an empty chain takes exactly a
/// genesis action; a non-empty chain takes a non-genesis action that
/// claims the next position and back-references the last stored hash.
pub open spec fn can_extend(c: Seq<SignedHashedModel<ActionModel>>, a: ActionModel) -> bool {
    if c.len() == 0 {
        a is Dna
    } else {
        &&& !(a is Dna)
        &&& a.sequence_number() == c.len()
        &&& a.prev_action_hash() == Some(c.last().hash)
    }
}

/// Which integrity violation a rejected extension is reported as, in
/// the order the checks run.
pub open spec fn extend_error(
    c: Seq<SignedHashedModel<ActionModel>>,
    a: ActionModel,
) -> ChainIntegrityError {
    if c.len() == 0 {
        ChainIntegrityError::MissingGenesis
    } else if a is Dna {
        ChainIntegrityError::UnexpectedGenesis
    } else if a.sequence_number() != c.len() {
        ChainIntegrityError::SequenceMismatch
    } else {
        ChainIntegrityError::PrevHashMismatch
    }
}

/// One agent's private, append-only, hash-linked chain of signed
/// actions.
#[derive(Debug)]
pub struct Chain {
    elements: Vec<SignedActionHashed>,
}

impl View for Chain {
    type V = Seq<SignedHashedModel<ActionModel>>;

    closed spec fn view(&self) -> Seq<SignedHashedModel<ActionModel>> {
        self.elements@.map_values(|e: SignedActionHashed| e@)
    }
}

impl Chain {
    /// The chain invariant, over this chain's value.
    pub open spec fn wf(&self) -> bool {
        chain_wf(self@)
    }

    /// An empty chain, ready for its genesis action.
    pub fn new() -> (r: Chain)
        ensures
            r@ == Seq::<SignedHashedModel<ActionModel>>::empty(),
            r.wf(),
    {
        let c = Chain { elements: Vec::new() };
        assert(c@ =~= Seq::<SignedHashedModel<ActionModel>>::empty());
        c
    }

    /// How many actions the chain holds.
    pub fn len(&self) -> (r: usize)
        ensures
            r == self@.len(),
    {
        self.elements.len()
    }

    /// The signed action at a position.
    pub fn get(&self, i: usize) -> (r: &SignedActionHashed)
        requires
            i < self@.len(),
        ensures
            r@ == self@[i as int],
    {
        &self.elements[i]
    }

    /// Extends the chain with `action`, hashing it and binding the
    /// given signature, after checking that it claims the next position
    /// and back-references the last stored hash. A violation fails
    /// before anything is hashed, signed or stored, and leaves the
    /// chain untouched.
    pub fn append(&mut self, action: Action, signature: Signature) -> (r: Result<
        (),
        ChainIntegrityError,
    >)
        requires
            old(self).wf(),
        ensures
            final(self).wf(),
            match r {
                Ok(()) => can_extend(old(self)@, action@) && final(self)@ == old(self)@.push(
                    SignedHashedModel {
                        content: action@,
                        hash: hash_of(canonical_action(action@)),
                        signature: signature@,
                    },
                ),
                Err(e) => !can_extend(old(self)@, action@) && *final(self) == *old(self)
                    && e == extend_error(old(self)@, action@),
            },
    {
        if self.elements.len() == 0 {
            if !action.is_genesis() {
                return Err(ChainIntegrityError::MissingGenesis);
            }
        } else {
            if action.is_genesis() {
                return Err(ChainIntegrityError::UnexpectedGenesis);
            }
            let seq = action.sequence_number();
            if seq as usize != self.elements.len() {
                return Err(ChainIntegrityError::SequenceMismatch);
            }
            let last = &self.elements[self.elements.len() - 1];
            let links = match action.prev_action_hash() {
                Some(h) => h.same_hash(last.as_hash()),
                None => false,
            };
            if !links {
                assert(action@.prev_action_hash() != Some(self@.last().hash));
                return Err(ChainIntegrityError::PrevHashMismatch);
            }
        }
        let ghost pre = self@;
        let signed = SignedHashed::new(action, signature);
        self.elements.push(signed);
        proof {
            assert(self@ =~= pre.push(
                SignedHashedModel {
                    content: action@,
                    hash: hash_of(canonical_action(action@)),
                    signature: signature@,
                },
            ));
            assert forall|i: int| #![trigger self@[i]] 0 <= i < self@.len() implies {
                &&& self@[i].hash == hash_of(canonical_action(self@[i].content))
                &&& self@[i].content.sequence_number() == i as u32
                &&& (self@[i].content is Dna <==> i == 0)
            } by {
                if i < pre.len() {
                    assert(self@[i] == pre[i]);
                }
            }
            assert forall|i: int| #![trigger self@[i]] 1 <= i < self@.len() implies
                self@[i].content.prev_action_hash() == Some(self@[i - 1].hash) by {
                if i < pre.len() {
                    assert(self@[i] == pre[i]);
                    assert(self@[i - 1] == pre[i - 1]);
                }
            }
        }
        Ok(())
    }
}

/// Chain monotonicity: on a well-formed chain the sequence numbers are
/// exactly `0, 1, 2, ...` up to the length, with no gap and no repeat.
pub proof fn lemma_chain_monotonic(c: Seq<SignedHashedModel<ActionModel>>)
    requires
        chain_wf(c),
    ensures
        forall|i: int| #![trigger c[i]]
            0 <= i < c.len() ==> c[i].content.sequence_number() == i as u32,
{
}

/// No two positions of a well-formed chain claim one sequence number:
/// there is no room for a forked or replayed history inside a chain.
pub proof fn lemma_chain_positions_unique(c: Seq<SignedHashedModel<ActionModel>>)
    requires
        chain_wf(c),
    ensures
        forall|i: int, j: int|
            0 <= i < c.len() && 0 <= j < c.len() && i != j ==> (#[trigger] c[i]).content.sequence_number()
                != (#[trigger] c[j]).content.sequence_number(),
{
}

/// Hash-link integrity: on a well-formed chain, every action after the
/// first back-references exactly the hash of its immediate
/// predecessor's canonical serialization.
pub proof fn lemma_chain_hash_linked(c: Seq<SignedHashedModel<ActionModel>>)
    requires
        chain_wf(c),
    ensures
        forall|i: int| #![trigger c[i]]
            1 <= i < c.len() ==> c[i].content.prev_action_hash() == Some(
                hash_of(canonical_action(c[i - 1].content)),
            ),
{
    assert forall|i: int| #![trigger c[i]] 1 <= i < c.len() implies
        c[i].content.prev_action_hash() == Some(hash_of(canonical_action(c[i - 1].content))) by {
        assert(c[i - 1].hash == hash_of(canonical_action(c[i - 1].content)));
    }
}

} // verus!
