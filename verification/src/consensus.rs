//! Consensus: the longest valid chain among the answers of the peers takes
//! the place of the node's own.
//!
//! Where several answers are longer than the chain and valid, the first of
//! them is taken, whatever the lengths of the others.

use crate::block::{BlockView, Chain};
use crate::blockchain::{Blockchain, LedgerView};
use crate::nodemanager::{answered, chain_views, response_views};
use crate::validation::{names_digests, valid_chain};
use vstd::prelude::*;

verus! {

/// Whether a node whose chain holds `local_len` blocks takes `candidate` in
/// its place: it is longer, and it is valid.
pub open spec fn adoptable(candidate: Seq<BlockView>, local_len: nat) -> bool {
    candidate.len() > local_len && valid_chain(candidate)
}

/// The first of `candidates` that is adoptable, if any is.
pub open spec fn first_adoptable(
    candidates: Seq<Seq<BlockView>>,
    local_len: nat,
) -> Option<Seq<BlockView>>
    decreases candidates.len(),
{
    if candidates.len() == 0 {
        None
    } else if adoptable(candidates[0], local_len) {
        Some(candidates[0])
    } else {
        first_adoptable(candidates.drop_first(), local_len)
    }
}

impl LedgerView {
    /// The ledger after its chain was held against `candidates`: the first
    /// adoptable one replaces the chain; what is pending stays.
    pub open spec fn resolved(self, candidates: Seq<Seq<BlockView>>) -> LedgerView {
        match first_adoptable(candidates, self.chain.len()) {
            Some(chain) => LedgerView { chain, pending: self.pending, registry: self.registry },
            None => self,
        }
    }
}

/// Where no candidate before the one at `i` is adoptable and that one is, it
/// is the first adoptable one.
pub proof fn lemma_first_adoptable_at(candidates: Seq<Seq<BlockView>>, local_len: nat, i: int)
    requires
        0 <= i < candidates.len(),
        forall|j: int| 0 <= j < i ==> !adoptable(#[trigger] candidates[j], local_len),
        adoptable(candidates[i], local_len),
    ensures
        first_adoptable(candidates, local_len) == Some(candidates[i]),
    decreases i,
{
    if i > 0 {
        lemma_first_adoptable_at(candidates.drop_first(), local_len, i - 1);
    }
}

/// Where no candidate is adoptable, none is the first.
pub proof fn lemma_none_adoptable(candidates: Seq<Seq<BlockView>>, local_len: nat)
    requires
        forall|j: int|
            0 <= j < candidates.len() ==> !adoptable(#[trigger] candidates[j], local_len),
    ensures
        first_adoptable(candidates, local_len) is None,
    decreases candidates.len(),
{
    if candidates.len() > 0 {
        lemma_none_adoptable(candidates.drop_first(), local_len);
    }
}

/// The first adoptable candidate is one of the candidates, and adoptable.
pub proof fn lemma_first_adoptable_is_adoptable(candidates: Seq<Seq<BlockView>>, local_len: nat)
    ensures
        first_adoptable(candidates, local_len) matches Some(chain) ==> candidates.contains(chain)
            && adoptable(chain, local_len),
    decreases candidates.len(),
{
    if candidates.len() > 0 && !adoptable(candidates[0], local_len) {
        lemma_first_adoptable_is_adoptable(candidates.drop_first(), local_len);
    }
}

/// Resolving never shortens the chain, keeps a valid chain valid, and
/// touches neither the pending transactions nor the registry. Where it
/// changes the chain, the new chain is longer, valid, and one of the
/// candidates.
pub proof fn lemma_resolved(ledger: LedgerView, candidates: Seq<Seq<BlockView>>)
    ensures
        ledger.resolved(candidates).pending == ledger.pending,
        ledger.resolved(candidates).registry == ledger.registry,
        ledger.resolved(candidates).chain.len() >= ledger.chain.len(),
        valid_chain(ledger.chain) ==> valid_chain(ledger.resolved(candidates).chain),
        ledger.resolved(candidates) != ledger ==> {
            &&& ledger.resolved(candidates).chain.len() > ledger.chain.len()
            &&& valid_chain(ledger.resolved(candidates).chain)
            &&& candidates.contains(ledger.resolved(candidates).chain)
        },
{
    lemma_first_adoptable_is_adoptable(candidates, ledger.chain.len());
}

/// Against candidates that are all no longer than the chain, resolving
/// changes nothing.
pub proof fn lemma_resolved_keeps_longest(ledger: LedgerView, candidates: Seq<Seq<BlockView>>)
    requires
        forall|j: int|
            0 <= j < candidates.len() ==> (#[trigger] candidates[j]).len() <= ledger.chain.len(),
    ensures
        ledger.resolved(candidates) == ledger,
{
    lemma_none_adoptable(candidates, ledger.chain.len());
}

/// Against a single candidate that is longer than the chain and valid,
/// resolving puts that candidate in the chain's place.
pub proof fn lemma_resolved_adopts(ledger: LedgerView, candidate: Seq<BlockView>)
    requires
        candidate.len() > ledger.chain.len(),
        valid_chain(candidate),
    ensures
        ledger.resolved(seq![candidate]).chain == candidate,
{
    lemma_first_adoptable_at(seq![candidate], ledger.chain.len(), 0);
}

impl Blockchain {
    /// Replaces the chain by the first chain among the answers of the peers
    /// that is longer and valid, and says whether there was one. The pending
    /// transactions stay as they are.
    pub fn resolve_conflicts(&mut self, responses: Vec<Option<Chain>>) -> (replaced: bool)
        ensures
            final(self)@ == old(self)@.resolved(answered(response_views(responses@))),
            replaced == first_adoptable(
                answered(response_views(responses@)),
                old(self)@.chain.len(),
            ) is Some,
            names_digests(old(self)@.chain) ==> names_digests(final(self)@.chain),
    {
        let mut chains: Vec<Chain> = self.node_manager.get_chains(responses);
        let ghost candidates = chain_views(chains@);
        let ghost local_len = self@.chain.len();
        let mut i: usize = 0;
        while i < chains.len()
            invariant
                i <= chains.len(),
                *self == *old(self),
                local_len == self.chain@.len(),
                candidates == chain_views(chains@),
                candidates == answered(response_views(responses@)),
                forall|j: int| 0 <= j < i ==> !adoptable(#[trigger] candidates[j], local_len),
            decreases chains.len() - i,
        {
            if chains[i].len() > self.chain.len() && Blockchain::validate_chain(&chains[i]) {
                proof {
                    lemma_first_adoptable_at(candidates, local_len, i as int);
                }
                self.chain = chains.swap_remove(i);
                return true;
            }
            i += 1;
        }
        proof {
            lemma_none_adoptable(candidates, local_len);
        }
        false
    }
}

} // verus!
