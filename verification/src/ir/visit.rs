//! What a traversal is: the sequence of nodes that it enters, and the state
//! that a pass reaches by observing them one after the other.

use crate::ir::IRVisitorImpl;
use crate::ir::base::IRNode;
use crate::ir::sequence::{chain_prefix, lemma_chain_step};
use vstd::prelude::*;

verus! {

/// The state that a pass reaches from `state` by observing the nodes of
/// `trace` in order.
pub open spec fn walk<'a, V: IRVisitorImpl>(state: V::State, trace: Seq<IRNode<'a>>) -> V::State
    decreases trace.len(),
{
    if trace.len() == 0 {
        state
    } else {
        walk::<V>(V::observe(state, trace[0]), trace.drop_first())
    }
}

/// Observing one node is one step of the pass.
pub broadcast proof fn lemma_walk_one<'a, V: IRVisitorImpl>(state: V::State, node: IRNode<'a>)
    ensures
        #[trigger] walk::<V>(state, seq![node]) == V::observe(state, node),
{
    assert(seq![node].drop_first() =~= Seq::<IRNode<'a>>::empty());
    reveal_with_fuel(walk, 2);
}

/// Observing nothing leaves the state as it is.
pub broadcast proof fn lemma_walk_none<'a, V: IRVisitorImpl>(state: V::State)
    ensures
        #[trigger] walk::<V>(state, Seq::<IRNode<'a>>::empty()) == state,
{
}

/// Observing two traces in a row is observing the first, then the second.
pub broadcast proof fn lemma_walk_concat<'a, V: IRVisitorImpl>(
    state: V::State,
    first: Seq<IRNode<'a>>,
    second: Seq<IRNode<'a>>,
)
    ensures
        #[trigger] walk::<V>(state, first + second) == walk::<V>(walk::<V>(state, first), second),
    decreases first.len(),
{
    if first.len() == 0 {
        assert(first + second =~= second);
    } else {
        assert((first + second).drop_first() =~= first.drop_first() + second);
        lemma_walk_concat::<V>(V::observe(state, first[0]), first.drop_first(), second);
    }
}

/// One round of a traversal of a list: from the state after the first `n`
/// parts, observing the part at `n` gives the state after the first `n + 1`.
pub proof fn lemma_walk_step<'a, V: IRVisitorImpl>(
    start: V::State,
    parts: Seq<Seq<IRNode<'a>>>,
    n: nat,
    before: V::State,
    after: V::State,
)
    requires
        before == walk::<V>(start, chain_prefix(parts, n)),
        after == walk::<V>(before, parts[n as int]),
    ensures
        after == walk::<V>(start, chain_prefix(parts, n + 1)),
{
    lemma_chain_step(parts, n);
    lemma_walk_concat::<V>(start, chain_prefix(parts, n), parts[n as int]);
}

} // verus!
