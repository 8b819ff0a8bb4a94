//! Sequences of sequences, laid end to end.

use vstd::prelude::*;

verus! {

/// The first `n` sequences, one after the other.
pub open spec fn chain_prefix<T>(parts: Seq<Seq<T>>, n: nat) -> Seq<T>
    decreases n,
{
    if n == 0 {
        Seq::empty()
    } else {
        chain_prefix(parts, (n - 1) as nat) + parts[n - 1]
    }
}

/// All the sequences in order, one after the other.
pub open spec fn chain<T>(parts: Seq<Seq<T>>) -> Seq<T> {
    chain_prefix(parts, parts.len())
}

/// The chain of the first `n + 1` parts is the chain of the first `n`,
/// followed by the part at `n`.
pub broadcast proof fn lemma_chain_step<T>(parts: Seq<Seq<T>>, n: nat)
    ensures
        #[trigger] chain_prefix(parts, n + 1) == chain_prefix(parts, n) + parts[n as int],
{
    reveal_with_fuel(chain_prefix, 2);
}

/// The lengths of the first `n` parts, added up.
pub open spec fn total_len<T>(parts: Seq<Seq<T>>, n: nat) -> nat
    decreases n,
{
    if n == 0 {
        0
    } else {
        total_len(parts, (n - 1) as nat) + parts[n - 1].len()
    }
}

/// The length of a chain is the sum of the lengths of its parts.
pub proof fn lemma_chain_len<T>(parts: Seq<Seq<T>>, n: nat)
    ensures
        chain_prefix(parts, n).len() == total_len(parts, n),
    decreases n,
{
    if n > 0 {
        lemma_chain_len(parts, (n - 1) as nat);
    }
}

/// A chain is empty exactly when each of its parts is.
pub proof fn lemma_chain_empty<T>(parts: Seq<Seq<T>>, n: nat)
    requires
        n <= parts.len(),
    ensures
        chain_prefix(parts, n).len() == 0 <==> (forall|i: int|
            0 <= i < n ==> (#[trigger] parts[i]).len() == 0),
    decreases n,
{
    if n > 0 {
        lemma_chain_empty(parts, (n - 1) as nat);
        if chain_prefix(parts, n).len() == 0 {
            assert forall|i: int| 0 <= i < n implies (#[trigger] parts[i]).len() == 0 by {
                if i < n - 1 {
                } else {
                    assert(parts[n - 1].len() == 0);
                }
            }
        }
    }
}

} // verus!
