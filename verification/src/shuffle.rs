//! Random reordering of a sequence of cells.

use rand::seq::SliceRandom;
use vstd::prelude::*;

verus! {

/// `a` holds exactly the elements of `b`, each as often as `b` holds it.
pub open spec fn is_permutation<T>(a: Seq<T>, b: Seq<T>) -> bool {
    a.to_multiset() == b.to_multiset()
}

/// Calls `rand::seq::SliceRandom::shuffle` on the elements of `items`, with the
/// thread-local generator that `rand::thread_rng` hands out.
///
/// Trusted: the call only swaps elements of the slice, so whatever the
/// generator draws, `items` ends up holding the elements it held before.
/// Nothing is claimed about which order comes out.
#[verifier::external_body]
fn shuffle_in_place<T>(items: &mut Vec<T>)
    ensures
        is_permutation(final(items)@, old(items)@),
{
    items.shuffle(&mut rand::thread_rng());
}

/// Puts `items` into a random order.
///
/// Whatever order is drawn, the result is a permutation of `items`: nothing is
/// added, dropped or changed.
pub fn shuffle<T>(items: Vec<T>) -> (shuffled: Vec<T>)
    ensures
        is_permutation(shuffled@, items@),
        shuffled@.len() == items@.len(),
{
    let mut shuffled = items;
    shuffle_in_place(&mut shuffled);
    proof {
        lemma_permutation_len(shuffled@, items@);
    }
    shuffled
}

/// A permutation of a sequence is as long as the sequence.
pub proof fn lemma_permutation_len<T>(a: Seq<T>, b: Seq<T>)
    requires
        is_permutation(a, b),
    ensures
        a.len() == b.len(),
{
    a.to_multiset_ensures();
    b.to_multiset_ensures();
}

/// A permutation of a sequence holds an element exactly when the sequence
/// does.
pub proof fn lemma_permutation_contains<T>(a: Seq<T>, b: Seq<T>, x: T)
    requires
        is_permutation(a, b),
    ensures
        a.contains(x) <==> b.contains(x),
{
    a.to_multiset_ensures();
    b.to_multiset_ensures();
    assert(a.contains(x) <==> a.to_multiset().count(x) > 0);
    assert(b.contains(x) <==> b.to_multiset().count(x) > 0);
}

} // verus!
