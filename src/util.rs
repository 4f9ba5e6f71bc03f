//! Small helpers on sequences.
use vstd::prelude::*;

verus! {

/// The elements of `xs` in reverse order, each a clone.
pub fn reverse<T: Clone>(xs: &[T]) -> (r: Vec<T>)
    ensures
        r@.len() == xs@.len(),
        forall|i: int| 0 <= i < xs@.len() ==> cloned(#[trigger] xs@.reverse()[i], r@[i]),
{
    let mut rev: Vec<T> = Vec::new();
    let mut i: usize = 0;
    while i < xs.len()
        invariant
            0 <= i <= xs@.len(),
            rev@.len() == i,
            forall|k: int| 0 <= k < i ==> cloned(#[trigger] xs@.subrange(0, i as int).reverse()[k], rev@[k]),
        decreases xs.len() - i,
    {
        let x = xs[i].clone();
        let ghost old_rev = rev@;
        rev.insert(0, x);
        assert forall|k: int| 0 <= k < i + 1 implies cloned(
            #[trigger] xs@.subrange(0, i as int + 1).reverse()[k],
            rev@[k],
        ) by {
            if k > 0 {
                assert(xs@.subrange(0, i as int + 1).reverse()[k] == xs@.subrange(0, i as int).reverse()[k - 1]);
                assert(rev@[k] == old_rev[k - 1]);
            }
        }
        i = i + 1;
    }
    assert(xs@.subrange(0, xs@.len() as int) =~= xs@);
    rev
}

/// Reversing twice gives the sequence back.
pub proof fn lemma_reverse_reverse<T>(xs: Seq<T>)
    ensures
        xs.reverse().reverse() == xs,
{
    assert(xs.reverse().reverse() =~= xs);
}

} // verus!
