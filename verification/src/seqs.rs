//! Small sequence lemmas shared by the modules that filter catalogs.

use vstd::prelude::*;

verus! {

/// Every element of a filtered sequence comes from the source sequence.
pub proof fn lemma_filter_in_source<A>(s: Seq<A>, pred: spec_fn(A) -> bool, j: int)
    requires
        0 <= j < s.filter(pred).len(),
    ensures
        s.contains(s.filter(pred)[j]),
    decreases s.len(),
{
    reveal(Seq::filter);
    if s.len() > 0 {
        let prefix = s.drop_last();
        if pred(s.last()) && j == s.filter(pred).len() - 1 {
            assert(s[s.len() - 1] == s.filter(pred)[j]);
        } else {
            lemma_filter_in_source(prefix, pred, j);
            let i = choose|i: int| 0 <= i < prefix.len() && prefix[i] == prefix.filter(pred)[j];
            assert(s[i] == s.filter(pred)[j]);
        }
    }
}

} // verus!
