//! Facts about filtering and mapping sequences one element at a time.
use vstd::prelude::*;

verus! {

/// Filtering one more element of a prefix appends it exactly when it passes.
pub proof fn lemma_filter_take_step<A>(s: Seq<A>, i: int, p: spec_fn(A) -> bool)
    requires
        0 <= i < s.len(),
    ensures
        s.take(i + 1).filter(p) == if p(s[i]) {
            s.take(i).filter(p).push(s[i])
        } else {
            s.take(i).filter(p)
        },
{
    reveal_with_fuel(Seq::<_>::filter, 1);
    assert(s.take(i + 1).drop_last() =~= s.take(i));
}

/// Filtering then mapping one more element of a prefix appends its image
/// exactly when it passes.
pub proof fn lemma_filter_map_take_step<A, B>(s: Seq<A>, i: int, p: spec_fn(A) -> bool, f: spec_fn(A) -> B)
    requires
        0 <= i < s.len(),
    ensures
        s.take(i + 1).filter(p).map_values(f) == if p(s[i]) {
            s.take(i).filter(p).map_values(f).push(f(s[i]))
        } else {
            s.take(i).filter(p).map_values(f)
        },
{
    lemma_filter_take_step(s, i, p);
    if p(s[i]) {
        assert(s.take(i).filter(p).push(s[i]).map_values(f) =~= s.take(i).filter(p).map_values(f).push(f(s[i])));
    }
}

} // verus!
