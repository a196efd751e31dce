use vstd::prelude::*;

verus! {

/// Appending `x` adds exactly `x` to the set of a sequence's elements.
pub proof fn lemma_push_to_set<T>(s: Seq<T>, x: T)
    ensures
        s.push(x).to_set() == s.to_set().insert(x),
{
    assert forall|y: T| #[trigger] s.push(x).to_set().contains(y) <==> s.to_set().insert(x).contains(y) by {
        assert(s.push(x)[s.len() as int] == x);
        if s.contains(y) {
            let i = s.index_of(y);
            assert(s.push(x)[i] == y);
        }
        if s.push(x).contains(y) && y != x {
            let i = s.push(x).index_of(y);
            assert(s[i] == y);
        }
    }
    assert(s.push(x).to_set() =~= s.to_set().insert(x));
}

/// An element of `s.push(x)` is `x` or an element of `s`.
pub proof fn lemma_push_contains<T>(s: Seq<T>, x: T)
    ensures
        forall|y: T| #[trigger] s.push(x).contains(y) <==> (s.contains(y) || y == x),
{
    assert forall|y: T| #[trigger] s.push(x).contains(y) <==> (s.contains(y) || y == x) by {
        assert(s.push(x)[s.len() as int] == x);
        if s.contains(y) {
            let i = s.index_of(y);
            assert(s.push(x)[i] == y);
        }
        if s.push(x).contains(y) && y != x {
            let i = s.push(x).index_of(y);
            assert(s[i] == y);
        }
    }
}

} // verus!
