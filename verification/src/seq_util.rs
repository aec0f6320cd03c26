use vstd::prelude::*;

verus! {

/// Stepping a suffix: the tail of the suffix starting at `i` is the suffix
/// starting at `i + 1`, and its head is the element at `i`. The loops that
/// walk sibling lists maintain their invariants with this.
pub proof fn lemma_skip_one<A>(s: Seq<A>, i: int)
    requires
        0 <= i < s.len(),
    ensures
        s.skip(i).subrange(1, s.skip(i).len() as int) == s.skip(i + 1),
        s.skip(i)[0] == s[i],
        s.skip(i).len() == s.len() - i,
{
    assert(s.skip(i).subrange(1, s.skip(i).len() as int) =~= s.skip(i + 1));
}

/// A whole sequence is its own suffix at zero, and the suffix at the end is
/// empty.
pub proof fn lemma_skip_ends<A>(s: Seq<A>)
    ensures
        s.skip(0) == s,
        s.skip(s.len() as int).len() == 0,
{
    assert(s.skip(0) =~= s);
}

} // verus!
