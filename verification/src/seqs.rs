use vstd::prelude::*;

verus! {

/// The index of the first element of `s` that satisfies `p`, or `s.len()`.
pub open spec fn first_where<A>(s: Seq<A>, p: spec_fn(A) -> bool) -> int
    decreases s.len(),
{
    if s.len() == 0 {
        0
    } else {
        let f = first_where(s.drop_last(), p);
        if f < s.len() - 1 {
            f
        } else if p(s.last()) {
            s.len() - 1
        } else {
            s.len() as int
        }
    }
}

/// The index of the last element of `s` that satisfies `p`, or `-1`.
pub open spec fn last_where<A>(s: Seq<A>, p: spec_fn(A) -> bool) -> int
    decreases s.len(),
{
    if s.len() == 0 {
        -1
    } else if p(s.last()) {
        s.len() - 1
    } else {
        last_where(s.drop_last(), p)
    }
}

pub proof fn lemma_first_where<A>(s: Seq<A>, p: spec_fn(A) -> bool)
    ensures
        0 <= first_where(s, p) <= s.len(),
        forall|j: int| 0 <= j < first_where(s, p) ==> !p(#[trigger] s[j]),
        first_where(s, p) < s.len() ==> p(s[first_where(s, p)]),
    decreases s.len(),
{
    if s.len() > 0 {
        lemma_first_where(s.drop_last(), p);
        assert forall|j: int| 0 <= j < s.len() - 1 implies #[trigger] s[j] == s.drop_last()[j] by {}
    }
}

pub proof fn lemma_last_where<A>(s: Seq<A>, p: spec_fn(A) -> bool)
    ensures
        -1 <= last_where(s, p) < s.len(),
        forall|j: int| last_where(s, p) < j < s.len() ==> !p(#[trigger] s[j]),
        last_where(s, p) >= 0 ==> p(s[last_where(s, p)]),
    decreases s.len(),
{
    if s.len() > 0 {
        lemma_last_where(s.drop_last(), p);
        assert forall|j: int| 0 <= j < s.len() - 1 implies #[trigger] s[j] == s.drop_last()[j] by {}
    }
}

/// One step of a scan over a prefix: `first_where` of the prefix one longer.
pub proof fn lemma_first_where_step<A>(s: Seq<A>, p: spec_fn(A) -> bool, i: int)
    requires
        0 <= i < s.len(),
    ensures
        first_where(s.take(i + 1), p) == (if first_where(s.take(i), p) < i {
            first_where(s.take(i), p)
        } else if p(s[i]) {
            i
        } else {
            i + 1
        }),
{
    assert(s.take(i + 1).drop_last() =~= s.take(i));
    lemma_first_where(s.take(i), p);
}

/// One step of a scan over a prefix: `last_where` of the prefix one longer.
pub proof fn lemma_last_where_step<A>(s: Seq<A>, p: spec_fn(A) -> bool, i: int)
    requires
        0 <= i < s.len(),
    ensures
        last_where(s.take(i + 1), p) == (if p(s[i]) {
            i
        } else {
            last_where(s.take(i), p)
        }),
{
    assert(s.take(i + 1).drop_last() =~= s.take(i));
}

/// A prefix in which `p` already holds somewhere has the same first index as
/// the whole sequence.
pub proof fn lemma_first_where_prefix<A>(s: Seq<A>, p: spec_fn(A) -> bool, m: int)
    requires
        0 <= m <= s.len(),
        first_where(s.take(m), p) < m,
    ensures
        first_where(s, p) == first_where(s.take(m), p),
{
    lemma_first_where(s, p);
    lemma_first_where(s.take(m), p);
    let a = first_where(s.take(m), p);
    let b = first_where(s, p);
    assert(s.take(m)[a] == s[a]);
    if b < a {
        assert(s.take(m)[b] == s[b]);
        assert(!p(s.take(m)[b]));
    }
}

} // verus!
