//! Association lists keyed by text: lookup, and how it behaves under removal.

use vstd::prelude::*;

verus! {

/// The value stored for `u` in an association list: the last entry for `u` wins.
pub open spec fn lookup_in<V>(s: Seq<(Seq<char>, V)>, u: Seq<char>) -> Option<V>
    decreases s.len(),
{
    if s.len() == 0 {
        None
    } else if s.last().0 == u {
        Some(s.last().1)
    } else {
        lookup_in(s.drop_last(), u)
    }
}

/// Whether no two entries share a key.
pub open spec fn keys_unique<V>(s: Seq<(Seq<char>, V)>) -> bool {
    forall|i: int, j: int| 0 <= i < j < s.len() ==> s[i].0 != s[j].0
}

/// With unique keys, the entry at `i` is what its key looks up.
pub proof fn lemma_lookup_at<V>(s: Seq<(Seq<char>, V)>, i: int)
    requires
        keys_unique(s),
        0 <= i < s.len(),
    ensures
        lookup_in(s, s[i].0) == Some(s[i].1),
    decreases s.len(),
{
    if i < s.len() - 1 {
        assert(s.drop_last()[i] == s[i]);
        lemma_lookup_at(s.drop_last(), i);
    }
}

/// A key that no entry holds looks up nothing.
pub proof fn lemma_lookup_absent<V>(s: Seq<(Seq<char>, V)>, u: Seq<char>)
    requires
        forall|i: int| 0 <= i < s.len() ==> s[i].0 != u,
    ensures
        lookup_in(s, u) is None,
    decreases s.len(),
{
    if s.len() > 0 {
        lemma_lookup_absent(s.drop_last(), u);
    }
}

/// Removing an entry under another key leaves a lookup unchanged.
pub proof fn lemma_lookup_remove<V>(s: Seq<(Seq<char>, V)>, i: int, u: Seq<char>)
    requires
        0 <= i < s.len(),
        s[i].0 != u,
    ensures
        lookup_in(s.remove(i), u) == lookup_in(s, u),
    decreases s.len(),
{
    if i == s.len() - 1 {
        assert(s.remove(i) =~= s.drop_last());
    } else {
        assert(s.remove(i).last() == s.last());
        assert(s.remove(i).drop_last() =~= s.drop_last().remove(i));
        lemma_lookup_remove(s.drop_last(), i, u);
    }
}

} // verus!
