//! Last-match association lookup over a sequence of key/value pairs.
//!
//! The per-tick memory view and the type-metadata tables are both small
//! association lists; a later row shadows an earlier one, so refreshing an
//! entry is a plain append.
use vstd::prelude::*;

verus! {

/// The value of the last pair whose key is `k`, if any.
pub open spec fn assoc_last<K, V>(s: Seq<(K, V)>, k: K) -> Option<V>
    decreases s.len(),
{
    if s.len() == 0 {
        None
    } else if s.last().0 == k {
        Some(s.last().1)
    } else {
        assoc_last(s.drop_last(), k)
    }
}

/// If row `i` holds the key and no later row does, the lookup answers row
/// `i`'s value.
pub proof fn lemma_assoc_last_at<K, V>(s: Seq<(K, V)>, k: K, i: int)
    requires
        0 <= i < s.len(),
        s[i].0 == k,
        forall|j: int| i < j < s.len() ==> s[j].0 != k,
    ensures
        assoc_last(s, k) == Some(s[i].1),
    decreases s.len(),
{
    if i == s.len() - 1 {
    } else {
        lemma_assoc_last_at(s.drop_last(), k, i);
    }
}

/// If no row holds the key, the lookup answers nothing.
pub proof fn lemma_assoc_last_none<K, V>(s: Seq<(K, V)>, k: K)
    requires
        forall|j: int| 0 <= j < s.len() ==> s[j].0 != k,
    ensures
        assoc_last(s, k) is None,
    decreases s.len(),
{
    if s.len() > 0 {
        lemma_assoc_last_none(s.drop_last(), k);
    }
}

/// Appending a row changes the lookup for that row's key alone.
pub proof fn lemma_assoc_last_push<K, V>(s: Seq<(K, V)>, k: K, v: V, b: K)
    ensures
        assoc_last(s.push((k, v)), k) == Some(v),
        b != k ==> assoc_last(s.push((k, v)), b) == assoc_last(s, b),
{
    assert(s.push((k, v)).drop_last() =~= s);
}

} // verus!
