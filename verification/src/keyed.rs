//! Maps kept as a log of insertions: the value of a key is the value of its
//! last insertion.

use vstd::prelude::*;

verus! {

/// The map in which each key holds the value of its last insertion in `s`.
pub open spec fn latest<V>(s: Seq<(Seq<char>, V)>) -> Map<Seq<char>, V>
    decreases s.len(),
{
    if s.len() == 0 {
        Map::empty()
    } else {
        latest(s.drop_last()).insert(s.last().0, s.last().1)
    }
}

/// In `latest(s)`, a key is present exactly when some insertion names it.
pub proof fn lemma_latest_contains<V>(s: Seq<(Seq<char>, V)>, k: Seq<char>)
    ensures
        latest(s).contains_key(k) <==> exists|j: int| 0 <= j < s.len() && (#[trigger] s[j]).0 == k,
    decreases s.len(),
{
    if s.len() > 0 {
        let t = s.drop_last();
        lemma_latest_contains(t, k);
        if latest(s).contains_key(k) && s.last().0 != k {
            let j = choose|j: int| 0 <= j < t.len() && (#[trigger] t[j]).0 == k;
            assert(s[j] == t[j]);
        }
        if exists|j: int| 0 <= j < s.len() && (#[trigger] s[j]).0 == k {
            let j = choose|j: int| 0 <= j < s.len() && (#[trigger] s[j]).0 == k;
            if j < t.len() {
                assert(t[j] == s[j]);
            }
        }
    }
}

/// In `latest(s)`, a key holds the value of its last insertion.
pub proof fn lemma_latest_value<V>(s: Seq<(Seq<char>, V)>, j: int)
    requires
        0 <= j < s.len(),
        forall|l: int| j < l < s.len() ==> (#[trigger] s[l]).0 != s[j].0,
    ensures
        latest(s).contains_key(s[j].0),
        latest(s)[s[j].0] == s[j].1,
    decreases s.len(),
{
    if j < s.len() - 1 {
        let t = s.drop_last();
        assert(s[s.len() - 1].0 != s[j].0);
        assert forall|l: int| j < l < t.len() implies (#[trigger] t[l]).0 != t[j].0 by {
            assert(t[l] == s[l]);
        }
        lemma_latest_value(t, j);
    }
}

/// Where no key is inserted twice, replacing the value of one insertion
/// replaces the value its key holds.
pub proof fn lemma_latest_update<V>(s: Seq<(Seq<char>, V)>, i: int, v: V)
    requires
        0 <= i < s.len(),
        forall|a: int, b: int|
            0 <= a < s.len() && 0 <= b < s.len() && a != b ==> #[trigger] s[a].0 != #[trigger] s[b].0,
    ensures
        latest(s.update(i, (s[i].0, v))) == latest(s).insert(s[i].0, v),
{
    let k = s[i].0;
    let t = s.update(i, (k, v));
    assert forall|key: Seq<char>| #![auto] latest(t).contains_key(key) <==> latest(s).insert(
        k,
        v,
    ).contains_key(key) by {
        lemma_latest_contains(t, key);
        lemma_latest_contains(s, key);
        if key != k {
            if exists|j: int| 0 <= j < s.len() && (#[trigger] s[j]).0 == key {
                let j = choose|j: int| 0 <= j < s.len() && (#[trigger] s[j]).0 == key;
                assert(t[j].0 == key);
            }
            if exists|j: int| 0 <= j < t.len() && (#[trigger] t[j]).0 == key {
                let j = choose|j: int| 0 <= j < t.len() && (#[trigger] t[j]).0 == key;
                assert(j != i);
                assert(s[j].0 == key);
            }
        } else {
            assert(t[i].0 == key);
        }
    }
    assert forall|key: Seq<char>| #[trigger] latest(t).contains_key(key) implies latest(t)[key]
        == latest(s).insert(k, v)[key] by {
        lemma_latest_contains(t, key);
        let j = choose|j: int| 0 <= j < t.len() && (#[trigger] t[j]).0 == key;
        assert forall|l: int| j < l < t.len() implies (#[trigger] t[l]).0 != t[j].0 by {
            assert(t[l].0 == s[l].0);
            assert(t[j].0 == s[j].0);
        }
        lemma_latest_value(t, j);
        if j != i {
            assert forall|l: int| j < l < s.len() implies (#[trigger] s[l]).0 != s[j].0 by {}
            lemma_latest_value(s, j);
        }
    }
    assert(latest(t) =~= latest(s).insert(k, v));
}

} // verus!
