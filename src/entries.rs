//! Ordered maps kept as vectors of `(key, value)` pairs, keyed by a string.
//! Inserting an existing key replaces its value in place; a new key is
//! appended, so the order of first insertion is kept.

use vstd::prelude::*;

verus! {

/// The view of a list of keyed entries: each key by its characters, each
/// value by its own view.
pub open spec fn entries_view<V: View>(s: Seq<(String, V)>) -> Seq<(Seq<char>, V::V)> {
    s.map_values(|e: (String, V)| (e.0@, e.1@))
}

/// `i` is the first position of key `k` in `s`.
pub open spec fn first_match<V>(s: Seq<(Seq<char>, V)>, k: Seq<char>, i: int) -> bool {
    &&& 0 <= i < s.len()
    &&& s[i].0 == k
    &&& forall|j: int| 0 <= j < i ==> s[j].0 != k
}

pub open spec fn has_key<V>(s: Seq<(Seq<char>, V)>, k: Seq<char>) -> bool {
    exists|i: int| 0 <= i < s.len() && s[i].0 == k
}

/// No key stands twice.
pub open spec fn unique_keys<V>(s: Seq<(Seq<char>, V)>) -> bool {
    forall|i: int, j: int| 0 <= i < s.len() && 0 <= j < s.len() && s[i].0 == s[j].0 ==> i == j
}

/// Last write wins: the first entry with key `k` gets value `v`, or the pair
/// is appended when `k` is new.
pub open spec fn upserted<V>(s: Seq<(Seq<char>, V)>, k: Seq<char>, v: V) -> Seq<(Seq<char>, V)> {
    if exists|i: int| first_match(s, k, i) {
        s.update(choose|i: int| first_match(s, k, i), (k, v))
    } else {
        s.push((k, v))
    }
}

/// The value stored under `k`, if any.
pub open spec fn lookup<V>(s: Seq<(Seq<char>, V)>, k: Seq<char>) -> Option<V> {
    if exists|i: int| first_match(s, k, i) {
        Some(s[choose|i: int| first_match(s, k, i)].1)
    } else {
        None
    }
}

pub proof fn lemma_first_match_unique<V>(s: Seq<(Seq<char>, V)>, k: Seq<char>, i: int, j: int)
    requires
        first_match(s, k, i),
        first_match(s, k, j),
    ensures
        i == j,
{
}

/// A key that occurs has a first position.
pub proof fn lemma_has_key_first_match<V>(s: Seq<(Seq<char>, V)>, k: Seq<char>)
    requires
        has_key(s, k),
    ensures
        exists|i: int| first_match(s, k, i),
{
    let i = choose|i: int| 0 <= i < s.len() && s[i].0 == k;
    lemma_first_match_below(s, k, i);
}

proof fn lemma_first_match_below<V>(s: Seq<(Seq<char>, V)>, k: Seq<char>, i: int)
    requires
        0 <= i < s.len(),
        s[i].0 == k,
    ensures
        exists|m: int| first_match(s, k, m),
    decreases i,
{
    if exists|j: int| 0 <= j < i && s[j].0 == k {
        let j = choose|j: int| 0 <= j < i && s[j].0 == k;
        lemma_first_match_below(s, k, j);
    } else {
        assert(first_match(s, k, i));
    }
}

/// Without a first position the key does not occur at all.
pub proof fn lemma_no_first_match<V>(s: Seq<(Seq<char>, V)>, k: Seq<char>)
    requires
        !(exists|i: int| first_match(s, k, i)),
    ensures
        forall|j: int| 0 <= j < s.len() ==> s[j].0 != k,
{
    if has_key(s, k) {
        lemma_has_key_first_match(s, k);
    }
}

/// After an upsert, `k` maps to `v` and every other key keeps its value.
pub proof fn lemma_upserted_lookup<V>(s: Seq<(Seq<char>, V)>, k: Seq<char>, v: V, q: Seq<char>)
    ensures
        lookup(upserted(s, k, v), q) == if q == k { Some(v) } else { lookup(s, q) },
{
    let t = upserted(s, k, v);
    let found = exists|i: int| first_match(s, k, i);
    if !found {
        lemma_no_first_match(s, k);
    }
    assert forall|j: int| 0 <= j < s.len() && s[j].0 != k implies t[j] == s[j] by {}
    assert forall|j: int| 0 <= j < s.len() && s[j].0 == k implies t[j].0 == k by {}
    if q == k {
        let i = if found { choose|i: int| first_match(s, k, i) } else { s.len() as int };
        assert(first_match(t, q, i));
        lemma_first_match_unique(t, q, i, choose|m: int| first_match(t, q, m));
    } else {
        if exists|m: int| first_match(s, q, m) {
            let m = choose|m: int| first_match(s, q, m);
            assert(first_match(t, q, m));
            lemma_first_match_unique(t, q, m, choose|n: int| first_match(t, q, n));
        } else {
            lemma_no_first_match(s, q);
            assert forall|n: int| !first_match(t, q, n) by {
                if first_match(t, q, n) {
                    assert(t[n] == s[n]);
                }
            }
        }
    }
}

/// Each entry after an upsert is the entry that stood there before, or the
/// new pair.
pub proof fn lemma_upserted_entries<V>(s: Seq<(Seq<char>, V)>, k: Seq<char>, v: V)
    ensures
        upserted(s, k, v).len() >= s.len(),
        forall|i: int| 0 <= i < upserted(s, k, v).len() ==>
            (i < s.len() && #[trigger] upserted(s, k, v)[i] == s[i]) || upserted(s, k, v)[i] == (k, v),
{
}

/// An upsert keeps the keys distinct.
pub proof fn lemma_upserted_unique<V>(s: Seq<(Seq<char>, V)>, k: Seq<char>, v: V)
    requires
        unique_keys(s),
    ensures
        unique_keys(upserted(s, k, v)),
{
    let t = upserted(s, k, v);
    if exists|i: int| first_match(s, k, i) {
        assert forall|a: int, b: int| 0 <= a < t.len() && 0 <= b < t.len() && t[a].0 == t[b].0 implies a == b by {
            assert(s[a].0 == t[a].0);
            assert(s[b].0 == t[b].0);
        }
    } else {
        lemma_no_first_match(s, k);
        assert forall|a: int, b: int| 0 <= a < t.len() && 0 <= b < t.len() && t[a].0 == t[b].0 implies a == b by {
            if a < s.len() {
                assert(t[a] == s[a]);
            }
            if b < s.len() {
                assert(t[b] == s[b]);
            }
        }
    }
}

/// Inserts `value` under `key`, replacing the value of an existing key in place.
pub fn upsert_entry<V: View>(entries: &mut Vec<(String, V)>, key: String, value: V)
    ensures
        entries_view(final(entries)@) == upserted(entries_view(old(entries)@), key@, value@),
{
    let ghost s = entries_view(entries@);
    let mut i: usize = 0;
    while i < entries.len()
        invariant
            i <= entries.len(),
            entries@ == old(entries)@,
            s == entries_view(entries@),
            forall|j: int| 0 <= j < i ==> s[j].0 != key@,
        decreases entries.len() - i,
    {
        if entries[i].0 == key {
            proof {
                assert(first_match(s, key@, i as int));
                lemma_first_match_unique(s, key@, i as int, choose|m: int| first_match(s, key@, m));
            }
            entries.set(i, (key, value));
            proof {
                assert(entries_view(entries@) =~= upserted(s, key@, value@));
            }
            return;
        }
        i = i + 1;
    }
    entries.push((key, value));
    assert(entries_view(entries@) =~= upserted(s, key@, value@));
}

} // verus!
