use vstd::prelude::*;

verus! {

/// The map that successive insertions of the pairs of `s`, first to last,
/// build from the empty map: a later pair for a key replaces an earlier one.
pub open spec fn entries_map<K, V>(s: Seq<(K, V)>) -> Map<K, V>
    decreases s.len(),
{
    if s.len() == 0 {
        Map::empty()
    } else {
        entries_map(s.drop_last()).insert(s.last().0, s.last().1)
    }
}

/// No key occurs twice among the pairs of `s`.
pub open spec fn keys_distinct<K, V>(s: Seq<(K, V)>) -> bool {
    forall|i: int, j: int| 0 <= i < s.len() && 0 <= j < s.len() && i != j ==> s[i].0 != s[j].0
}

/// `k` is the key of some pair of `s`.
pub open spec fn has_key<K, V>(s: Seq<(K, V)>, k: K) -> bool {
    exists|i: int| 0 <= i < s.len() && #[trigger] s[i].0 == k
}

/// `s` lists the entries of `m`, each once: its keys are distinct, they are
/// exactly the keys of `m`, and each comes with its value in `m`.
pub open spec fn lists_entries<K, V>(m: Map<K, V>, s: Seq<(K, V)>) -> bool {
    &&& keys_distinct(s)
    &&& forall|k: K| #[trigger] m.contains_key(k) <==> has_key(s, k)
    &&& forall|i: int| 0 <= i < s.len() ==> m[#[trigger] s[i].0] == s[i].1
}

/// The keys of the built map are the keys of the pairs.
pub proof fn lemma_entries_map_dom<K, V>(s: Seq<(K, V)>)
    ensures
        forall|k: K| #[trigger] entries_map(s).contains_key(k) <==> has_key(s, k),
    decreases s.len(),
{
    if s.len() > 0 {
        let t = s.drop_last();
        lemma_entries_map_dom(t);
        let n = s.len() - 1;
        assert(entries_map(s) == entries_map(t).insert(s[n].0, s[n].1));
        assert forall|k: K| #[trigger] entries_map(s).contains_key(k) <==> has_key(s, k) by {
            if has_key(t, k) {
                let i = choose|i: int| 0 <= i < t.len() && #[trigger] t[i].0 == k;
                assert(t[i] == s[i]);
            }
            if k == s[n].0 {
                assert(has_key(s, k));
            }
            if has_key(s, k) {
                let i = choose|i: int| 0 <= i < s.len() && #[trigger] s[i].0 == k;
                if i < n {
                    assert(t[i] == s[i]);
                    assert(has_key(t, k));
                }
            }
        }
    }
}

/// With distinct keys, each pair's value is what the built map holds for its key.
pub proof fn lemma_entries_map_value<K, V>(s: Seq<(K, V)>, i: int)
    requires
        keys_distinct(s),
        0 <= i < s.len(),
    ensures
        entries_map(s).contains_key(s[i].0),
        entries_map(s)[s[i].0] == s[i].1,
    decreases s.len(),
{
    if i < s.len() - 1 {
        let t = s.drop_last();
        assert(keys_distinct(t));
        lemma_entries_map_value(t, i);
        assert(t[i] == s[i]);
        assert(s[i].0 != s.last().0);
    }
}

/// With distinct keys, the pairs list the entries of the map they build.
pub proof fn lemma_entries_map_lists<K, V>(s: Seq<(K, V)>)
    requires
        keys_distinct(s),
    ensures
        lists_entries(entries_map(s), s),
{
    lemma_entries_map_dom(s);
    assert forall|i: int| 0 <= i < s.len() implies entries_map(s)[#[trigger] s[i].0] == s[i].1 by {
        lemma_entries_map_value(s, i);
    }
}

/// A list of the entries of `m` builds `m` back.
pub proof fn lemma_entries_map_of_listing<K, V>(m: Map<K, V>, s: Seq<(K, V)>)
    requires
        lists_entries(m, s),
    ensures
        entries_map(s) == m,
{
    lemma_entries_map_lists(s);
    assert forall|k: K| #[trigger] entries_map(s).contains_key(k) implies entries_map(s)[k] == m[k] by {
        let i = choose|i: int| 0 <= i < s.len() && #[trigger] s[i].0 == k;
        assert(entries_map(s)[s[i].0] == s[i].1);
    }
    assert(entries_map(s) =~= m);
}

/// Replacing the value of a pair, key kept, replaces that key's value in the map.
pub proof fn lemma_entries_map_update<K, V>(s: Seq<(K, V)>, i: int, v: V)
    requires
        keys_distinct(s),
        0 <= i < s.len(),
    ensures
        keys_distinct(s.update(i, (s[i].0, v))),
        entries_map(s.update(i, (s[i].0, v))) == entries_map(s).insert(s[i].0, v),
{
    let k = s[i].0;
    let u = s.update(i, (k, v));
    assert(keys_distinct(u)) by {
        assert forall|a: int, b: int| 0 <= a < u.len() && 0 <= b < u.len() && a != b implies u[a].0 != u[b].0 by {
            assert(u[a].0 == s[a].0);
            assert(u[b].0 == s[b].0);
        }
    }
    lemma_entries_map_lists(s);
    lemma_entries_map_lists(u);
    let m = entries_map(s).insert(k, v);
    assert(lists_entries(m, u)) by {
        assert forall|key: K| #[trigger] m.contains_key(key) <==> has_key(u, key) by {
            if has_key(s, key) {
                let j = choose|j: int| 0 <= j < s.len() && #[trigger] s[j].0 == key;
                assert(u[j].0 == key);
            }
            if has_key(u, key) {
                let j = choose|j: int| 0 <= j < u.len() && #[trigger] u[j].0 == key;
                assert(s[j].0 == key);
            }
        }
        assert forall|j: int| 0 <= j < u.len() implies m[#[trigger] u[j].0] == u[j].1 by {
            if j != i {
                assert(u[j] == s[j]);
                assert(s[j].0 != k);
            }
        }
    }
    lemma_entries_map_of_listing(m, u);
}

/// Appending a pair whose key is new keeps the keys distinct.
pub proof fn lemma_push_new_key<K, V>(s: Seq<(K, V)>, k: K, v: V)
    requires
        keys_distinct(s),
        !has_key(s, k),
    ensures
        keys_distinct(s.push((k, v))),
        entries_map(s.push((k, v))) == entries_map(s).insert(k, v),
{
    let p = s.push((k, v));
    assert(p.drop_last() =~= s);
    assert forall|a: int, b: int| 0 <= a < p.len() && 0 <= b < p.len() && a != b implies p[a].0 != p[b].0 by {
        if a == s.len() {
            assert(p[b] == s[b]);
        } else if b == s.len() {
            assert(p[a] == s[a]);
        } else {
            assert(p[a] == s[a]);
            assert(p[b] == s[b]);
        }
    }
}

} // verus!
