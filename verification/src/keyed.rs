//! Lists of key-value entries with distinct keys, viewed as maps.

use vstd::prelude::*;

verus! {

/// The map that a list of entries describes; a later entry wins over an
/// earlier one with the same key.
pub open spec fn keyed_map<K, V>(s: Seq<(K, V)>) -> Map<K, V>
    decreases s.len(),
{
    if s.len() == 0 {
        Map::empty()
    } else {
        keyed_map(s.drop_last()).insert(s.last().0, s.last().1)
    }
}

/// No two entries share a key.
pub open spec fn keys_distinct<K, V>(s: Seq<(K, V)>) -> bool {
    forall|i: int, j: int| 0 <= i < s.len() && 0 <= j < s.len() && i != j ==> s[i].0 != s[j].0
}

/// With distinct keys, the map has one key per entry, each entry's value
/// under its key, and no other key.
pub proof fn lemma_keyed_map<K, V>(s: Seq<(K, V)>)
    requires
        keys_distinct(s),
    ensures
        keyed_map(s).dom().finite(),
        keyed_map(s).len() == s.len(),
        forall|i: int|
            0 <= i < s.len() ==> #[trigger] keyed_map(s).contains_key(s[i].0) && keyed_map(s)[s[i].0]
                == s[i].1,
        forall|k: K| #[trigger]
            keyed_map(s).contains_key(k) ==> exists|i: int| 0 <= i < s.len() && s[i].0 == k,
    decreases s.len(),
{
    if s.len() > 0 {
        let p = s.drop_last();
        assert(keys_distinct(p)) by {
            assert forall|i: int, j: int|
                0 <= i < p.len() && 0 <= j < p.len() && i != j implies p[i].0 != p[j].0 by {
                assert(s[i] == p[i] && s[j] == p[j]);
            }
        }
        lemma_keyed_map(p);
        let last = s.last();
        assert(!keyed_map(p).contains_key(last.0)) by {
            if keyed_map(p).contains_key(last.0) {
                let i = choose|i: int| 0 <= i < p.len() && p[i].0 == last.0;
                assert(s[i] == p[i]);
                assert(s[s.len() - 1] == last);
            }
        }
        assert forall|i: int| 0 <= i < s.len() implies #[trigger] keyed_map(s).contains_key(s[i].0)
            && keyed_map(s)[s[i].0] == s[i].1 by {
            if i < s.len() - 1 {
                assert(s[i] == p[i]);
                assert(s[i].0 != last.0);
            }
        }
        assert forall|k: K| #[trigger] keyed_map(s).contains_key(k) implies exists|i: int|
            0 <= i < s.len() && s[i].0 == k by {
            if k == last.0 {
                assert(s[s.len() - 1].0 == k);
            } else {
                let i = choose|i: int| 0 <= i < p.len() && p[i].0 == k;
                assert(s[i] == p[i]);
            }
        }
    }
}

/// Appending an entry with a new key adds that key to the map.
pub proof fn lemma_keyed_push<K, V>(s: Seq<(K, V)>, e: (K, V))
    requires
        keys_distinct(s),
        !keyed_map(s).contains_key(e.0),
    ensures
        keys_distinct(s.push(e)),
        keyed_map(s.push(e)) == keyed_map(s).insert(e.0, e.1),
{
    lemma_keyed_map(s);
    let t = s.push(e);
    assert(t.drop_last() =~= s);
    assert forall|i: int, j: int|
        0 <= i < t.len() && 0 <= j < t.len() && i != j implies t[i].0 != t[j].0 by {
        if i < s.len() && j < s.len() {
            assert(t[i] == s[i] && t[j] == s[j]);
        } else if i < s.len() {
            assert(t[i] == s[i]);
            assert(keyed_map(s).contains_key(s[i].0));
        } else {
            assert(t[j] == s[j]);
            assert(keyed_map(s).contains_key(s[j].0));
        }
    }
}

/// Removing an entry removes its key from the map.
pub proof fn lemma_keyed_remove<K, V>(s: Seq<(K, V)>, i: int)
    requires
        keys_distinct(s),
        0 <= i < s.len(),
    ensures
        keys_distinct(s.remove(i)),
        keyed_map(s.remove(i)) == keyed_map(s).remove(s[i].0),
{
    let t = s.remove(i);
    assert forall|a: int, b: int|
        0 <= a < t.len() && 0 <= b < t.len() && a != b implies t[a].0 != t[b].0 by {
        let a2 = if a < i { a } else { a + 1 };
        let b2 = if b < i { b } else { b + 1 };
        assert(t[a] == s[a2] && t[b] == s[b2]);
    }
    lemma_keyed_map(s);
    lemma_keyed_map(t);
    let m = keyed_map(s).remove(s[i].0);
    assert forall|k: K| #[trigger] m.contains_key(k) implies keyed_map(t).contains_key(k)
        && keyed_map(t)[k] == m[k] by {
        let j = choose|j: int| 0 <= j < s.len() && s[j].0 == k;
        assert(j != i);
        let j2 = if j < i { j } else { j - 1 };
        assert(t[j2] == s[j]);
    }
    assert forall|k: K| #[trigger] keyed_map(t).contains_key(k) implies m.contains_key(k) by {
        let j = choose|j: int| 0 <= j < t.len() && t[j].0 == k;
        let j2 = if j < i { j } else { j + 1 };
        assert(t[j] == s[j2]);
        assert(j2 != i);
    }
    assert(keyed_map(t) =~= m);
}

/// Keeping the entries that satisfy `p` keeps exactly the keys whose entry
/// satisfies `p`.
pub proof fn lemma_keyed_filter<K, V>(s: Seq<(K, V)>, p: spec_fn((K, V)) -> bool)
    requires
        keys_distinct(s),
    ensures
        keys_distinct(s.filter(p)),
        keyed_map(s.filter(p)) == keyed_map(s).restrict(
            Set::new(|k: K| keyed_map(s).contains_key(k) && p((k, keyed_map(s)[k]))),
        ),
    decreases s.len(),
{
    reveal_with_fuel(Seq::filter, 1);
    if s.len() > 0 {
        let q = s.drop_last();
        assert(keys_distinct(q)) by {
            assert forall|i: int, j: int|
                0 <= i < q.len() && 0 <= j < q.len() && i != j implies q[i].0 != q[j].0 by {
                assert(s[i] == q[i] && s[j] == q[j]);
            }
        }
        lemma_keyed_filter(q, p);
        lemma_keyed_map(s);
        lemma_keyed_map(q);
        let last = s.last();
        assert(!keyed_map(q).contains_key(last.0)) by {
            if keyed_map(q).contains_key(last.0) {
                let i = choose|i: int| 0 <= i < q.len() && q[i].0 == last.0;
                assert(s[i] == q[i]);
                assert(s[s.len() - 1] == last);
            }
        }
        assert(s.filter(p) == if p(last) {
            q.filter(p).push(last)
        } else {
            q.filter(p)
        });
        let fq = keyed_map(q.filter(p));
        if p(last) {
            assert(!fq.contains_key(last.0));
            lemma_keyed_push(q.filter(p), last);
        }
        let lhs = keyed_map(s.filter(p));
        let rhs = keyed_map(s).restrict(
            Set::new(|k: K| keyed_map(s).contains_key(k) && p((k, keyed_map(s)[k]))),
        );
        assert(keyed_map(s) == keyed_map(q).insert(last.0, last.1));
        assert(lhs =~= rhs);
    }
}

} // verus!
