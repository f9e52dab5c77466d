//! Small association tables keyed by rule or type names.
use vstd::prelude::*;

verus! {

/// No name occurs twice among the entries.
pub open spec fn keys_distinct<V>(s: Seq<(String, V)>) -> bool {
    forall|i: int, j: int|
        0 <= i < s.len() && 0 <= j < s.len() && i != j ==> (#[trigger] s[i]).0@ != (#[trigger] s[j]).0@
}

/// Some entry is named `k`.
pub open spec fn has_key<V>(s: Seq<(String, V)>, k: Seq<char>) -> bool {
    exists|i: int| 0 <= i < s.len() && (#[trigger] s[i]).0@ == k
}

/// Position of the entry named `k` (meaningful when `has_key`).
pub open spec fn key_pos<V>(s: Seq<(String, V)>, k: Seq<char>) -> int {
    choose|i: int| 0 <= i < s.len() && (#[trigger] s[i]).0@ == k
}

/// Value stored under `k` (meaningful when `has_key`).
pub open spec fn value_of<V>(s: Seq<(String, V)>, k: Seq<char>) -> V {
    s[key_pos(s, k)].1
}

/// The entries seen as a map from names to values.
pub open spec fn table_map<V>(s: Seq<(String, V)>) -> Map<Seq<char>, V> {
    Map::new(|k: Seq<char>| has_key(s, k), |k: Seq<char>| value_of(s, k))
}

/// With distinct names, the entry found under a name is the one at its position.
pub proof fn lemma_key_pos_unique<V>(s: Seq<(String, V)>, i: int)
    requires
        keys_distinct(s),
        0 <= i < s.len(),
    ensures
        has_key(s, s[i].0@),
        key_pos(s, s[i].0@) == i,
        value_of(s, s[i].0@) == s[i].1,
{
    let k = s[i].0@;
    assert(has_key(s, k));
    let p = key_pos(s, k);
    assert(s[p].0@ == k);
}

/// Replacing the value at position `i` changes the map at that name only.
pub proof fn lemma_table_update<V>(s: Seq<(String, V)>, i: int, v: V)
    requires
        keys_distinct(s),
        0 <= i < s.len(),
    ensures
        keys_distinct(s.update(i, (s[i].0, v))),
        table_map(s.update(i, (s[i].0, v))) == table_map(s).insert(s[i].0@, v),
{
    let t = s.update(i, (s[i].0, v));
    assert forall|a: int, b: int|
        0 <= a < t.len() && 0 <= b < t.len() && a != b implies (#[trigger] t[a]).0@ != (#[trigger] t[b]).0@ by {
        assert(t[a].0@ == s[a].0@);
        assert(t[b].0@ == s[b].0@);
    }
    assert forall|k: Seq<char>| #[trigger] has_key(t, k) <==> has_key(s, k) by {
        if has_key(t, k) {
            let p = choose|p: int| 0 <= p < t.len() && (#[trigger] t[p]).0@ == k;
            assert(s[p].0@ == k);
        }
        if has_key(s, k) {
            let p = choose|p: int| 0 <= p < s.len() && (#[trigger] s[p]).0@ == k;
            assert(t[p].0@ == k);
        }
    }
    assert forall|k: Seq<char>| has_key(t, k) implies #[trigger] value_of(t, k) == (if k == s[i].0@ {
        v
    } else {
        value_of(s, k)
    }) by {
        let p = key_pos(t, k);
        assert(t[p].0@ == k);
        lemma_key_pos_unique(t, p);
        lemma_key_pos_unique(s, p);
    }
    assert(table_map(t) =~= table_map(s).insert(s[i].0@, v));
}

/// Appending an entry under a fresh name adds that name to the map.
pub proof fn lemma_table_push<V>(s: Seq<(String, V)>, name: String, v: V)
    requires
        keys_distinct(s),
        !has_key(s, name@),
    ensures
        keys_distinct(s.push((name, v))),
        table_map(s.push((name, v))) == table_map(s).insert(name@, v),
{
    let t = s.push((name, v));
    assert forall|a: int, b: int|
        0 <= a < t.len() && 0 <= b < t.len() && a != b implies (#[trigger] t[a]).0@ != (#[trigger] t[b]).0@ by {
        if a < s.len() && b < s.len() {
            assert(t[a] == s[a]);
            assert(t[b] == s[b]);
        } else if a < s.len() {
            assert(t[a] == s[a]);
        } else {
            assert(t[b] == s[b]);
        }
    }
    assert forall|k: Seq<char>| #[trigger] has_key(t, k) <==> (has_key(s, k) || k == name@) by {
        if has_key(t, k) {
            let p = choose|p: int| 0 <= p < t.len() && (#[trigger] t[p]).0@ == k;
            if p < s.len() {
                assert(s[p].0@ == k);
            }
        }
        if has_key(s, k) {
            let p = choose|p: int| 0 <= p < s.len() && (#[trigger] s[p]).0@ == k;
            assert(t[p].0@ == k);
        }
        if k == name@ {
            assert(t[s.len() as int].0@ == k);
        }
    }
    assert forall|k: Seq<char>| has_key(t, k) implies #[trigger] value_of(t, k) == (if k == name@ {
        v
    } else {
        value_of(s, k)
    }) by {
        let p = key_pos(t, k);
        assert(t[p].0@ == k);
        lemma_key_pos_unique(t, p);
        if p < s.len() {
            assert(t[p] == s[p]);
            lemma_key_pos_unique(s, p);
        }
    }
    assert(table_map(t) =~= table_map(s).insert(name@, v));
}

/// Removing the entry at position `i` removes its name from the map.
pub proof fn lemma_table_remove<V>(s: Seq<(String, V)>, i: int)
    requires
        keys_distinct(s),
        0 <= i < s.len(),
    ensures
        keys_distinct(s.remove(i)),
        table_map(s.remove(i)) == table_map(s).remove(s[i].0@),
{
    let t = s.remove(i);
    assert forall|a: int| 0 <= a < t.len() implies #[trigger] t[a] == (if a < i {
        s[a]
    } else {
        s[a + 1]
    }) by {}
    assert forall|a: int, b: int|
        0 <= a < t.len() && 0 <= b < t.len() && a != b implies (#[trigger] t[a]).0@ != (#[trigger] t[b]).0@ by {
        let sa = if a < i { a } else { a + 1 };
        let sb = if b < i { b } else { b + 1 };
        assert(t[a] == s[sa]);
        assert(t[b] == s[sb]);
    }
    assert forall|k: Seq<char>| #[trigger] has_key(t, k) <==> (has_key(s, k) && k != s[i].0@) by {
        if has_key(t, k) {
            let p = choose|p: int| 0 <= p < t.len() && (#[trigger] t[p]).0@ == k;
            let sp = if p < i { p } else { p + 1 };
            assert(t[p] == s[sp]);
            assert(s[sp].0@ == k);
        }
        if has_key(s, k) && k != s[i].0@ {
            let p = choose|p: int| 0 <= p < s.len() && (#[trigger] s[p]).0@ == k;
            let tp = if p < i { p } else { p - 1 };
            assert(t[tp] == s[p]);
        }
    }
    assert forall|k: Seq<char>| has_key(t, k) implies #[trigger] value_of(t, k) == value_of(s, k) by {
        let p = key_pos(t, k);
        assert(t[p].0@ == k);
        lemma_key_pos_unique(t, p);
        let sp = if p < i { p } else { p + 1 };
        assert(t[p] == s[sp]);
        lemma_key_pos_unique(s, sp);
    }
    assert(table_map(t) =~= table_map(s).remove(s[i].0@));
}

/// Looks up the position of the entry named `key`.
pub fn find_key<V>(entries: &Vec<(String, V)>, key: &str) -> (r: Option<usize>)
    requires
        keys_distinct(entries@),
    ensures
        r matches Some(i) ==> i < entries@.len() && entries@[i as int].0@ == key@ && key_pos(
            entries@,
            key@,
        ) == i,
        r is None ==> !has_key(entries@, key@),
        r is Some <==> has_key(entries@, key@),
{
    let k = key.to_owned();
    let mut i: usize = 0;
    while i < entries.len()
        invariant
            i <= entries@.len(),
            k@ == key@,
            keys_distinct(entries@),
            forall|j: int| 0 <= j < i ==> (#[trigger] entries@[j]).0@ != key@,
        decreases entries@.len() - i,
    {
        if entries[i].0 == k {
            proof {
                lemma_key_pos_unique(entries@, i as int);
            }
            return Some(i);
        }
        i = i + 1;
    }
    None
}

} // verus!
