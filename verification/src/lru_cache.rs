//! The bounded least-recently-used cache of enforcement decisions, held in
//! `lru::LruCache` and specified over its entries in recency order.
use std::num::NonZeroUsize;
use vstd::prelude::*;
use crate::executor::DecisionCacheEntry;

verus! {

/// The LRU cache of the `lru` crate.
#[verifier::external_type_specification]
#[verifier::external_body]
#[verifier::reject_recursive_types(K)]
#[verifier::reject_recursive_types(V)]
#[verifier::reject_recursive_types(S)]
pub struct ExLruCache<K, V, S>(lru::LruCache<K, V, S>);

/// The hasher an LRU cache is made with by default.
#[verifier::external_type_specification]
#[verifier::external_body]
pub struct ExLruDefaultHasher(lru::DefaultHasher);

/// The entries of a decision cache, most recently used first.
pub uninterp spec fn lru_entries(c: lru::LruCache<u128, DecisionCacheEntry>) -> Seq<(u128, DecisionCacheEntry)>;

/// The capacity a decision cache was made with.
pub uninterp spec fn lru_capacity(c: lru::LruCache<u128, DecisionCacheEntry>) -> nat;

/// Whether some entry of `s` has key `k`.
pub open spec fn seq_has_key(s: Seq<(u128, DecisionCacheEntry)>, k: u128) -> bool {
    exists|i: int| 0 <= i < s.len() && #[trigger] s[i].0 == k
}

/// The position of an entry with key `k` in `s` (meaningful when there is one).
pub open spec fn seq_key_index(s: Seq<(u128, DecisionCacheEntry)>, k: u128) -> int {
    choose|i: int| 0 <= i < s.len() && #[trigger] s[i].0 == k
}

/// The value kept under `k`, if any.
pub open spec fn seq_lookup(s: Seq<(u128, DecisionCacheEntry)>, k: u128) -> Option<DecisionCacheEntry> {
    if seq_has_key(s, k) {
        Some(s[seq_key_index(s, k)].1)
    } else {
        None
    }
}

/// No key occurs twice.
pub open spec fn seq_keys_unique(s: Seq<(u128, DecisionCacheEntry)>) -> bool {
    forall|i: int, j: int| 0 <= i < s.len() && 0 <= j < s.len() && i != j ==> #[trigger] s[i].0 != #[trigger] s[j].0
}

/// What `push(k, v)` leaves in a cache of capacity `cap` that held `s`: the
/// new entry in front, after removing an older entry with the same key, or
/// else the least recently used entry when the cache is full.
pub open spec fn lru_after_push(s: Seq<(u128, DecisionCacheEntry)>, cap: nat, k: u128, v: DecisionCacheEntry) -> Seq<(u128, DecisionCacheEntry)> {
    if seq_has_key(s, k) {
        seq![(k, v)] + s.remove(seq_key_index(s, k))
    } else if s.len() >= cap {
        seq![(k, v)] + s.drop_last()
    } else {
        seq![(k, v)] + s
    }
}

/// What `push(k, v)` returns: the replaced entry with the same key, or else
/// the evicted least recently used entry, or nothing.
pub open spec fn lru_push_result(s: Seq<(u128, DecisionCacheEntry)>, cap: nat, k: u128, v: DecisionCacheEntry) -> Option<(u128, DecisionCacheEntry)> {
    if seq_has_key(s, k) {
        Some(s[seq_key_index(s, k)])
    } else if s.len() >= cap {
        Some(s.last())
    } else {
        None
    }
}

/// Wraps `lru::LruCache::new`: an empty cache that holds at most `cap`
/// entries, as the crate's source shows.
#[verifier::external_body]
pub fn lru_new(cap: usize) -> (c: lru::LruCache<u128, DecisionCacheEntry>)
    requires
        cap > 0,
    ensures
        lru_entries(c) == Seq::<(u128, DecisionCacheEntry)>::empty(),
        lru_capacity(c) == cap,
{
    lru::LruCache::new(NonZeroUsize::new(cap).unwrap())
}

/// Wraps `lru::LruCache::peek`: the value kept under `k`, without changing the
/// recency order.
#[verifier::external_body]
pub fn lru_peek<'a>(c: &'a lru::LruCache<u128, DecisionCacheEntry>, k: u128) -> (r: Option<&'a DecisionCacheEntry>)
    ensures
        match r {
            Some(e) => seq_lookup(lru_entries(*c), k) == Some(*e),
            None => seq_lookup(lru_entries(*c), k) is None,
        },
{
    c.peek(&k)
}

/// Wraps `lru::LruCache::push`: the entry goes in front; an entry with the
/// same key is replaced and returned, or else, when the cache is full, the
/// least recently used entry is evicted and returned.
#[verifier::external_body]
pub fn lru_push(c: &mut lru::LruCache<u128, DecisionCacheEntry>, k: u128, v: DecisionCacheEntry) -> (r: Option<(u128, DecisionCacheEntry)>)
    ensures
        lru_entries(*final(c)) == lru_after_push(lru_entries(*old(c)), lru_capacity(*old(c)), k, v),
        r == lru_push_result(lru_entries(*old(c)), lru_capacity(*old(c)), k, v),
        lru_capacity(*final(c)) == lru_capacity(*old(c)),
{
    c.push(k, v)
}

/// Wraps `lru::LruCache::pop`: removes and returns the value kept under `k`.
#[verifier::external_body]
pub fn lru_pop(c: &mut lru::LruCache<u128, DecisionCacheEntry>, k: u128) -> (r: Option<DecisionCacheEntry>)
    ensures
        r == seq_lookup(lru_entries(*old(c)), k),
        lru_entries(*final(c)) == (if seq_has_key(lru_entries(*old(c)), k) {
            lru_entries(*old(c)).remove(seq_key_index(lru_entries(*old(c)), k))
        } else {
            lru_entries(*old(c))
        }),
        lru_capacity(*final(c)) == lru_capacity(*old(c)),
{
    c.pop(&k)
}

/// Wraps `lru::LruCache::clear`: removes every entry.
#[verifier::external_body]
pub fn lru_clear(c: &mut lru::LruCache<u128, DecisionCacheEntry>)
    ensures
        lru_entries(*final(c)) == Seq::<(u128, DecisionCacheEntry)>::empty(),
        lru_capacity(*final(c)) == lru_capacity(*old(c)),
{
    c.clear()
}

/// A cache whose keys are unique and which holds no more than its capacity.
pub open spec fn lru_wf(s: Seq<(u128, DecisionCacheEntry)>, cap: nat) -> bool {
    &&& seq_keys_unique(s)
    &&& s.len() <= cap
    &&& cap > 0
}

/// Pushing keeps a well-formed cache well-formed, and afterwards `k` maps to
/// `v` while every other key maps to what it did, unless it was evicted.
pub proof fn lemma_push_wf(s: Seq<(u128, DecisionCacheEntry)>, cap: nat, k: u128, v: DecisionCacheEntry)
    requires
        lru_wf(s, cap),
    ensures
        lru_wf(lru_after_push(s, cap, k, v), cap),
        seq_lookup(lru_after_push(s, cap, k, v), k) == Some(v),
{
    let n = lru_after_push(s, cap, k, v);
    assert(n[0] == (k, v));
    if seq_has_key(s, k) {
        let i = seq_key_index(s, k);
        let r = s.remove(i);
        assert forall|a: int| 0 <= a < r.len() implies #[trigger] r[a].0 != k by {
            if a < i {
                assert(r[a] == s[a]);
            } else {
                assert(r[a] == s[a + 1]);
            }
        }
        assert forall|a: int, b: int| 0 <= a < n.len() && 0 <= b < n.len() && a != b implies #[trigger] n[a].0 != #[trigger] n[b].0 by {
            if a > 0 && b > 0 {
                let a2 = if a - 1 < i { a - 1 } else { a };
                let b2 = if b - 1 < i { b - 1 } else { b };
                assert(r[a - 1] == s[a2]);
                assert(r[b - 1] == s[b2]);
            } else if a == 0 {
                assert(n[b] == r[b - 1]);
            } else {
                assert(n[a] == r[a - 1]);
            }
        }
    } else if s.len() >= cap {
        let r = s.drop_last();
        assert forall|a: int, b: int| 0 <= a < n.len() && 0 <= b < n.len() && a != b implies #[trigger] n[a].0 != #[trigger] n[b].0 by {
            if a > 0 && b > 0 {
                assert(n[a] == s[a - 1]);
                assert(n[b] == s[b - 1]);
            } else if a == 0 {
                assert(n[b] == s[b - 1]);
            } else {
                assert(n[a] == s[a - 1]);
            }
        }
    } else {
        assert forall|a: int, b: int| 0 <= a < n.len() && 0 <= b < n.len() && a != b implies #[trigger] n[a].0 != #[trigger] n[b].0 by {
            if a > 0 && b > 0 {
                assert(n[a] == s[a - 1]);
                assert(n[b] == s[b - 1]);
            } else if a == 0 {
                assert(n[b] == s[b - 1]);
            } else {
                assert(n[a] == s[a - 1]);
            }
        }
    }
    assert(n[0].0 == k);
    assert(seq_has_key(n, k));
    let j = seq_key_index(n, k);
    assert(j == 0);
}

/// Popping keeps a well-formed cache well-formed and leaves nothing under `k`.
pub proof fn lemma_pop_wf(s: Seq<(u128, DecisionCacheEntry)>, cap: nat, k: u128)
    requires
        lru_wf(s, cap),
    ensures
        ({
            let n = if seq_has_key(s, k) { s.remove(seq_key_index(s, k)) } else { s };
            lru_wf(n, cap) && seq_lookup(n, k) is None
        }),
{
    if seq_has_key(s, k) {
        let i = seq_key_index(s, k);
        let r = s.remove(i);
        assert forall|a: int| 0 <= a < r.len() implies #[trigger] r[a].0 != k by {
            if a < i {
                assert(r[a] == s[a]);
            } else {
                assert(r[a] == s[a + 1]);
            }
        }
        assert forall|a: int, b: int| 0 <= a < r.len() && 0 <= b < r.len() && a != b implies #[trigger] r[a].0 != #[trigger] r[b].0 by {
            let a2 = if a < i { a } else { a + 1 };
            let b2 = if b < i { b } else { b + 1 };
            assert(r[a] == s[a2]);
            assert(r[b] == s[b2]);
        }
    }
}

} // verus!
