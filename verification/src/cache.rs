//! A bounded key/value store that evicts the least recently used entry.
//!
//! Recency and eviction are kept by an `lru::LruCache` that maps each key to
//! the slot of its value; the values live in a vector owned by the cache.

use vstd::prelude::*;
use crate::config::{cache_size_from_json, cache_size_spec, Config};
use crate::errors::AiCoreError;

verus! {

/// `lru::LruCache`, held as it is: nothing inside it is visible to proofs.
#[verifier::external_type_specification]
#[verifier::external_body]
#[verifier::reject_recursive_types(K)]
#[verifier::reject_recursive_types(V)]
#[verifier::reject_recursive_types(S)]
pub struct ExLruCache<K, V, S>(lru::LruCache<K, V, S>);

/// `lru::DefaultHasher`, the hasher that an `LruCache` is made with.
#[verifier::external_type_specification]
#[verifier::external_body]
pub struct ExLruHasher(lru::DefaultHasher);

/// What an `LruCache` holds: its key/value pairs, most recently used first.
pub uninterp spec fn lru_entries(c: lru::LruCache<String, usize>) -> Seq<(Seq<char>, usize)>;

/// The number of pairs an `LruCache` was made to hold at most.
pub uninterp spec fn lru_limit(c: lru::LruCache<String, usize>) -> nat;

/// `key` is the key of the pair at position `i`.
pub open spec fn key_at<V>(s: Seq<(Seq<char>, V)>, key: Seq<char>, i: int) -> bool {
    0 <= i < s.len() && s[i].0 == key
}

/// Some pair has the key `key`.
pub open spec fn has_key<V>(s: Seq<(Seq<char>, V)>, key: Seq<char>) -> bool {
    exists|i: int| key_at(s, key, i)
}

/// No key occurs twice.
pub open spec fn distinct_keys<V>(s: Seq<(Seq<char>, V)>) -> bool {
    forall|i: int, j: int| 0 <= i < j < s.len() ==> (#[trigger] s[i]).0 != (#[trigger] s[j]).0
}

/// The pair at position `i` moved to the front.
pub open spec fn promoted<V>(s: Seq<(Seq<char>, V)>, i: int) -> Seq<(Seq<char>, V)> {
    seq![s[i]] + s.remove(i)
}

/// `LruCache::new`: an empty cache that holds at most `cap` pairs. The
/// outside constructor takes a non-zero capacity, so zero is left out.
#[verifier::external_body]
fn lru_new(cap: usize) -> (c: lru::LruCache<String, usize>)
    requires
        cap >= 1,
    ensures
        lru_entries(c) == Seq::<(Seq<char>, usize)>::empty(),
        lru_limit(c) == cap,
{
    lru::LruCache::new(std::num::NonZeroUsize::new(cap).unwrap())
}

/// `LruCache::len`: the number of pairs held.
#[verifier::external_body]
fn lru_len(c: &lru::LruCache<String, usize>) -> (n: usize)
    ensures
        n == lru_entries(*c).len(),
{
    c.len()
}

/// `LruCache::cap`: the limit the cache was made with.
#[verifier::external_body]
fn lru_cap(c: &lru::LruCache<String, usize>) -> (n: usize)
    ensures
        n == lru_limit(*c),
{
    c.cap().get()
}

/// `LruCache::get`: the value under `key`, if any; a key that is found
/// moves to the front, and nothing else changes.
#[verifier::external_body]
fn lru_get(c: &mut lru::LruCache<String, usize>, key: &str) -> (r: Option<usize>)
    ensures
        lru_limit(*final(c)) == lru_limit(*old(c)),
        match r {
            Some(v) => exists|i: int|
                key_at(lru_entries(*old(c)), key@, i) && lru_entries(*old(c))[i].1 == v
                    && lru_entries(*final(c)) == promoted(lru_entries(*old(c)), i),
            None => !has_key(lru_entries(*old(c)), key@) && lru_entries(*final(c))
                == lru_entries(*old(c)),
        },
{
    c.get(key).copied()
}

/// `LruCache::put`: stores `value` under `key` at the front. A key already
/// held keeps its place in the count and hands back its old value; a new key
/// in a full cache pushes out the pair at the back.
#[verifier::external_body]
fn lru_put(c: &mut lru::LruCache<String, usize>, key: String, value: usize) -> (r: Option<usize>)
    ensures
        lru_limit(*final(c)) == lru_limit(*old(c)),
        match r {
            Some(v) => exists|i: int|
                key_at(lru_entries(*old(c)), key@, i) && lru_entries(*old(c))[i].1 == v
                    && lru_entries(*final(c)) == seq![(key@, value)] + lru_entries(
                    *old(c),
                ).remove(i),
            None => !has_key(lru_entries(*old(c)), key@) && lru_entries(*final(c)) == seq![
                (key@, value),
            ] + (if lru_entries(*old(c)).len() == lru_limit(*old(c)) {
                lru_entries(*old(c)).drop_last()
            } else {
                lru_entries(*old(c))
            }),
        },
{
    c.put(key, value)
}

/// `LruCache::pop_lru`: removes and returns the pair at the back, if any.
#[verifier::external_body]
fn lru_pop_lru(c: &mut lru::LruCache<String, usize>) -> (r: Option<(String, usize)>)
    ensures
        lru_limit(*final(c)) == lru_limit(*old(c)),
        match r {
            Some(pair) => lru_entries(*old(c)).len() > 0 && (pair.0@, pair.1) == lru_entries(
                *old(c),
            ).last() && lru_entries(*final(c)) == lru_entries(*old(c)).drop_last(),
            None => lru_entries(*old(c)).len() == 0 && lru_entries(*final(c)) == lru_entries(
                *old(c),
            ),
        },
{
    c.pop_lru()
}

/// `LruCache::clear`: removes every pair and keeps the limit.
#[verifier::external_body]
fn lru_clear(c: &mut lru::LruCache<String, usize>)
    ensures
        lru_limit(*final(c)) == lru_limit(*old(c)),
        lru_entries(*final(c)) == Seq::<(Seq<char>, usize)>::empty(),
{
    c.clear()
}

/// Counters and sizes of a cache, for monitoring.
#[derive(Clone, Copy, Debug, PartialEq, Eq, Structural)]
pub struct CacheStats {
    pub size: usize,
    pub capacity: usize,
    pub hits: u64,
    pub misses: u64,
    pub evictions: u64,
}

/// `n + 1`, held at the largest value once it is reached.
pub open spec fn bump(n: u64) -> u64 {
    if n == u64::MAX {
        n
    } else {
        (n + 1) as u64
    }
}

fn bumped(n: u64) -> (m: u64)
    ensures
        m == bump(n),
{
    if n == u64::MAX {
        n
    } else {
        n + 1
    }
}

/// The entries after `key` was looked up: a key that is held moves to the front.
pub open spec fn after_get<V>(s: Seq<(Seq<char>, V)>, key: Seq<char>) -> Seq<(Seq<char>, V)> {
    if has_key(s, key) {
        promoted(s, choose|i: int| key_at(s, key, i))
    } else {
        s
    }
}

/// The value held under `key`.
pub open spec fn value_of<V>(s: Seq<(Seq<char>, V)>, key: Seq<char>) -> V {
    s[choose|i: int| key_at(s, key, i)].1
}

/// The entries after `value` was stored under `key` in a cache limited to
/// `limit` entries: the pair stands at the front; an earlier pair of the
/// same key is gone; otherwise, in a full cache, the pair at the back is gone.
pub open spec fn after_insert<V>(s: Seq<(Seq<char>, V)>, key: Seq<char>, value: V, limit: nat) -> Seq<
    (Seq<char>, V),
> {
    if has_key(s, key) {
        seq![(key, value)] + s.remove(choose|i: int| key_at(s, key, i))
    } else if s.len() >= limit {
        seq![(key, value)] + s.drop_last()
    } else {
        seq![(key, value)] + s
    }
}

/// The pairs of `s` with `f` applied to each value.
pub open spec fn map_values<V, W>(s: Seq<(Seq<char>, V)>, f: spec_fn(V) -> W) -> Seq<
    (Seq<char>, W),
> {
    Seq::new(s.len(), |i: int| (s[i].0, f(s[i].1)))
}

/// Looking up and storing commute with a change of the values' form, as
/// long as no key occurs twice.
pub proof fn lemma_map_values<V, W>(
    s: Seq<(Seq<char>, V)>,
    f: spec_fn(V) -> W,
    key: Seq<char>,
    value: V,
    limit: nat,
)
    requires
        distinct_keys(s),
        limit >= 1,
    ensures
        distinct_keys(map_values(s, f)),
        has_key(map_values(s, f), key) == has_key(s, key),
        has_key(s, key) ==> value_of(map_values(s, f), key) == f(value_of(s, key)),
        map_values(after_get(s, key), f) == after_get(map_values(s, f), key),
        map_values(after_insert(s, key, value, limit), f) == after_insert(
            map_values(s, f),
            key,
            f(value),
            limit,
        ),
{
    let m = map_values(s, f);
    if has_key(s, key) {
        let i = choose|i: int| key_at(s, key, i);
        assert(key_at(m, key, i));
        let j = choose|j: int| key_at(m, key, j);
        assert(i == j) by {
            if i < j {
                assert(s[i].0 != s[j].0);
            } else if j < i {
                assert(s[j].0 != s[i].0);
            }
        }
        assert(map_values(after_get(s, key), f) =~= after_get(m, key));
        assert(map_values(after_insert(s, key, value, limit), f) =~= after_insert(
            m,
            key,
            f(value),
            limit,
        ));
    } else {
        if has_key(m, key) {
            let j = choose|j: int| key_at(m, key, j);
            assert(key_at(s, key, j));
        }
        assert(map_values(after_insert(s, key, value, limit), f) =~= after_insert(
            m,
            key,
            f(value),
            limit,
        ));
    }
}

/// What storing and looking up do to well-formed entries: the stored pair
/// stands at the front and is found again, the limit holds, no key occurs
/// twice, and a key that was held before keeps the number of entries.
pub proof fn lemma_after_insert<V>(s: Seq<(Seq<char>, V)>, key: Seq<char>, value: V, limit: nat)
    requires
        distinct_keys(s),
        s.len() <= limit,
        limit >= 1,
    ensures
        distinct_keys(after_insert(s, key, value, limit)),
        after_insert(s, key, value, limit).len() <= limit,
        after_insert(s, key, value, limit)[0] == (key, value),
        has_key(after_insert(s, key, value, limit), key),
        value_of(after_insert(s, key, value, limit), key) == value,
        has_key(s, key) ==> after_insert(s, key, value, limit).len() == s.len(),
        !has_key(s, key) && s.len() == limit ==> after_insert(s, key, value, limit) == seq![
            (key, value),
        ] + s.drop_last(),
{
    let t = after_insert(s, key, value, limit);
    assert(key_at(t, key, 0));
    if has_key(s, key) {
        let i = choose|i: int| key_at(s, key, i);
        assert forall|a: int, b: int| 0 <= a < b < t.len() implies (#[trigger] t[a]).0 != (
        #[trigger] t[b]).0 by {
            let ib = if b <= i { b - 1 } else { b };
            assert(t[b] == s[ib]);
            if a == 0 {
                if ib < i {
                    assert(s[ib].0 != s[i].0);
                } else {
                    assert(s[i].0 != s[ib].0);
                }
            } else {
                let ia = if a <= i { a - 1 } else { a };
                assert(t[a] == s[ia]);
                assert(s[ia].0 != s[ib].0);
            }
        }
    } else {
        assert forall|a: int, b: int| 0 <= a < b < t.len() implies (#[trigger] t[a]).0 != (
        #[trigger] t[b]).0 by {
            assert(t[b] == s[b - 1]);
            if a == 0 {
                assert(!key_at(s, key, b - 1));
            } else {
                assert(t[a] == s[a - 1]);
                assert(s[a - 1].0 != s[b - 1].0);
            }
        }
    }
    let c = choose|c: int| key_at(t, key, c);
    assert(c == 0) by {
        if c > 0 {
            assert(t[0].0 != t[c].0);
        }
    }
}

/// What a lookup does to well-formed entries: nothing is added or lost, and
/// a key that is held stands at the front afterwards.
pub proof fn lemma_after_get<V>(s: Seq<(Seq<char>, V)>, key: Seq<char>)
    requires
        distinct_keys(s),
    ensures
        distinct_keys(after_get(s, key)),
        after_get(s, key).len() == s.len(),
        has_key(s, key) ==> after_get(s, key)[0] == (key, value_of(s, key)) && has_key(
            after_get(s, key),
            key,
        ) && value_of(after_get(s, key), key) == value_of(s, key),
{
    let t = after_get(s, key);
    if has_key(s, key) {
        let i = choose|i: int| key_at(s, key, i);
        assert(key_at(t, key, 0));
        assert forall|a: int, b: int| 0 <= a < b < t.len() implies (#[trigger] t[a]).0 != (
        #[trigger] t[b]).0 by {
            let ib = if b <= i { b - 1 } else { b };
            assert(t[b] == s[ib]);
            if a == 0 {
                if ib < i {
                    assert(s[ib].0 != s[i].0);
                } else {
                    assert(s[i].0 != s[ib].0);
                }
            } else {
                let ia = if a <= i { a - 1 } else { a };
                assert(t[a] == s[ia]);
                assert(s[ia].0 != s[ib].0);
            }
        }
        let c = choose|c: int| key_at(t, key, c);
        assert(c == 0) by {
            if c > 0 {
                assert(t[0].0 != t[c].0);
            }
        }
    }
}

/// The error that rejects a cache of size zero.
pub open spec fn zero_size_error(e: AiCoreError) -> bool {
    e matches AiCoreError::InvalidArgument { message } && message@ == "cache max_size cannot be 0"@
}

/// A bounded store from text keys to values with least-recently-used eviction.
pub struct Cache<V> {
    index: lru::LruCache<String, usize>,
    slots: Vec<V>,
    hits: u64,
    misses: u64,
    evictions: u64,
}

impl<V> Cache<V> {
    /// The pairs held, most recently used first.
    pub closed spec fn view(&self) -> Seq<(Seq<char>, V)> {
        Seq::new(
            lru_entries(self.index).len(),
            |i: int| (lru_entries(self.index)[i].0, self.slots@[lru_entries(self.index)[i].1 as int]),
        )
    }

    /// The fixed limit on the number of pairs.
    pub closed spec fn limit(&self) -> nat {
        lru_limit(self.index)
    }

    /// How many lookups found their key.
    pub closed spec fn hit_count(&self) -> u64 {
        self.hits
    }

    /// How many lookups did not find their key.
    pub closed spec fn miss_count(&self) -> u64 {
        self.misses
    }

    /// How many pairs were pushed out by new keys.
    pub closed spec fn eviction_count(&self) -> u64 {
        self.evictions
    }

    /// Every key names exactly one slot and every slot belongs to one key.
    pub closed spec fn wf(&self) -> bool {
        let e = lru_entries(self.index);
        &&& 1 <= lru_limit(self.index) <= usize::MAX
        &&& e.len() == self.slots@.len()
        &&& e.len() <= lru_limit(self.index)
        &&& distinct_keys(e)
        &&& forall|i: int| 0 <= i < e.len() ==> (#[trigger] e[i]).1 < self.slots@.len()
        &&& forall|i: int, j: int|
            0 <= i < j < e.len() ==> (#[trigger] e[i]).1 != (#[trigger] e[j]).1
    }

    /// A well-formed cache never holds more than its limit, and no key twice.
    pub proof fn lemma_bounded(&self)
        requires
            self.wf(),
        ensures
            self@.len() <= self.limit(),
            self.limit() >= 1,
            distinct_keys(self@),
    {
    }

    /// An empty cache for at most `capacity` pairs; a capacity of zero is rejected.
    pub fn new(capacity: usize) -> (r: Result<Self, AiCoreError>)
        ensures
            capacity == 0 ==> r is Err && zero_size_error(r->Err_0),
            capacity > 0 ==> r is Ok && r->Ok_0.wf() && r->Ok_0@.len() == 0 && r->Ok_0.limit()
                == capacity && r->Ok_0.hit_count() == 0 && r->Ok_0.miss_count() == 0
                && r->Ok_0.eviction_count() == 0,
    {
        if capacity == 0 {
            return Err(AiCoreError::invalid_arg("cache max_size cannot be 0"));
        }
        let cache = Cache {
            index: lru_new(capacity),
            slots: Vec::new(),
            hits: 0,
            misses: 0,
            evictions: 0,
        };
        assert(cache@ =~= Seq::<(Seq<char>, V)>::empty());
        Ok(cache)
    }

    /// An empty cache of the size under `/cache/max_size`, 100 where the
    /// configuration names none; a size of zero is rejected.
    pub fn from_config(config: &Config) -> (r: Result<Self, AiCoreError>)
        ensures
            match r {
                Ok(cache) => cache_size_spec(config.lookup("/cache/max_size"@)) > 0 && cache.wf()
                    && cache@.len() == 0 && cache.limit() == cache_size_spec(
                    config.lookup("/cache/max_size"@),
                ) && cache.hit_count() == 0 && cache.miss_count() == 0 && cache.eviction_count()
                    == 0,
                Err(e) => zero_size_error(e) && cache_size_spec(config.lookup("/cache/max_size"@))
                    == 0,
            },
    {
        let size = cache_size_from_json(&config.get("/cache/max_size"));
        Cache::new(size)
    }

    /// The number of pairs held.
    pub fn len(&self) -> (n: usize)
        ensures
            n == self@.len(),
    {
        lru_len(&self.index)
    }

    /// The number of pairs held; the same as `len`.
    pub fn size(&self) -> (n: usize)
        ensures
            n == self@.len(),
    {
        lru_len(&self.index)
    }

    /// The most pairs the cache holds.
    pub fn capacity(&self) -> (n: usize)
        ensures
            n == self.limit(),
    {
        lru_cap(&self.index)
    }

    /// Whether the cache holds nothing.
    pub fn is_empty(&self) -> (b: bool)
        ensures
            b == (self@.len() == 0),
    {
        lru_len(&self.index) == 0
    }

    /// Removes every pair; the limit and the counters stay.
    pub fn clear(&mut self)
        requires
            old(self).wf(),
        ensures
            final(self).wf(),
            final(self)@.len() == 0,
            final(self).limit() == old(self).limit(),
            final(self).hit_count() == old(self).hit_count(),
            final(self).miss_count() == old(self).miss_count(),
            final(self).eviction_count() == old(self).eviction_count(),
    {
        lru_clear(&mut self.index);
        self.slots.clear();
    }

    /// The sizes and counters at this moment.
    pub fn stats(&self) -> (s: CacheStats)
        ensures
            s.size == self@.len(),
            s.capacity == self.limit(),
            s.hits == self.hit_count(),
            s.misses == self.miss_count(),
            s.evictions == self.eviction_count(),
    {
        CacheStats {
            size: lru_len(&self.index),
            capacity: lru_cap(&self.index),
            hits: self.hits,
            misses: self.misses,
            evictions: self.evictions,
        }
    }

    /// Stores `value` under `key` and marks the pair most recently used. A
    /// key already held is updated in place of its old pair; a new key in a
    /// full cache evicts the least recently used pair first.
    pub fn insert(&mut self, key: String, value: V)
        requires
            old(self).wf(),
        ensures
            final(self).wf(),
            final(self).limit() == old(self).limit(),
            final(self)@ == after_insert(old(self)@, key@, value, old(self).limit()),
            final(self).hit_count() == old(self).hit_count(),
            final(self).miss_count() == old(self).miss_count(),
            final(self).eviction_count() == if !has_key(old(self)@, key@) && old(self)@.len()
                == old(self).limit() {
                bump(old(self).eviction_count())
            } else {
                old(self).eviction_count()
            },
    {
        let ghost e0 = lru_entries(self.index);
        let ghost s0 = self.slots@;
        let ghost v0 = self@;
        match lru_get(&mut self.index, key.as_str()) {
            Some(slot) => {
                let ghost i = choose|i: int|
                    key_at(e0, key@, i) && e0[i].1 == slot && lru_entries(self.index) == promoted(
                        e0,
                        i,
                    );
                self.slots[slot] = value;
                proof {
                    let e1 = lru_entries(self.index);
                    assert(key_at(v0, key@, i));
                    let c = choose|c: int| key_at(v0, key@, c);
                    assert(c == i) by {
                        if c < i {
                            assert(e0[c].0 != e0[i].0);
                        } else if i < c {
                            assert(e0[i].0 != e0[c].0);
                        }
                    }
                    assert forall|a: int| 0 <= a < e1.len() implies (#[trigger] e1[a]).1
                        < self.slots@.len() by {
                        if a > 0 {
                            assert(e1[a] == e0[if a <= i { a - 1 } else { a }]);
                        }
                    }
                    assert forall|a: int, b: int| 0 <= a < b < e1.len() implies (#[trigger] e1[a]).0
                        != (#[trigger] e1[b]).0 && e1[a].1 != e1[b].1 by {
                        let ia = if a == 0 { i } else if a <= i { a - 1 } else { a };
                        let ib = if b <= i { b - 1 } else { b };
                        assert(e1[a] == e0[ia]);
                        assert(e1[b] == e0[ib]);
                        if ia < ib {
                            assert(e0[ia].0 != e0[ib].0);
                            assert(e0[ia].1 != e0[ib].1);
                        } else {
                            assert(e0[ib].0 != e0[ia].0);
                            assert(e0[ib].1 != e0[ia].1);
                        }
                    }
                    let want = after_insert(v0, key@, value, lru_limit(self.index));
                    assert(self@.len() == want.len());
                    assert forall|a: int| 0 <= a < want.len() implies self@[a] == want[a] by {
                        if a > 0 {
                            let ia = if a <= i { a - 1 } else { a };
                            assert(e1[a] == e0[ia]);
                            if ia < i {
                                assert(e0[ia].1 != e0[i].1);
                            } else {
                                assert(e0[i].1 != e0[ia].1);
                            }
                            assert(want[a] == v0[ia]);
                        }
                    }
                    assert(self@ =~= want);
                }
            },
            None => {
                proof {
                    assert(!has_key(v0, key@)) by {
                        if has_key(v0, key@) {
                            let c = choose|c: int| key_at(v0, key@, c);
                            assert(key_at(e0, key@, c));
                        }
                    }
                }
                if lru_len(&self.index) == lru_cap(&self.index) {
                    match lru_pop_lru(&mut self.index) {
                        Some(pair) => {
                            let slot = pair.1;
                            proof {
                                assert(e0.last() == e0[e0.len() - 1]);
                            }
                            self.slots[slot] = value;
                            let _ = lru_put(&mut self.index, key, slot);
                            self.evictions = bumped(self.evictions);
                            proof {
                                let e1 = lru_entries(self.index);
                                let last = e0.len() - 1;
                                assert(!has_key(e0.drop_last(), key@)) by {
                                    if has_key(e0.drop_last(), key@) {
                                        let c = choose|c: int| key_at(e0.drop_last(), key@, c);
                                        assert(key_at(e0, key@, c));
                                    }
                                }
                                assert(e1 == seq![(key@, slot)] + e0.drop_last());
                                assert forall|a: int| 0 <= a < e1.len() implies (#[trigger] e1[a]).1
                                    < self.slots@.len() by {
                                    if a > 0 {
                                        assert(e1[a] == e0[a - 1]);
                                    }
                                }
                                assert forall|a: int, b: int|
                                    0 <= a < b < e1.len() implies (#[trigger] e1[a]).0 != (
                                #[trigger] e1[b]).0 && e1[a].1 != e1[b].1 by {
                                    assert(e1[b] == e0[b - 1]);
                                    if a == 0 {
                                        assert(!key_at(e0, key@, b - 1));
                                        assert(e0[b - 1].1 != e0[last].1);
                                    } else {
                                        assert(e1[a] == e0[a - 1]);
                                        assert(e0[a - 1].0 != e0[b - 1].0);
                                        assert(e0[a - 1].1 != e0[b - 1].1);
                                    }
                                }
                                let want = after_insert(v0, key@, value, lru_limit(self.index));
                                assert(want == seq![(key@, value)] + v0.drop_last());
                                assert(self@.len() == want.len());
                                assert forall|a: int| 0 <= a < want.len() implies self@[a]
                                    == want[a] by {
                                    if a > 0 {
                                        assert(e1[a] == e0[a - 1]);
                                        assert(e0[a - 1].1 != e0[last].1);
                                        assert(want[a] == v0[a - 1]);
                                    }
                                }
                                assert(self@ =~= want);
                            }
                        },
                        None => {
                            proof {
                                assert(false);
                            }
                        },
                    }
                } else {
                    let slot = self.slots.len();
                    self.slots.push(value);
                    let _ = lru_put(&mut self.index, key, slot);
                    proof {
                        let e1 = lru_entries(self.index);
                        assert(e1 == seq![(key@, slot)] + e0);
                        assert forall|a: int| 0 <= a < e1.len() implies (#[trigger] e1[a]).1
                            < self.slots@.len() by {
                            if a > 0 {
                                assert(e1[a] == e0[a - 1]);
                            }
                        }
                        assert forall|a: int, b: int| 0 <= a < b < e1.len() implies (
                        #[trigger] e1[a]).0 != (#[trigger] e1[b]).0 && e1[a].1 != e1[b].1 by {
                            assert(e1[b] == e0[b - 1]);
                            if a == 0 {
                                assert(!key_at(e0, key@, b - 1));
                            } else {
                                assert(e1[a] == e0[a - 1]);
                                assert(e0[a - 1].0 != e0[b - 1].0);
                                assert(e0[a - 1].1 != e0[b - 1].1);
                            }
                        }
                        let want = after_insert(v0, key@, value, lru_limit(self.index));
                        assert(want == seq![(key@, value)] + v0);
                        assert(self@.len() == want.len());
                        assert forall|a: int| 0 <= a < want.len() implies self@[a] == want[a] by {
                            if a > 0 {
                                assert(e1[a] == e0[a - 1]);
                                assert(want[a] == v0[a - 1]);
                            }
                        }
                        assert(self@ =~= want);
                    }
                }
            },
        }
    }

    /// The same as `insert`.
    pub fn put(&mut self, key: String, value: V)
        requires
            old(self).wf(),
        ensures
            final(self).wf(),
            final(self).limit() == old(self).limit(),
            final(self)@ == after_insert(old(self)@, key@, value, old(self).limit()),
            final(self).hit_count() == old(self).hit_count(),
            final(self).miss_count() == old(self).miss_count(),
            final(self).eviction_count() == if !has_key(old(self)@, key@) && old(self)@.len()
                == old(self).limit() {
                bump(old(self).eviction_count())
            } else {
                old(self).eviction_count()
            },
    {
        self.insert(key, value)
    }
}

impl<V: Clone> Cache<V> {
    /// A copy of the value held under `key`, if any. A key that is found
    /// becomes the most recently used and counts as a hit; one that is not
    /// counts as a miss.
    pub fn get(&mut self, key: &str) -> (r: Option<V>)
        requires
            old(self).wf(),
        ensures
            final(self).wf(),
            final(self).limit() == old(self).limit(),
            final(self)@ == after_get(old(self)@, key@),
            final(self).eviction_count() == old(self).eviction_count(),
            match r {
                Some(v) => has_key(old(self)@, key@) && cloned(value_of(old(self)@, key@), v)
                    && final(self).hit_count() == bump(old(self).hit_count())
                    && final(self).miss_count() == old(self).miss_count(),
                None => !has_key(old(self)@, key@) && final(self).hit_count() == old(self).hit_count() && final(self).miss_count() == bump(old(self).miss_count()),
            },
    {
        let ghost e0 = lru_entries(self.index);
        let ghost v0 = self@;
        match lru_get(&mut self.index, key) {
            Some(slot) => {
                let ghost i = choose|i: int|
                    key_at(e0, key@, i) && e0[i].1 == slot && lru_entries(self.index) == promoted(
                        e0,
                        i,
                    );
                self.hits = bumped(self.hits);
                proof {
                    let e1 = lru_entries(self.index);
                    assert(key_at(v0, key@, i));
                    let c = choose|c: int| key_at(v0, key@, c);
                    assert(c == i) by {
                        if c < i {
                            assert(e0[c].0 != e0[i].0);
                        } else if i < c {
                            assert(e0[i].0 != e0[c].0);
                        }
                    }
                    assert forall|a: int| 0 <= a < e1.len() implies (#[trigger] e1[a]).1
                        < self.slots@.len() by {
                        assert(e1[a] == e0[if a == 0 { i } else if a <= i { a - 1 } else { a }]);
                    }
                    assert forall|a: int, b: int| 0 <= a < b < e1.len() implies (#[trigger] e1[a]).0
                        != (#[trigger] e1[b]).0 && e1[a].1 != e1[b].1 by {
                        let ia = if a == 0 { i } else if a <= i { a - 1 } else { a };
                        let ib = if b <= i { b - 1 } else { b };
                        assert(e1[a] == e0[ia]);
                        assert(e1[b] == e0[ib]);
                        if ia < ib {
                            assert(e0[ia].0 != e0[ib].0);
                            assert(e0[ia].1 != e0[ib].1);
                        } else {
                            assert(e0[ib].0 != e0[ia].0);
                            assert(e0[ib].1 != e0[ia].1);
                        }
                    }
                    let want = after_get(v0, key@);
                    assert(self@.len() == want.len());
                    assert forall|a: int| 0 <= a < want.len() implies self@[a] == want[a] by {
                        let ia = if a == 0 { i } else if a <= i { a - 1 } else { a };
                        assert(e1[a] == e0[ia]);
                        assert(want[a] == v0[ia]);
                    }
                    assert(self@ =~= want);
                }
                Some(self.slots[slot].clone())
            },
            None => {
                self.misses = bumped(self.misses);
                proof {
                    assert(!has_key(v0, key@)) by {
                        if has_key(v0, key@) {
                            let c = choose|c: int| key_at(v0, key@, c);
                            assert(key_at(e0, key@, c));
                        }
                    }
                    assert(self@ =~= v0);
                }
                None
            },
        }
    }
}

} // verus!
