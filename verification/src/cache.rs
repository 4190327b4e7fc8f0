//! Bounded LRU cache for lyrics lookups.
//!
//! The cache maps a track identity to a resolved result: `Some(text)` for
//! lyrics that were found, `None` for a confirmed "no lyrics". Both occupy a
//! slot, so a negative result also prevents repeated remote lookups. The
//! model of a cache is a sequence of `(key, value)` pairs ordered by
//! recency: the entry at position 0 is the least recently touched and is
//! the one evicted when a new key would exceed the capacity. Touching a key
//! by `get` or `insert` moves it to the back.

use vstd::prelude::*;

verus! {

/// The recency-ordered model of a cache: least recently touched first.
pub type CacheModel = Seq<(Seq<char>, Option<Seq<char>>)>;

/// Whether some entry of `s` has the key `k`.
pub open spec fn has_key(s: CacheModel, k: Seq<char>) -> bool {
    exists|i: int| 0 <= i < s.len() && (#[trigger] s[i]).0 == k
}

/// The position of the entry with key `k` (meaningful when `has_key` and the
/// keys are distinct).
pub open spec fn key_at(s: CacheModel, k: Seq<char>) -> int {
    choose|i: int| 0 <= i < s.len() && (#[trigger] s[i]).0 == k
}

/// The value cached under `k` (meaningful when `has_key`).
pub open spec fn value_of(s: CacheModel, k: Seq<char>) -> Option<Seq<char>> {
    s[key_at(s, k)].1
}

/// No two entries share a key.
pub open spec fn distinct_keys(s: CacheModel) -> bool {
    forall|i: int, j: int| 0 <= i < j < s.len() ==> (#[trigger] s[i]).0 != (#[trigger] s[j]).0
}

/// The cache after a lookup of `k`: a hit moves the entry to the back
/// (most recently used); a miss changes nothing.
pub open spec fn cache_after_get(s: CacheModel, k: Seq<char>) -> CacheModel {
    if has_key(s, k) {
        let i = key_at(s, k);
        s.remove(i).push(s[i])
    } else {
        s
    }
}

/// The cache after `insert(k, v)` at capacity `cap`: an existing key is
/// overwritten and moved to the back; a new key is appended, after evicting
/// the least recently touched entry if the cache is full.
pub open spec fn cache_after_insert(
    s: CacheModel,
    cap: nat,
    k: Seq<char>,
    v: Option<Seq<char>>,
) -> CacheModel {
    if has_key(s, k) {
        s.remove(key_at(s, k)).push((k, v))
    } else if s.len() < cap {
        s.push((k, v))
    } else {
        s.subrange(1, s.len() as int).push((k, v))
    }
}

/// Bounded LRU cache from track identity to cached lyrics result.
pub struct LyricsCache {
    entries: Vec<(String, Option<String>)>,
    max_size: usize,
}

/// The model of one stored entry.
pub open spec fn entry_abs(e: (String, Option<String>)) -> (Seq<char>, Option<Seq<char>>) {
    (e.0@, e.1.deep_view())
}

impl View for LyricsCache {
    type V = CacheModel;

    closed spec fn view(&self) -> CacheModel {
        self.entries@.map_values(|e: (String, Option<String>)| entry_abs(e))
    }
}

impl LyricsCache {
    /// The fixed capacity the cache was created with.
    pub closed spec fn capacity(&self) -> nat {
        self.max_size as nat
    }

    /// Invariant: a positive capacity that the size never exceeds, and
    /// distinct keys.
    pub open spec fn wf(&self) -> bool {
        &&& 1 <= self.capacity()
        &&& self@.len() <= self.capacity()
        &&& distinct_keys(self@)
    }

    /// An empty cache holding at most `max_size` entries.
    pub fn new(max_size: usize) -> (r: LyricsCache)
        requires
            1 <= max_size,
        ensures
            r.wf(),
            r.capacity() == max_size,
            r@ == Seq::<(Seq<char>, Option<Seq<char>>)>::empty(),
    {
        let r = LyricsCache { entries: Vec::new(), max_size };
        proof {
            assert(r@ =~= Seq::<(Seq<char>, Option<Seq<char>>)>::empty());
        }
        r
    }

    /// The position of `key` among the entries, if present.
    fn position_of(&self, key: &String) -> (r: Option<usize>)
        ensures
            match r {
                Some(i) => i < self@.len() && self@[i as int].0 == key@,
                None => !has_key(self@, key@),
            },
    {
        let mut i: usize = 0;
        while i < self.entries.len()
            invariant
                0 <= i <= self.entries.len(),
                self@.len() == self.entries.len(),
                forall|j: int| 0 <= j < i ==> (#[trigger] self@[j]).0 != key@,
                forall|j: int|
                    0 <= j < self.entries@.len() ==> #[trigger] self@[j] == entry_abs(
                        self.entries@[j],
                    ),
            decreases self.entries.len() - i,
        {
            if self.entries[i].0 == *key {
                return Some(i);
            }
            i += 1;
        }
        None
    }

    /// Looks a track up; a hit marks the entry most recently used and
    /// returns the cached result, positive or negative.
    pub fn get(&mut self, track_id: &str) -> (r: Option<Option<String>>)
        requires
            old(self).wf(),
        ensures
            final(self).wf(),
            final(self).capacity() == old(self).capacity(),
            final(self)@ == cache_after_get(old(self)@, track_id@),
            match r {
                Some(v) => has_key(old(self)@, track_id@) && v.deep_view() == value_of(
                    old(self)@,
                    track_id@,
                ),
                None => !has_key(old(self)@, track_id@),
            },
    {
        let key: String = track_id.to_owned();
        match self.position_of(&key) {
            Some(i) => {
                proof {
                    lemma_key_at_is(self@, key@, i as int);
                }
                let ghost pre = self@;
                let e = self.entries.remove(i);
                let value: Option<String> = match &e.1 {
                    Some(s) => Some(s.clone()),
                    None => None,
                };
                self.entries.push(e);
                proof {
                    lemma_touch_shape(pre, i as int);
                    assert(self@ =~= pre.remove(i as int).push(pre[i as int]));
                    assert(value.deep_view() == pre[i as int].1);
                }
                Some(value)
            },
            None => None,
        }
    }

    /// Inserts or overwrites the result for a track, marking it most
    /// recently used; a new key on a full cache first evicts the least
    /// recently touched entry.
    pub fn insert(&mut self, track_id: String, lyrics: Option<String>)
        requires
            old(self).wf(),
        ensures
            final(self).wf(),
            final(self).capacity() == old(self).capacity(),
            final(self)@ == cache_after_insert(
                old(self)@,
                old(self).capacity(),
                track_id@,
                lyrics.deep_view(),
            ),
    {
        let ghost pre = self@;
        let ghost k = track_id@;
        let ghost v = lyrics.deep_view();
        match self.position_of(&track_id) {
            Some(i) => {
                proof {
                    lemma_key_at_is(pre, k, i as int);
                }
                self.entries.remove(i);
                self.entries.push((track_id, lyrics));
                proof {
                    assert(self@ =~= pre.remove(i as int).push((k, v)));
                    lemma_removed_key_absent(pre, i as int);
                    lemma_push_distinct(pre.remove(i as int), k, v);
                }
            },
            None => {
                if self.entries.len() == self.max_size {
                    self.entries.remove(0);
                    let ghost mid = self@;
                    proof {
                        assert(pre.remove(0) =~= pre.subrange(1, pre.len() as int));
                        assert(mid =~= pre.subrange(1, pre.len() as int));
                        lemma_removed_key_absent(pre, 0);
                        lemma_absent_key_stays_absent(pre, 0, k);
                        lemma_push_distinct(mid, k, v);
                    }
                    self.entries.push((track_id, lyrics));
                    proof {
                        assert(self@ =~= mid.push((k, v)));
                    }
                } else {
                    self.entries.push((track_id, lyrics));
                    proof {
                        assert(self@ =~= pre.push((k, v)));
                        lemma_push_distinct(pre, k, v);
                    }
                }
            },
        }
    }
}

/// With distinct keys, a position holding `k` is the position of `k`.
proof fn lemma_key_at_is(s: CacheModel, k: Seq<char>, i: int)
    requires
        distinct_keys(s),
        0 <= i < s.len(),
        s[i].0 == k,
    ensures
        has_key(s, k),
        key_at(s, k) == i,
{
    assert(has_key(s, k));
    let j = key_at(s, k);
    if j < i {
        assert(s[j].0 != s[i].0);
    } else if i < j {
        assert(s[i].0 != s[j].0);
    }
}

/// Moving the entry at `i` to the back keeps the keys distinct and the
/// length unchanged.
proof fn lemma_touch_shape(s: CacheModel, i: int)
    requires
        distinct_keys(s),
        0 <= i < s.len(),
    ensures
        s.remove(i).push(s[i]).len() == s.len(),
        distinct_keys(s.remove(i).push(s[i])),
{
    lemma_removed_key_absent(s, i);
    lemma_push_distinct(s.remove(i), s[i].0, s[i].1);
    assert(s.remove(i).push((s[i].0, s[i].1)) =~= s.remove(i).push(s[i]));
}

/// Removing the entry at `i` keeps the keys distinct and takes its key out.
proof fn lemma_removed_key_absent(s: CacheModel, i: int)
    requires
        distinct_keys(s),
        0 <= i < s.len(),
    ensures
        s.remove(i).len() == s.len() - 1,
        distinct_keys(s.remove(i)),
        !has_key(s.remove(i), s[i].0),
{
    s.remove_ensures(i);
    let t = s.remove(i);
    assert forall|a: int, b: int| 0 <= a < b < t.len() implies (#[trigger] t[a]).0 != (
    #[trigger] t[b]).0 by {
        let a2 = if a < i {
            a
        } else {
            a + 1
        };
        let b2 = if b < i {
            b
        } else {
            b + 1
        };
        assert(t[a] == s[a2]);
        assert(t[b] == s[b2]);
        assert(s[a2].0 != s[b2].0);
    }
    assert forall|j: int| 0 <= j < t.len() implies (#[trigger] t[j]).0 != s[i].0 by {
        let j2 = if j < i {
            j
        } else {
            j + 1
        };
        assert(t[j] == s[j2]);
        if j2 < i {
            assert(s[j2].0 != s[i].0);
        } else {
            assert(s[i].0 != s[j2].0);
        }
    }
}

/// A key absent from `s` is still absent after the entry at `i` is removed.
proof fn lemma_absent_key_stays_absent(s: CacheModel, i: int, k: Seq<char>)
    requires
        0 <= i < s.len(),
        !has_key(s, k),
    ensures
        !has_key(s.remove(i), k),
{
    s.remove_ensures(i);
    let t = s.remove(i);
    assert forall|j: int| 0 <= j < t.len() implies (#[trigger] t[j]).0 != k by {
        let j2 = if j < i {
            j
        } else {
            j + 1
        };
        assert(t[j] == s[j2]);
        assert(s[j2].0 != k);
    }
}

/// Appending a fresh key keeps the keys distinct.
proof fn lemma_push_distinct(s: CacheModel, k: Seq<char>, v: Option<Seq<char>>)
    requires
        distinct_keys(s),
        !has_key(s, k),
    ensures
        distinct_keys(s.push((k, v))),
{
    let t = s.push((k, v));
    assert forall|a: int, b: int| 0 <= a < b < t.len() implies (#[trigger] t[a]).0 != (
    #[trigger] t[b]).0 by {
        if b < s.len() {
            assert(t[a] == s[a]);
            assert(t[b] == s[b]);
        } else {
            assert(t[a] == s[a]);
            assert(t[b] == (k, v));
            assert(s[a].0 != k);
        }
    }
}

/// LRU bound: an insert or a get on a cache that respects its capacity and
/// keeps its keys distinct leaves a cache that does both. Iterated from an
/// empty cache, no sequence of operations can hold more than `cap` entries.
pub proof fn lemma_lru_never_exceeds_capacity(
    s: CacheModel,
    cap: nat,
    k: Seq<char>,
    v: Option<Seq<char>>,
)
    requires
        distinct_keys(s),
        s.len() <= cap,
        1 <= cap,
    ensures
        cache_after_insert(s, cap, k, v).len() <= cap,
        distinct_keys(cache_after_insert(s, cap, k, v)),
        cache_after_get(s, k).len() == s.len(),
        distinct_keys(cache_after_get(s, k)),
{
    if has_key(s, k) {
        let i = key_at(s, k);
        lemma_key_at_is(s, k, i);
        s.remove_ensures(i);
        lemma_removed_key_absent(s, i);
        lemma_push_distinct(s.remove(i), k, v);
        lemma_touch_shape(s, i);
    } else if s.len() < cap {
        lemma_push_distinct(s, k, v);
    } else {
        let t = s.subrange(1, s.len() as int);
        lemma_removed_key_absent(s, 0);
        assert(t =~= s.remove(0));
        lemma_absent_key_stays_absent(s, 0, k);
        lemma_push_distinct(t, k, v);
    }
}

/// LRU eviction: when a new key arrives at a full cache, the evicted entry
/// is exactly the least recently touched one (position 0 of the recency
/// order); every other key survives, and the new key enters most recently
/// used.
pub proof fn lemma_lru_evicts_least_recently_touched(
    s: CacheModel,
    cap: nat,
    k: Seq<char>,
    v: Option<Seq<char>>,
)
    requires
        distinct_keys(s),
        s.len() == cap,
        1 <= cap,
        !has_key(s, k),
    ensures
        !has_key(cache_after_insert(s, cap, k, v), s[0].0),
        forall|j: int|
            1 <= j < s.len() ==> has_key(cache_after_insert(s, cap, k, v), (#[trigger] s[j]).0),
        cache_after_insert(s, cap, k, v)[cap - 1] == (k, v),
{
    let r = cache_after_insert(s, cap, k, v);
    let t = s.subrange(1, s.len() as int);
    assert(r =~= t.push((k, v)));
    assert forall|j: int| 0 <= j < r.len() implies (#[trigger] r[j]).0 != s[0].0 by {
        if j < t.len() {
            assert(r[j] == s[j + 1]);
            assert(s[0].0 != s[j + 1].0);
        } else {
            assert(r[j] == (k, v));
            assert(s[0].0 != k);
        }
    }
    assert forall|j: int| 1 <= j < s.len() implies has_key(r, (#[trigger] s[j]).0) by {
        assert(r[j - 1] == s[j]);
    }
}

/// Negative-cache idempotence: once "no lyrics" is recorded for a key, a
/// lookup of that key hits the cache and yields the negative entry — so the
/// service answers `None` without a further remote call — until the entry
/// is evicted.
pub proof fn lemma_negative_cache_idempotent(s: CacheModel, cap: nat, k: Seq<char>)
    requires
        distinct_keys(s),
        s.len() <= cap,
        1 <= cap,
    ensures
        has_key(cache_after_insert(s, cap, k, None), k),
        value_of(cache_after_insert(s, cap, k, None), k) is None,
{
    let r = cache_after_insert(s, cap, k, None);
    if has_key(s, k) {
        let i = key_at(s, k);
        lemma_key_at_is(s, k, i);
        lemma_removed_key_absent(s, i);
        lemma_push_distinct(s.remove(i), k, None);
        assert(r[r.len() - 1] == (k, None::<Seq<char>>));
        lemma_key_at_is(r, k, r.len() - 1);
    } else if s.len() < cap {
        assert(r[r.len() - 1] == (k, None::<Seq<char>>));
        lemma_push_distinct(s, k, None);
        lemma_key_at_is(r, k, r.len() - 1);
    } else {
        let t = s.subrange(1, s.len() as int);
        lemma_removed_key_absent(s, 0);
        assert(t =~= s.remove(0));
        lemma_absent_key_stays_absent(s, 0, k);
        lemma_push_distinct(t, k, None);
        assert(r[r.len() - 1] == (k, None::<Seq<char>>));
        lemma_key_at_is(r, k, r.len() - 1);
    }
}

} // verus!
