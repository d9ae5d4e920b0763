use crate::record::{clone_results, QueryResult};
use vstd::prelude::*;

verus! {

/// How long a stored result list stays valid, in seconds.
pub const TTL_SECS: u64 = 86400;

/// A stored result list and when it was stored (seconds since the Unix epoch).
pub struct CacheEntry {
    pub query: String,
    pub results: Vec<QueryResult>,
    pub timestamp: u64,
}

/// What the cache holds for one key: the results and the time they were stored.
pub type StoredView = (Seq<QueryResult>, u64);

/// An entry stored at `stored` is still served at `now`: `now - stored < TTL`.
pub open spec fn is_fresh(stored: u64, now: u64) -> bool {
    (now as int) - (stored as int) < TTL_SECS as int
}

/// What a lookup of `q` at time `now` returns: the stored results if they are fresh.
pub open spec fn lookup(m: Map<Seq<char>, StoredView>, q: Seq<char>, now: u64) -> Option<
    Seq<QueryResult>,
> {
    if m.contains_key(q) && is_fresh(m[q].1, now) {
        Some(m[q].0)
    } else {
        None
    }
}

/// The cache after a lookup of `q` at time `now`: a stale entry for `q` is gone.
pub open spec fn after_lookup(m: Map<Seq<char>, StoredView>, q: Seq<char>, now: u64) -> Map<
    Seq<char>,
    StoredView,
> {
    if m.contains_key(q) && !is_fresh(m[q].1, now) {
        m.remove(q)
    } else {
        m
    }
}

pub open spec fn results_view(r: Option<Vec<QueryResult>>) -> Option<Seq<QueryResult>> {
    match r {
        Some(v) => Some(v@),
        None => None,
    }
}

/// The mapping that a sequence of entries with distinct keys describes.
pub open spec fn entries_map(s: Seq<CacheEntry>) -> Map<Seq<char>, StoredView>
    decreases s.len(),
{
    if s.len() == 0 {
        Map::empty()
    } else {
        entries_map(s.drop_last()).insert(
            s.last().query@,
            (s.last().results@, s.last().timestamp),
        )
    }
}

pub open spec fn keys_distinct(s: Seq<CacheEntry>) -> bool {
    forall|i: int, j: int|
        0 <= i < s.len() && 0 <= j < s.len() && i != j ==> s[i].query@ != s[j].query@
}

/// With distinct keys, the mapping has exactly the entries' keys, each bound to
/// its own entry.
proof fn lemma_entries_map(s: Seq<CacheEntry>)
    requires
        keys_distinct(s),
    ensures
        forall|k: Seq<char>|
            entries_map(s).contains_key(k) <==> exists|i: int|
                0 <= i < s.len() && (#[trigger] s[i]).query@ == k,
        forall|i: int|
            0 <= i < s.len() ==> entries_map(s)[(#[trigger] s[i]).query@] == (
                s[i].results@,
                s[i].timestamp,
            ),
    decreases s.len(),
{
    if s.len() > 0 {
        let t = s.drop_last();
        assert(keys_distinct(t)) by {
            assert forall|i: int, j: int|
                0 <= i < t.len() && 0 <= j < t.len() && i != j implies t[i].query@
                != t[j].query@ by {
                assert(t[i] == s[i] && t[j] == s[j]);
            }
        }
        lemma_entries_map(t);
        assert(entries_map(s) == entries_map(t).insert(s.last().query@, (s.last().results@, s.last().timestamp)));
        assert forall|k: Seq<char>|
            entries_map(s).contains_key(k) <==> exists|i: int|
                0 <= i < s.len() && (#[trigger] s[i]).query@ == k by {
            if entries_map(s).contains_key(k) {
                if k == s.last().query@ {
                    assert(s[s.len() - 1].query@ == k);
                } else {
                    assert(entries_map(t).contains_key(k));
                    let i = choose|i: int| 0 <= i < t.len() && (#[trigger] t[i]).query@ == k;
                    assert(t[i] == s[i]);
                    assert(s[i].query@ == k);
                }
            }
            if exists|i: int| 0 <= i < s.len() && (#[trigger] s[i]).query@ == k {
                let i = choose|i: int| 0 <= i < s.len() && (#[trigger] s[i]).query@ == k;
                if i < s.len() - 1 {
                    assert(t[i] == s[i]);
                    assert(entries_map(t).contains_key(k));
                }
            }
        }
        assert forall|i: int| 0 <= i < s.len() implies entries_map(s)[(#[trigger] s[i]).query@]
            == (s[i].results@, s[i].timestamp) by {
            if i < s.len() - 1 {
                assert(t[i] == s[i]);
                assert(s[i].query@ != s.last().query@);
            }
        }
    }
}

/// The persistent result cache: query text to the results fetched for it.
pub struct Cache {
    data: Vec<CacheEntry>,
}

impl View for Cache {
    type V = Map<Seq<char>, StoredView>;

    closed spec fn view(&self) -> Map<Seq<char>, StoredView> {
        entries_map(self.data@)
    }
}

impl Cache {
    /// Each key is stored at most once.
    pub closed spec fn wf(&self) -> bool {
        keys_distinct(self.data@)
    }

    /// An empty cache.
    pub fn new() -> (r: Cache)
        ensures
            r@ == Map::<Seq<char>, StoredView>::empty(),
            r.wf(),
    {
        Cache { data: Vec::new() }
    }

    /// A cache holding `entries`, stored one after the other: a later entry
    /// for a key replaces an earlier one.
    pub fn from_entries(entries: Vec<CacheEntry>) -> (r: Cache)
        ensures
            r@ == entries_map(entries@),
            r.wf(),
    {
        let mut c = Cache::new();
        let n = entries.len();
        let mut i: usize = 0;
        while i < n
            invariant
                n == entries@.len(),
                i <= n,
                c.wf(),
                c@ == entries_map(entries@.subrange(0, i as int)),
            decreases n - i,
        {
            let e = &entries[i];
            c.insert(e.query.clone(), clone_results(&e.results), e.timestamp);
            proof {
                let s1 = entries@.subrange(0, i as int + 1);
                assert(s1.drop_last() =~= entries@.subrange(0, i as int));
                assert(s1.last() == entries@[i as int]);
            }
            i = i + 1;
        }
        assert(entries@.subrange(0, n as int) =~= entries@);
        c
    }

    /// Number of stored keys.
    pub fn len(&self) -> (r: usize)
        requires
            self.wf(),
        ensures
            r == self@.len(),
    {
        proof {
            lemma_entries_map(self.data@);
            let keys = self.data@.map_values(|e: CacheEntry| e.query@);
            assert(keys.no_duplicates());
            assert(keys.to_set() =~= self@.dom()) by {
                assert forall|k: Seq<char>| keys.to_set().contains(k) implies self@.dom().contains(
                    k,
                ) by {
                    let i = choose|i: int| 0 <= i < keys.len() && keys[i] == k;
                    assert(self.data@[i].query@ == k);
                }
                assert forall|k: Seq<char>| self@.dom().contains(k) implies keys.to_set().contains(
                    k,
                ) by {
                    let i = choose|i: int|
                        0 <= i < self.data@.len() && (#[trigger] self.data@[i]).query@ == k;
                    assert(keys[i] == k);
                }
            }
            keys.unique_seq_to_set();
        }
        self.data.len()
    }

    /// The stored entries, for persisting them.
    pub fn entries(&self) -> (r: &[CacheEntry])
        requires
            self.wf(),
        ensures
            entries_map(r@) == self@,
            keys_distinct(r@),
    {
        self.data.as_slice()
    }

    /// Position of the entry for `query`, if there is one.
    fn find(&self, query: &String) -> (r: Option<usize>)
        requires
            self.wf(),
        ensures
            match r {
                Some(i) => i < self.data@.len() && self.data@[i as int].query@ == query@,
                None => !self@.contains_key(query@),
            },
    {
        proof {
            lemma_entries_map(self.data@);
        }
        let n = self.data.len();
        let mut i: usize = 0;
        while i < n
            invariant
                n == self.data@.len(),
                i <= n,
                forall|j: int| 0 <= j < i ==> self.data@[j].query@ != query@,
            decreases n - i,
        {
            if self.data[i].query.eq(query) {
                return Some(i);
            }
            i = i + 1;
        }
        None
    }

    /// Looks `query` up at time `now`. A fresh entry is returned; a stale one is
    /// removed and nothing is returned.
    pub fn get(&mut self, query: &str, now: u64) -> (r: Option<Vec<QueryResult>>)
        requires
            old(self).wf(),
        ensures
            final(self).wf(),
            results_view(r) == lookup(old(self)@, query@, now),
            final(self)@ == after_lookup(old(self)@, query@, now),
    {
        proof {
            lemma_entries_map(self.data@);
        }
        let key = String::from_str(query);
        match self.find(&key) {
            Some(i) => {
                let stored = self.data[i].timestamp;
                let fresh = if now >= stored {
                    now - stored < TTL_SECS
                } else {
                    true
                };
                if fresh {
                    let r = clone_results(&self.data[i].results);
                    Some(r)
                } else {
                    let ghost before = self.data@;
                    self.data.remove(i);
                    proof {
                        let after = self.data@;
                        assert forall|a: int, b: int|
                            0 <= a < after.len() && 0 <= b < after.len() && a != b implies after[a].query@
                            != after[b].query@ by {
                            let a2 = if a < i { a } else { a + 1 };
                            let b2 = if b < i { b } else { b + 1 };
                            assert(after[a] == before[a2] && after[b] == before[b2]);
                        }
                        lemma_entries_map(after);
                        assert forall|k: Seq<char>| #[trigger]
                            entries_map(after).contains_key(k) <==> entries_map(
                                before,
                            ).remove(query@).contains_key(k) by {
                            if entries_map(after).contains_key(k) {
                                let a = choose|a: int|
                                    0 <= a < after.len() && (#[trigger] after[a]).query@ == k;
                                let a2 = if a < i { a } else { a + 1 };
                                assert(after[a] == before[a2]);
                            }
                            if entries_map(before).remove(query@).contains_key(k) {
                                let b = choose|b: int|
                                    0 <= b < before.len() && (#[trigger] before[b]).query@ == k;
                                let b2 = if b < i { b } else { b - 1 };
                                assert(after[b2] == before[b]);
                            }
                        }
                        assert forall|k: Seq<char>| #[trigger]
                            entries_map(after).contains_key(k) implies entries_map(after)[k]
                            == entries_map(before)[k] by {
                            let a = choose|a: int|
                                0 <= a < after.len() && (#[trigger] after[a]).query@ == k;
                            let a2 = if a < i { a } else { a + 1 };
                            assert(after[a] == before[a2]);
                        }
                        assert(entries_map(after) =~= entries_map(before).remove(query@));
                    }
                    None
                }
            },
            None => None,
        }
    }

    /// Stores `results` under `query` with time `now`, replacing any earlier entry.
    pub fn insert(&mut self, query: String, results: Vec<QueryResult>, now: u64)
        requires
            old(self).wf(),
        ensures
            final(self).wf(),
            final(self)@ == old(self)@.insert(query@, (results@, now)),
    {
        proof {
            lemma_entries_map(self.data@);
        }
        let ghost k = query@;
        let ghost v = (results@, now);
        let ghost m0 = self@;
        match self.find(&query) {
            Some(i) => {
                let ghost before = self.data@;
                self.data.remove(i);
                proof {
                    let after = self.data@;
                    assert forall|a: int, b: int|
                        0 <= a < after.len() && 0 <= b < after.len() && a != b implies after[a].query@
                        != after[b].query@ by {
                        let a2 = if a < i { a } else { a + 1 };
                        let b2 = if b < i { b } else { b + 1 };
                        assert(after[a] == before[a2] && after[b] == before[b2]);
                    }
                    assert forall|a: int| 0 <= a < after.len() implies (#[trigger] after[a]).query@
                        != k by {
                        let a2 = if a < i { a } else { a + 1 };
                        assert(after[a] == before[a2]);
                    }
                    lemma_entries_map(after);
                    assert forall|x: Seq<char>| #[trigger]
                        entries_map(after).contains_key(x) <==> m0.remove(k).contains_key(x) by {
                        if entries_map(after).contains_key(x) {
                            let a = choose|a: int|
                                0 <= a < after.len() && (#[trigger] after[a]).query@ == x;
                            let a2 = if a < i { a } else { a + 1 };
                            assert(after[a] == before[a2]);
                        }
                        if m0.remove(k).contains_key(x) {
                            let b = choose|b: int|
                                0 <= b < before.len() && (#[trigger] before[b]).query@ == x;
                            let b2 = if b < i { b } else { b - 1 };
                            assert(after[b2] == before[b]);
                        }
                    }
                    assert forall|x: Seq<char>| #[trigger]
                        entries_map(after).contains_key(x) implies entries_map(after)[x] == m0[x] by {
                        let a = choose|a: int|
                            0 <= a < after.len() && (#[trigger] after[a]).query@ == x;
                        let a2 = if a < i { a } else { a + 1 };
                        assert(after[a] == before[a2]);
                    }
                    assert(entries_map(after) =~= m0.remove(k));
                }
            },
            None => {
                proof {
                    assert forall|a: int| 0 <= a < self.data@.len() implies (#[trigger] self.data@[
                        a
                    ]).query@ != k by {
                        assert(m0.contains_key(self.data@[a].query@));
                    }
                    assert(m0.remove(k) =~= m0);
                }
            },
        }
        let ghost before = self.data@;
        self.data.push(CacheEntry { query, results, timestamp: now });
        proof {
            assert(self.data@.drop_last() =~= before);
            assert(self@ =~= m0.remove(k).insert(k, v));
            assert(m0.remove(k).insert(k, v) =~= m0.insert(k, v));
        }
    }
}

/// An entry stored at `t0` is still served one second before the TTL has
/// passed; from the TTL on it is not served, and the lookup removes it, so
/// later lookups find nothing either.
pub proof fn lemma_ttl_boundary(
    m: Map<Seq<char>, StoredView>,
    q: Seq<char>,
    t0: u64,
    now: u64,
    later: u64,
)
    requires
        m.contains_key(q),
        m[q].1 == t0,
    ensures
        now as int == t0 as int + TTL_SECS as int - 1 ==> lookup(m, q, now) == Some(m[q].0),
        now as int >= t0 as int + TTL_SECS as int ==> {
            &&& lookup(m, q, now) is None
            &&& !after_lookup(m, q, now).contains_key(q)
            &&& lookup(after_lookup(m, q, now), q, later) is None
        },
{
}

/// After a lookup of `q` that missed, storing the freshly fetched `fetched` at
/// `now` makes an immediate lookup of `q` return exactly `fetched`.
pub proof fn lemma_write_through(
    m: Map<Seq<char>, StoredView>,
    q: Seq<char>,
    miss_at: u64,
    fetched: Seq<QueryResult>,
    now: u64,
)
    requires
        lookup(m, q, miss_at) is None,
    ensures
        lookup(after_lookup(m, q, miss_at).insert(q, (fetched, now)), q, now) == Some(fetched),
{
}

} // verus!
