//! A verified keyed record store: the shared shape of the session-token and
//! query-ticket stores. Records are keyed by opaque random strings, carry the
//! time they were issued, and can be bulk-pruned by age.

use vstd::prelude::*;

verus! {

/// One stored entry: the opaque key, the time of issue, and the payload.
struct Entry<V> {
    key: String,
    stamp: u64,
    value: V,
}

/// What the store holds for one key: the time of issue and the payload.
pub ghost struct Stored<V> {
    pub stamp: u64,
    pub value: V,
}

/// A record is expired when more than `ttl` seconds passed between its issue
/// and `now`.
pub open spec fn expired(stamp: u64, ttl: u64, now: u64) -> bool {
    now - stamp > ttl
}

spec fn entries_map<V>(s: Seq<Entry<V>>) -> Map<Seq<char>, Stored<V>>
    decreases s.len(),
{
    if s.len() == 0 {
        Map::empty()
    } else {
        entries_map(s.drop_last()).insert(
            s.last().key@,
            (Stored { stamp: s.last().stamp, value: s.last().value }),
        )
    }
}

spec fn distinct_keys<V>(s: Seq<Entry<V>>) -> bool {
    forall|i: int, j: int| 0 <= i < j < s.len() ==> s[i].key@ != s[j].key@
}

proof fn lemma_entries_map_contains<V>(s: Seq<Entry<V>>, k: Seq<char>)
    ensures
        entries_map(s).contains_key(k) <==> (exists|i: int|
            0 <= i < s.len() && s[i].key@ == k),
    decreases s.len(),
{
    if s.len() > 0 {
        let t = s.drop_last();
        lemma_entries_map_contains(t, k);
        if s.last().key@ == k {
            assert(s[s.len() - 1].key@ == k);
        } else {
            if entries_map(s).contains_key(k) {
                let i = choose|i: int| 0 <= i < t.len() && t[i].key@ == k;
                assert(s[i].key@ == k);
            }
            if exists|i: int| 0 <= i < s.len() && s[i].key@ == k {
                let i = choose|i: int| 0 <= i < s.len() && s[i].key@ == k;
                assert(t[i].key@ == k);
            }
        }
    }
}

proof fn lemma_entries_map_index<V>(s: Seq<Entry<V>>, i: int)
    requires
        distinct_keys(s),
        0 <= i < s.len(),
    ensures
        entries_map(s).contains_key(s[i].key@),
        entries_map(s)[s[i].key@] == (Stored { stamp: s[i].stamp, value: s[i].value }),
    decreases s.len(),
{
    if i < s.len() - 1 {
        let t = s.drop_last();
        assert(distinct_keys(t));
        assert(t[i] == s[i]);
        lemma_entries_map_index(t, i);
        assert(s.last().key@ != s[i].key@);
    }
}

proof fn lemma_entries_map_finite<V>(s: Seq<Entry<V>>)
    ensures
        entries_map(s).dom().finite(),
    decreases s.len(),
{
    if s.len() > 0 {
        lemma_entries_map_finite(s.drop_last());
    }
}

proof fn lemma_entries_map_len<V>(s: Seq<Entry<V>>)
    requires
        distinct_keys(s),
    ensures
        entries_map(s).dom().finite(),
        entries_map(s).len() == s.len(),
    decreases s.len(),
{
    if s.len() > 0 {
        let t = s.drop_last();
        assert(distinct_keys(t));
        lemma_entries_map_len(t);
        lemma_entries_map_contains(t, s.last().key@);
        assert(forall|i: int| 0 <= i < t.len() ==> t[i] == s[i]);
    }
}

proof fn lemma_distinct_remove<V>(s: Seq<Entry<V>>, i: int)
    requires
        distinct_keys(s),
        0 <= i < s.len(),
    ensures
        distinct_keys(s.remove(i)),
{
    s.remove_ensures(i);
}

proof fn lemma_entries_map_push<V>(s: Seq<Entry<V>>, e: Entry<V>)
    ensures
        entries_map(s.push(e)) == entries_map(s).insert(
            e.key@,
            (Stored { stamp: e.stamp, value: e.value }),
        ),
{
    assert(s.push(e).drop_last() =~= s);
    assert(s.push(e).last() == e);
}

proof fn lemma_entries_map_remove_index<V>(s: Seq<Entry<V>>, i: int)
    requires
        distinct_keys(s),
        0 <= i < s.len(),
    ensures
        entries_map(s.remove(i)) == entries_map(s).remove(s[i].key@),
    decreases s.len(),
{
    let t = s.drop_last();
    assert(distinct_keys(t));
    s.remove_ensures(i);
    if i == s.len() - 1 {
        assert(s.remove(i) =~= t);
        lemma_entries_map_contains(t, s.last().key@);
        assert(forall|j: int| 0 <= j < t.len() ==> t[j] == s[j]);
        assert(!entries_map(t).contains_key(s.last().key@));
        assert(entries_map(t).insert(
            s.last().key@,
            (Stored { stamp: s.last().stamp, value: s.last().value }),
        ).remove(s.last().key@) =~= entries_map(t));
    } else {
        assert(t[i] == s[i]);
        lemma_entries_map_remove_index(t, i);
        t.remove_ensures(i);
        assert(s.remove(i).drop_last() =~= t.remove(i));
        assert(s.remove(i).last() == s.last());
        assert(s.last().key@ != s[i].key@);
        assert(entries_map(t).remove(s[i].key@).insert(
            s.last().key@,
            (Stored { stamp: s.last().stamp, value: s.last().value }),
        ) =~= entries_map(t).insert(
            s.last().key@,
            (Stored { stamp: s.last().stamp, value: s.last().value }),
        ).remove(s[i].key@));
    }
}

/// Pruning is idempotent: a prune leaves only records younger than the
/// cutoff, so a second prune over the same cutoff removes nothing — the
/// store after the second prune is exactly the store after the first.
/// `m0`, `m1` and `m2` are the store's contents before the first prune,
/// between the two, and after the second; the hypotheses are what `prune`
/// ensures of each step.
pub proof fn lemma_prune_idempotent<V>(
    m0: Map<Seq<char>, Stored<V>>,
    m1: Map<Seq<char>, Stored<V>>,
    m2: Map<Seq<char>, Stored<V>>,
    ttl: u64,
    now: u64,
)
    requires
        forall|k: Seq<char>| #[trigger] m1.contains_key(k) <==> (m0.contains_key(k) && !expired(
            m0[k].stamp,
            ttl,
            now,
        )),
        forall|k: Seq<char>| #[trigger] m1.contains_key(k) ==> m1[k] == m0[k],
        forall|k: Seq<char>| #[trigger] m2.contains_key(k) <==> (m1.contains_key(k) && !expired(
            m1[k].stamp,
            ttl,
            now,
        )),
        forall|k: Seq<char>| #[trigger] m2.contains_key(k) ==> m2[k] == m1[k],
    ensures
        m2 =~= m1,
{
    assert forall|k: Seq<char>| #[trigger] m1.contains_key(k) implies m2.contains_key(k) by {
        assert(m1[k] == m0[k]);
    }
}

/// A keyed record store. Its view is the map from key text to the stored
/// record; the store never holds two records under one key.
pub struct KeyedStore<V> {
    entries: Vec<Entry<V>>,
}

impl<V> View for KeyedStore<V> {
    type V = Map<Seq<char>, Stored<V>>;

    closed spec fn view(&self) -> Map<Seq<char>, Stored<V>> {
        entries_map(self.entries@)
    }
}

impl<V> KeyedStore<V> {
    #[verifier::type_invariant]
    spec fn wf(self) -> bool {
        distinct_keys(self.entries@)
    }

    /// The store's contents always form a finite map, so its cardinality
    /// is well defined and shrinks and grows as the operations say.
    pub proof fn lemma_view_finite(&self)
        ensures
            self@.dom().finite(),
    {
        lemma_entries_map_finite(self.entries@);
    }

    /// An empty store.
    pub fn new() -> (r: Self)
        ensures
            r@ == Map::<Seq<char>, Stored<V>>::empty(),
            r@.dom().finite(),
    {
        KeyedStore { entries: Vec::new() }
    }

    /// How many records the store holds.
    pub fn len(&self) -> (r: usize)
        ensures
            r == self@.len(),
    {
        proof {
            use_type_invariant(&*self);
            lemma_entries_map_len(self.entries@);
        }
        self.entries.len()
    }

    fn find(&self, key: &String) -> (r: Option<usize>)
        ensures
            match r {
                Some(i) => i < self.entries@.len() && self.entries@[i as int].key@ == key@,
                None => forall|i: int|
                    0 <= i < self.entries@.len() ==> self.entries@[i as int].key@ != key@,
            },
    {
        let n = self.entries.len();
        let mut i: usize = 0;
        while i < n
            invariant
                i <= n,
                n == self.entries@.len(),
                forall|j: int| 0 <= j < i ==> self.entries@[j].key@ != key@,
            decreases n - i,
        {
            if self.entries[i].key.eq(key) {
                return Some(i);
            }
            i = i + 1;
        }
        None
    }

    /// Looks a record up without changing the store.
    pub fn get(&self, key: &String) -> (r: Option<(u64, &V)>)
        ensures
            match r {
                Some((stamp, value)) => self@.contains_key(key@) && self@[key@].stamp == stamp
                    && self@[key@].value == *value,
                None => !self@.contains_key(key@),
            },
    {
        proof {
            use_type_invariant(&*self);
        }
        match self.find(key) {
            Some(i) => {
                proof {
                    lemma_entries_map_index(self.entries@, i as int);
                }
                let e = &self.entries[i];
                Some((e.stamp, &e.value))
            },
            None => {
                proof {
                    lemma_entries_map_contains(self.entries@, key@);
                }
                None
            },
        }
    }

    /// Inserts a record, replacing whatever the key named before.
    pub fn insert(&mut self, key: String, stamp: u64, value: V)
        ensures
            final(self)@ == old(self)@.insert(key@, (Stored { stamp, value })),
            final(self)@.dom().finite(),
    {
        proof {
            use_type_invariant(&*self);
        }
        let found = self.find(&key);
        let mut entries: Vec<Entry<V>> = Vec::new();
        core::mem::swap(&mut entries, &mut self.entries);
        let ghost s0 = entries@;
        if let Some(i) = found {
            proof {
                lemma_entries_map_remove_index(s0, i as int);
                lemma_distinct_remove(s0, i as int);
                s0.remove_ensures(i as int);
                lemma_entries_map_contains(s0.remove(i as int), key@);
            }
            let _dropped = entries.remove(i);
            proof {
                if exists|j: int| 0 <= j < entries@.len() && entries@[j].key@ == key@ {
                    let j = choose|j: int| 0 <= j < entries@.len() && entries@[j].key@ == key@;
                    assert(entries_map(entries@).contains_key(key@));
                    assert(false);
                }
            }
        }
        let ghost s1 = entries@;
        proof {
            lemma_entries_map_push(s1, (Entry { key, stamp, value }));
        }
        entries.push(Entry { key, stamp, value });
        proof {
            assert(forall|j: int| 0 <= j < s1.len() ==> entries@[j] == s1[j]);
            assert(entries_map(s0).remove(key@).insert(key@, (Stored { stamp, value }))
                =~= entries_map(s0).insert(key@, (Stored { stamp, value })));
            lemma_entries_map_finite(entries@);
        }
        self.entries = entries;
    }

    /// Removes and returns the record under the key, if one is present.
    pub fn remove(&mut self, key: &String) -> (r: Option<(u64, V)>)
        ensures
            final(self)@ == old(self)@.remove(key@),
            final(self)@.dom().finite(),
            match r {
                Some((stamp, value)) => old(self)@.contains_key(key@)
                    && old(self)@[key@].stamp == stamp && old(self)@[key@].value == value,
                None => !old(self)@.contains_key(key@),
            },
    {
        proof {
            use_type_invariant(&*self);
        }
        match self.find(key) {
            Some(i) => {
                proof {
                    lemma_entries_map_index(self.entries@, i as int);
                    lemma_entries_map_remove_index(self.entries@, i as int);
                    lemma_distinct_remove(self.entries@, i as int);
                }
                let mut entries: Vec<Entry<V>> = Vec::new();
                core::mem::swap(&mut entries, &mut self.entries);
                let e = entries.remove(i);
                proof {
                    lemma_entries_map_finite(entries@);
                }
                self.entries = entries;
                Some((e.stamp, e.value))
            },
            None => {
                proof {
                    lemma_entries_map_contains(self.entries@, key@);
                    assert(self@.remove(key@) =~= self@);
                    lemma_entries_map_finite(self.entries@);
                }
                None
            },
        }
    }

    /// Removes every record older than `ttl`, returning how many went.
    pub fn prune(&mut self, ttl: u64, now: u64) -> (removed: usize)
        ensures
            forall|k: Seq<char>| #[trigger] final(self)@.contains_key(k) <==> (old(
                self,
            )@.contains_key(k) && !expired(old(self)@[k].stamp, ttl, now)),
            forall|k: Seq<char>| #[trigger] final(self)@.contains_key(k) ==> final(self)@[k]
                == old(self)@[k],
            removed + final(self)@.len() == old(self)@.len(),
            final(self)@.dom().finite(),
    {
        proof {
            use_type_invariant(&*self);
        }
        let ghost m0 = self@;
        let mut entries: Vec<Entry<V>> = Vec::new();
        core::mem::swap(&mut entries, &mut self.entries);
        proof {
            lemma_entries_map_len(entries@);
        }
        let n_init = entries.len();
        let ghost n0 = n_init as nat;
        let mut removed: usize = 0;
        let mut i: usize = 0;
        while i < entries.len()
            invariant
                distinct_keys(entries@),
                i <= entries@.len(),
                forall|j: int| 0 <= j < i ==> !expired(entries@[j].stamp, ttl, now),
                forall|k: Seq<char>| #[trigger] entries_map(entries@).contains_key(k)
                    ==> m0.contains_key(k) && entries_map(entries@)[k] == m0[k],
                forall|k: Seq<char>| m0.contains_key(k) && !expired(m0[k].stamp, ttl, now)
                    ==> entries_map(entries@).contains_key(k),
                removed + entries@.len() == n0,
                n0 <= usize::MAX,
            decreases entries@.len() - i,
        {
            let stamp = entries[i].stamp;
            if now > stamp && now - stamp > ttl {
                proof {
                    lemma_entries_map_index(entries@, i as int);
                    lemma_entries_map_remove_index(entries@, i as int);
                    lemma_distinct_remove(entries@, i as int);
                    entries@.remove_ensures(i as int);
                }
                let ghost key_i = entries@[i as int].key@;
                let _dropped = entries.remove(i);
                proof {
                    assert forall|k: Seq<char>|
                        m0.contains_key(k) && !expired(m0[k].stamp, ttl, now) implies entries_map(
                        entries@,
                    ).contains_key(k) by {
                        assert(k != key_i);
                    }
                }
                removed = removed + 1;
            } else {
                i = i + 1;
            }
        }
        proof {
            lemma_entries_map_len(entries@);
            assert forall|k: Seq<char>| #[trigger] entries_map(entries@).contains_key(k) implies (
            m0.contains_key(k) && !expired(m0[k].stamp, ttl, now)) by {
                lemma_entries_map_contains(entries@, k);
                let j = choose|j: int| 0 <= j < entries@.len() && entries@[j].key@ == k;
                lemma_entries_map_index(entries@, j);
            }
        }
        self.entries = entries;
        removed
    }
}

} // verus!
