//! The in-memory side of a persistent key-value store: a map from string keys
//! to values. Loading it from disk and saving it after each change are left
//! to the caller.
use vstd::prelude::*;

verus! {

/// A key-value store: each key is held at most once, with its value.
pub struct Store<V> {
    entries: Vec<(String, V)>,
}

/// The map that a list of distinct-keyed entries holds.
pub open spec fn entries_map<V>(e: Seq<(String, V)>) -> Map<Seq<char>, V>
    decreases e.len(),
{
    if e.len() == 0 {
        Map::empty()
    } else {
        entries_map(e.drop_last()).insert(e.last().0@, e.last().1)
    }
}

/// Whether no two entries share a key.
pub open spec fn distinct_keys<V>(e: Seq<(String, V)>) -> bool {
    forall|i: int, j: int| 0 <= i < j < e.len() ==> (#[trigger] e[i]).0@ != (#[trigger] e[j]).0@
}

/// A map of distinct-keyed entries holds exactly their keys, each with its value.
proof fn lemma_entries_map<V>(e: Seq<(String, V)>)
    requires
        distinct_keys(e),
    ensures
        forall|k: Seq<char>| #[trigger] entries_map(e).contains_key(k) <==> exists|i: int| 0 <= i < e.len() && (#[trigger] e[i]).0@ == k,
        forall|i: int| 0 <= i < e.len() ==> #[trigger] entries_map(e)[e[i].0@] == e[i].1,
    decreases e.len(),
{
    if e.len() > 0 {
        let p = e.drop_last();
        assert(distinct_keys(p)) by {
            assert forall|i: int, j: int| 0 <= i < j < p.len() implies (#[trigger] p[i]).0@ != (#[trigger] p[j]).0@ by {
                assert(p[i] == e[i]);
                assert(p[j] == e[j]);
            }
        }
        lemma_entries_map(p);
        let m = entries_map(e);
        assert(m == entries_map(p).insert(e.last().0@, e.last().1));
        assert forall|k: Seq<char>| #[trigger] m.contains_key(k) <==> exists|i: int| 0 <= i < e.len() && (#[trigger] e[i]).0@ == k by {
            if m.contains_key(k) && k != e.last().0@ {
                assert(entries_map(p).contains_key(k));
                let i = choose|i: int| 0 <= i < p.len() && (#[trigger] p[i]).0@ == k;
                assert(e[i] == p[i]);
            }
            if k == e.last().0@ {
                assert(e[e.len() - 1].0@ == k);
            }
            if exists|i: int| 0 <= i < e.len() && (#[trigger] e[i]).0@ == k {
                let i = choose|i: int| 0 <= i < e.len() && (#[trigger] e[i]).0@ == k;
                if i < e.len() - 1 {
                    assert(p[i] == e[i]);
                    assert(p[i].0@ == k);
                    assert(entries_map(p).contains_key(k));
                }
            }
        }
        assert forall|i: int| 0 <= i < e.len() implies #[trigger] m[e[i].0@] == e[i].1 by {
            if i < e.len() - 1 {
                assert(p[i] == e[i]);
                assert(e[i].0@ != e[e.len() - 1].0@);
                assert(entries_map(p)[p[i].0@] == p[i].1);
            }
        }
    }
}

impl<V> Store<V> {
    /// What the store holds.
    pub closed spec fn map(&self) -> Map<Seq<char>, V> {
        entries_map(self.entries@)
    }

    /// The store's record is always consistent: no key is held twice.
    #[verifier::type_invariant]
    spec fn wf(&self) -> bool {
        distinct_keys(self.entries@)
    }

    /// An empty store.
    pub fn new() -> (r: Store<V>)
        ensures
            r.map() == Map::<Seq<char>, V>::empty(),
    {
        Store { entries: Vec::new() }
    }

    /// A store holding the given entries; when a key occurs more than once,
    /// its last value is kept, as inserting them in order would.
    pub fn from_entries(entries: Vec<(String, V)>) -> (r: Store<V>)
        ensures
            r.map() == entries_map(entries@),
    {
        let mut s = Store::new();
        let ghost all = entries@;
        for entry in it: entries
            invariant
                all == it.seq(),
                s.map() == entries_map(all.take(it.index() as int)),
        {
            let (k, v) = entry;
            proof {
                assert(all.take(it.index() + 1).drop_last() =~= all.take(it.index() as int));
            }
            s.set(k, v);
        }
        assert(all.take(all.len() as int) =~= all);
        s
    }


    /// The value held under `key`, if any.
    pub fn get(&self, key: &str) -> (r: Option<&V>)
        ensures
            match r {
                Some(v) => self.map().contains_key(key@) && self.map()[key@] == *v,
                None => !self.map().contains_key(key@),
            },
    {
        proof {
            use_type_invariant(self);
            lemma_entries_map(self.entries@);
        }
        match position(&self.entries, key) {
            Some(i) => Some(&self.entries[i].1),
            None => None,
        }
    }

    /// Holds `value` under `key`, replacing any value held there before; a
    /// read of `key` then gives `value`, and every other key is as it was.
    pub fn set(&mut self, key: String, value: V)
        ensures
            final(self).map() == old(self).map().insert(key@, value),
            final(self).map().contains_key(key@) && final(self).map()[key@] == value,
            forall|k: Seq<char>| k != key@ ==> (#[trigger] final(self).map().contains_key(k)) == old(self).map().contains_key(k)
                && (old(self).map().contains_key(k) ==> final(self).map()[k] == old(self).map()[k]),
    {
        proof {
            use_type_invariant(&*self);
        }
        let mut entries: Vec<(String, V)> = Vec::new();
        std::mem::swap(&mut entries, &mut self.entries);
        set_entry(&mut entries, key, value);
        self.entries = entries;
    }

    /// Removes what is held under `key`, if anything; a read of `key` then
    /// finds nothing, and every other key is as it was.
    pub fn remove(&mut self, key: &str)
        ensures
            final(self).map() == old(self).map().remove(key@),
            !final(self).map().contains_key(key@),
            forall|k: Seq<char>| k != key@ ==> (#[trigger] final(self).map().contains_key(k)) == old(self).map().contains_key(k)
                && (old(self).map().contains_key(k) ==> final(self).map()[k] == old(self).map()[k]),
    {
        proof {
            use_type_invariant(&*self);
        }
        let mut entries: Vec<(String, V)> = Vec::new();
        std::mem::swap(&mut entries, &mut self.entries);
        remove_entry(&mut entries, key);
        self.entries = entries;
    }

    /// Removes everything.
    pub fn clear(&mut self)
        ensures
            final(self).map() == Map::<Seq<char>, V>::empty(),
    {
        self.entries = Vec::new();
    }

    /// The entries the store holds, each key once, in no promised order;
    /// building a store from them again holds the same values.
    pub fn entries(&self) -> (r: &Vec<(String, V)>)
        ensures
            distinct_keys(r@),
            entries_map(r@) == self.map(),
    {
        proof {
            use_type_invariant(self);
        }
        &self.entries
    }

    /// Every key held, each once.
    pub fn keys(&self) -> (r: Vec<String>)
        ensures
            r.deep_view().no_duplicates(),
            r.deep_view().to_set() == self.map().dom(),
    {
        proof {
            use_type_invariant(self);
        }
        proof {
            lemma_entries_map(self.entries@);
        }
        let mut out: Vec<String> = Vec::new();
        let mut i: usize = 0;
        while i < self.entries.len()
            invariant
                i <= self.entries@.len(),
                distinct_keys(self.entries@),
                out@.len() == i,
                forall|j: int| 0 <= j < i ==> (#[trigger] out@[j])@ == self.entries@[j].0@,
            decreases self.entries@.len() - i,
        {
            out.push(self.entries[i].0.clone());
            i = i + 1;
        }
        let ghost d = out.deep_view();
        assert forall|a: int, b: int| 0 <= a < d.len() && 0 <= b < d.len() && a != b implies d[a] != d[b] by {
            if a < b {
                assert(self.entries@[a].0@ != self.entries@[b].0@);
            } else {
                assert(self.entries@[b].0@ != self.entries@[a].0@);
            }
        }
        assert forall|k: Seq<char>| #[trigger] d.to_set().contains(k) == self.map().dom().contains(k) by {
            if d.to_set().contains(k) {
                let j = choose|j: int| 0 <= j < d.len() && d[j] == k;
                assert(self.entries@[j].0@ == k);
            }
            if self.map().dom().contains(k) {
                let j = choose|j: int| 0 <= j < self.entries@.len() && (#[trigger] self.entries@[j]).0@ == k;
                assert(d[j] == k);
            }
        }
        assert(d.to_set() =~= self.map().dom());
        out
    }
}

/// Saving a store and opening it again gives back what it held: a store
/// built (by `from_entries`) from the entries that another store lists (by
/// `entries`) holds the same map, so a read after reopening gives what was
/// set before saving, and finds nothing that was removed.
pub proof fn lemma_reopen_round_trip<V>(s: Store<V>, saved: Seq<(String, V)>, reopened: Store<V>, key: Seq<char>)
    requires
        entries_map(saved) == s.map(),
        reopened.map() == entries_map(saved),
    ensures
        reopened.map() == s.map(),
        s.map().contains_key(key) ==> reopened.map().contains_key(key) && reopened.map()[key] == s.map()[key],
        !s.map().contains_key(key) ==> !reopened.map().contains_key(key),
{
}

/// The position of `key` among the entries, if it is held.
fn position<V>(entries: &Vec<(String, V)>, key: &str) -> (r: Option<usize>)
    ensures
        match r {
            Some(i) => i < entries@.len() && entries@[i as int].0@ == key@,
            None => forall|i: int| 0 <= i < entries@.len() ==> (#[trigger] entries@[i]).0@ != key@,
        },
{
    let mut i: usize = 0;
    while i < entries.len()
        invariant
            i <= entries@.len(),
            forall|j: int| 0 <= j < i ==> (#[trigger] entries@[j]).0@ != key@,
        decreases entries@.len() - i,
    {
        if crate::text::str_eq(entries[i].0.as_str(), key) {
            return Some(i);
        }
        i = i + 1;
    }
    None
}

/// Holds `value` under `key` in a list of distinct-keyed entries.
fn set_entry<V>(entries: &mut Vec<(String, V)>, key: String, value: V)
    requires
        distinct_keys(old(entries)@),
    ensures
        distinct_keys(final(entries)@),
        entries_map(final(entries)@) == entries_map(old(entries)@).insert(key@, value),
{
    proof {
        lemma_entries_map(entries@);
    }
    let ghost old_map = entries_map(entries@);
    match position(&*entries, key.as_str()) {
        Some(i) => {
            let ghost k = key@;
            let _ = entries.remove(i);
            let ghost removed = entries@;
            assert(distinct_keys(removed)) by {
                assert forall|a: int, b: int| 0 <= a < b < removed.len() implies (#[trigger] removed[a]).0@ != (#[trigger] removed[b]).0@ by {
                    let a0 = if a < i { a } else { a + 1 };
                    let b0 = if b < i { b } else { b + 1 };
                    assert(removed[a] == old(entries)@[a0]);
                    assert(removed[b] == old(entries)@[b0]);
                }
            }
            entries.push((key, value));
            let ghost e = entries@;
            assert(distinct_keys(e)) by {
                assert forall|a: int, b: int| 0 <= a < b < e.len() implies (#[trigger] e[a]).0@ != (#[trigger] e[b]).0@ by {
                    if b == e.len() - 1 {
                        let a0 = if a < i { a } else { a + 1 };
                        assert(e[a] == old(entries)@[a0]);
                    } else {
                        assert(e[a] == removed[a]);
                        assert(e[b] == removed[b]);
                    }
                }
            }
            proof {
                lemma_entries_map(e);
                assert forall|kk: Seq<char>| #[trigger] entries_map(entries@).contains_key(kk) == old_map.insert(k, value).contains_key(kk) by {
                    if old_map.contains_key(kk) && kk != k {
                        let j = choose|j: int| 0 <= j < old(entries)@.len() && (#[trigger] old(entries)@[j]).0@ == kk;
                        let j2 = if j < i { j } else { j - 1 };
                        assert(e[j2] == old(entries)@[j]);
                    }
                    if entries_map(entries@).contains_key(kk) && kk != k {
                        let j = choose|j: int| 0 <= j < e.len() && (#[trigger] e[j]).0@ == kk;
                        let j0 = if j < i { j } else { j + 1 };
                        assert(e[j] == old(entries)@[j0]);
                    }
                }
                assert forall|kk: Seq<char>| #[trigger] entries_map(entries@).contains_key(kk) implies entries_map(entries@)[kk] == old_map.insert(k, value)[kk] by {
                    let j = choose|j: int| 0 <= j < e.len() && (#[trigger] e[j]).0@ == kk;
                    if j < e.len() - 1 {
                        let j0 = if j < i { j } else { j + 1 };
                        assert(e[j] == old(entries)@[j0]);
                    }
                }
                assert(entries_map(entries@) =~= old_map.insert(k, value));
            }
        },
        None => {
            let ghost k = key@;
            entries.push((key, value));
            let ghost e = entries@;
            assert(distinct_keys(e)) by {
                assert forall|a: int, b: int| 0 <= a < b < e.len() implies (#[trigger] e[a]).0@ != (#[trigger] e[b]).0@ by {
                    assert(e[a] == old(entries)@[a]);
                    if b < e.len() - 1 {
                        assert(e[b] == old(entries)@[b]);
                    }
                }
            }
            assert(e.drop_last() =~= old(entries)@);
        },
    }
}

/// Removes what a list of distinct-keyed entries holds under `key`.
fn remove_entry<V>(entries: &mut Vec<(String, V)>, key: &str)
    requires
        distinct_keys(old(entries)@),
    ensures
        distinct_keys(final(entries)@),
        entries_map(final(entries)@) == entries_map(old(entries)@).remove(key@),
{
    proof {
        lemma_entries_map(entries@);
    }
    let ghost old_map = entries_map(entries@);
    match position(&*entries, key) {
        Some(i) => {
            let _ = entries.remove(i);
            let ghost e = entries@;
            assert(distinct_keys(e)) by {
                assert forall|a: int, b: int| 0 <= a < b < e.len() implies (#[trigger] e[a]).0@ != (#[trigger] e[b]).0@ by {
                    let a0 = if a < i { a } else { a + 1 };
                    let b0 = if b < i { b } else { b + 1 };
                    assert(e[a] == old(entries)@[a0]);
                    assert(e[b] == old(entries)@[b0]);
                }
            }
            proof {
                lemma_entries_map(e);
                assert forall|kk: Seq<char>| #[trigger] entries_map(entries@).contains_key(kk) == old_map.remove(key@).contains_key(kk) by {
                    if old_map.contains_key(kk) && kk != key@ {
                        let j = choose|j: int| 0 <= j < old(entries)@.len() && (#[trigger] old(entries)@[j]).0@ == kk;
                        let j2 = if j < i { j } else { j - 1 };
                        assert(e[j2] == old(entries)@[j]);
                    }
                    if entries_map(entries@).contains_key(kk) {
                        let j = choose|j: int| 0 <= j < e.len() && (#[trigger] e[j]).0@ == kk;
                        let j0 = if j < i { j } else { j + 1 };
                        assert(e[j] == old(entries)@[j0]);
                    }
                }
                assert forall|kk: Seq<char>| #[trigger] entries_map(entries@).contains_key(kk) implies entries_map(entries@)[kk] == old_map.remove(key@)[kk] by {
                    let j = choose|j: int| 0 <= j < e.len() && (#[trigger] e[j]).0@ == kk;
                    let j0 = if j < i { j } else { j + 1 };
                    assert(e[j] == old(entries)@[j0]);
                }
                assert(entries_map(entries@) =~= old_map.remove(key@));
            }
        },
        None => {
            assert(old_map.remove(key@) =~= old_map);
        },
    }
}

} // verus!
