//! A small text-to-text map for format-specific tags, keeping each key once.

use vstd::prelude::*;

use crate::text::str_eq;

verus! {

/// Format-specific tags: each key appears once, with its latest value.
#[derive(Debug, Clone)]
pub struct TagMap {
    entries: Vec<(String, String)>,
}

/// The key-value pairs of `entries`, as text.
pub open spec fn entry_views(entries: Seq<(String, String)>) -> Seq<(Seq<char>, Seq<char>)> {
    entries.map_values(|e: (String, String)| (e.0@, e.1@))
}

/// No key occurs twice.
pub open spec fn keys_distinct<V>(entries: Seq<(Seq<char>, V)>) -> bool {
    forall|i: int, j: int|
        0 <= i < entries.len() && 0 <= j < entries.len() && i != j ==> #[trigger] entries[i].0
            != #[trigger] entries[j].0
}

/// The map that distinct-keyed entries describe.
pub open spec fn entries_map<V>(entries: Seq<(Seq<char>, V)>) -> Map<Seq<char>, V>
    decreases entries.len(),
{
    if entries.len() == 0 {
        Map::empty()
    } else {
        entries_map(entries.drop_last()).insert(entries.last().0, entries.last().1)
    }
}

impl View for TagMap {
    type V = Map<Seq<char>, Seq<char>>;

    closed spec fn view(&self) -> Map<Seq<char>, Seq<char>> {
        entries_map(entry_views(self.entries@))
    }
}

/// The map of distinct-keyed entries holds exactly their keys.
pub proof fn lemma_entries_map_domain<V>(entries: Seq<(Seq<char>, V)>, k: Seq<char>)
    ensures
        entries_map(entries).contains_key(k) <==> exists|i: int|
            0 <= i < entries.len() && #[trigger] entries[i].0 == k,
    decreases entries.len(),
{
    if entries.len() > 0 {
        lemma_entries_map_domain(entries.drop_last(), k);
        if entries_map(entries).contains_key(k) && k != entries.last().0 {
            let i = choose|i: int| 0 <= i < entries.drop_last().len() && #[trigger] entries.drop_last()[i].0 == k;
            assert(entries[i].0 == k);
        }
        if exists|i: int| 0 <= i < entries.len() && #[trigger] entries[i].0 == k {
            let i = choose|i: int| 0 <= i < entries.len() && #[trigger] entries[i].0 == k;
            if i < entries.len() - 1 {
                assert(entries.drop_last()[i].0 == k);
            }
        }
    }
}

/// Replacing the value at a key's position gives the map with that key
/// updated.
pub proof fn lemma_entries_map_update<V>(entries: Seq<(Seq<char>, V)>, i: int, v: V)
    requires
        keys_distinct(entries),
        0 <= i < entries.len(),
    ensures
        entries_map(entries.update(i, (entries[i].0, v))) == entries_map(entries).insert(
            entries[i].0,
            v,
        ),
    decreases entries.len(),
{
    let k = entries[i].0;
    let updated = entries.update(i, (k, v));
    if i == entries.len() - 1 {
        assert(updated.drop_last() =~= entries.drop_last());
        assert(entries_map(updated) =~= entries_map(entries).insert(k, v));
    } else {
        assert(updated.drop_last() =~= entries.drop_last().update(i, (k, v)));
        lemma_entries_map_update(entries.drop_last(), i, v);
        assert(entries.last().0 != k);
        assert(entries_map(updated) =~= entries_map(entries).insert(k, v));
    }
}

impl TagMap {
    /// The entries keep their keys distinct.
    pub closed spec fn wf(&self) -> bool {
        keys_distinct(entry_views(self.entries@))
    }

    /// An empty map.
    pub fn new() -> (m: TagMap)
        ensures
            m.wf(),
            m@ == Map::<Seq<char>, Seq<char>>::empty(),
    {
        let m = TagMap { entries: Vec::new() };
        proof {
            assert(entry_views(m.entries@) =~= Seq::<(Seq<char>, Seq<char>)>::empty());
        }
        m
    }

    /// The position of `key` among the entries, if present.
    fn position_of(&self, key: &str) -> (r: Option<usize>)
        ensures
            match r {
                Some(i) => i < self.entries@.len() && entry_views(self.entries@)[i as int].0 == key@,
                None => forall|j: int|
                    0 <= j < self.entries@.len() ==> entry_views(self.entries@)[j].0 != key@,
            },
    {
        let ghost ev = entry_views(self.entries@);
        let mut i: usize = 0;
        while i < self.entries.len()
            invariant
                i <= self.entries@.len(),
                ev == entry_views(self.entries@),
                forall|j: int| 0 <= j < i ==> ev[j].0 != key@,
            decreases self.entries@.len() - i,
        {
            if str_eq(self.entries[i].0.as_str(), key) {
                return Some(i);
            }
            i = i + 1;
        }
        None
    }

    /// Sets the value of `key`, replacing any earlier value.
    pub fn insert(&mut self, key: String, value: String)
        requires
            old(self).wf(),
        ensures
            final(self).wf(),
            final(self)@ == old(self)@.insert(key@, value@),
    {
        let ghost ev = entry_views(self.entries@);
        match self.position_of(key.as_str()) {
            Some(i) => {
                proof {
                    lemma_entries_map_update(ev, i as int, value@);
                }
                let k = self.entries[i].0.clone();
                self.entries.set(i, (k, value));
                proof {
                    let nv = entry_views(self.entries@);
                    assert(nv =~= ev.update(i as int, (ev[i as int].0, value@)));
                    assert forall|a: int, b: int|
                        0 <= a < nv.len() && 0 <= b < nv.len() && a != b implies #[trigger] nv[a].0
                        != #[trigger] nv[b].0 by {
                        assert(nv[a].0 == ev[a].0);
                        assert(nv[b].0 == ev[b].0);
                    }
                }
            },
            None => {
                proof {
                    lemma_entries_map_domain(ev, key@);
                }
                self.entries.push((key, value));
                proof {
                    let nv = entry_views(self.entries@);
                    assert(nv.drop_last() =~= ev);
                    assert(nv.last() == (key@, value@));
                    assert forall|a: int, b: int|
                        0 <= a < nv.len() && 0 <= b < nv.len() && a != b implies #[trigger] nv[a].0
                        != #[trigger] nv[b].0 by {
                        if a < ev.len() && b < ev.len() {
                            assert(nv[a].0 == ev[a].0);
                            assert(nv[b].0 == ev[b].0);
                        } else if a < ev.len() {
                            assert(nv[a].0 == ev[a].0);
                        } else {
                            assert(nv[b].0 == ev[b].0);
                        }
                    }
                }
            },
        }
    }

    /// The value of `key`, if any.
    pub fn get(&self, key: &str) -> (r: Option<&String>)
        requires
            self.wf(),
        ensures
            match r {
                Some(v) => self@.contains_key(key@) && self@[key@] == v@,
                None => !self@.contains_key(key@),
            },
    {
        let ghost ev = entry_views(self.entries@);
        let ghost old_map = self@;
        assert(old_map == entries_map(ev));
        let mut i: usize = 0;
        while i < self.entries.len()
            invariant
                i <= self.entries@.len(),
                ev == entry_views(self.entries@),
                old_map == entries_map(ev),
                keys_distinct(ev),
                forall|j: int| 0 <= j < i ==> ev[j].0 != key@,
            decreases self.entries@.len() - i,
        {
            if str_eq(self.entries[i].0.as_str(), key) {
                proof {
                    lemma_entries_map_update(ev, i as int, ev[i as int].1);
                    assert(ev.update(i as int, (ev[i as int].0, ev[i as int].1)) =~= ev);
                }
                return Some(&self.entries[i].1);
            }
            i = i + 1;
        }
        proof {
            lemma_entries_map_domain(ev, key@);
        }
        None
    }

    /// The number of keys.
    pub fn len(&self) -> (n: usize)
        requires
            self.wf(),
        ensures
            n == self@.len(),
    {
        proof {
            lemma_entries_map_len(entry_views(self.entries@));
        }
        self.entries.len()
    }

    /// Whether the map holds no key.
    pub fn is_empty(&self) -> (r: bool)
        requires
            self.wf(),
        ensures
            r == (self@.len() == 0),
    {
        proof {
            lemma_entries_map_len(entry_views(self.entries@));
        }
        self.entries.len() == 0
    }

    /// The entries, in the order their keys were first set.
    pub fn entries(&self) -> (r: &[(String, String)])
        requires
            self.wf(),
        ensures
            keys_distinct(entry_views(r@)),
            entries_map(entry_views(r@)) == self@,
    {
        self.entries.as_slice()
    }
}

/// Distinct-keyed entries describe a finite map with one key per entry.
pub proof fn lemma_entries_map_len<V>(entries: Seq<(Seq<char>, V)>)
    requires
        keys_distinct(entries),
    ensures
        entries_map(entries).dom().finite(),
        entries_map(entries).len() == entries.len(),
    decreases entries.len(),
{
    if entries.len() > 0 {
        let rest = entries.drop_last();
        assert(keys_distinct(rest));
        lemma_entries_map_len(rest);
        lemma_entries_map_domain(rest, entries.last().0);
        assert(!entries_map(rest).contains_key(entries.last().0));
    }
}

} // verus!
