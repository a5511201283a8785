//! A list of values keyed by text, each key at most once.

use vstd::prelude::*;

verus! {

/// The map whose entries are the pairs of `s`, later pairs winning.
pub open spec fn pairs_map<H>(s: Seq<(String, H)>) -> Map<Seq<char>, H>
    decreases s.len(),
{
    if s.len() == 0 {
        Map::empty()
    } else {
        pairs_map(s.drop_last()).insert(s.last().0@, s.last().1)
    }
}

pub open spec fn keys_unique<H>(s: Seq<(String, H)>) -> bool {
    forall|i: int, j: int| 0 <= i < j < s.len() ==> #[trigger] s[i].0@ != #[trigger] s[j].0@
}

/// Values keyed by text; a key appears at most once.
pub struct KeyedList<V> {
    entries: Vec<(String, V)>,
}

impl<V> KeyedList<V> {
    /// Key to value.
    pub closed spec fn view(&self) -> Map<Seq<char>, V> {
        pairs_map(self.entries@)
    }

    pub closed spec fn wf(&self) -> bool {
        keys_unique(self.entries@)
    }

    /// The pairs, in the order in which their keys first came.
    pub closed spec fn pairs(&self) -> Seq<(String, V)> {
        self.entries@
    }

    /// No keys.
    pub fn new() -> (r: Self)
        ensures
            r.wf(),
            r.view() == Map::<Seq<char>, V>::empty(),
            r.pairs().len() == 0,
    {
        KeyedList { entries: Vec::new() }
    }

    /// Number of keys.
    pub fn len(&self) -> (r: usize)
        requires
            self.wf(),
        ensures
            r == self.view().len(),
    {
        proof {
            lemma_pairs_map_len(self.entries@);
        }
        self.entries.len()
    }

    /// Whether `key` has a value.
    pub fn contains(&self, key: &str) -> (r: bool)
        requires
            self.wf(),
        ensures
            r == self.view().contains_key(key@),
    {
        let d = key.to_owned();
        let i = self.index_of(&d);
        proof {
            if i.is_none() {
                lemma_pairs_map_absent(self.entries@, d@);
            } else {
                lemma_pairs_map_index(self.entries@, i.unwrap() as int);
            }
        }
        i.is_some()
    }

    fn index_of(&self, d: &String) -> (r: Option<usize>)
        ensures
            match r {
                Some(i) => i < self.entries@.len() && self.entries@[i as int].0@ == d@,
                None => forall|k: int| 0 <= k < self.entries@.len() ==> #[trigger] self.entries@[k].0@ != d@,
            },
    {
        let mut k: usize = 0;
        while k < self.entries.len()
            invariant
                k <= self.entries@.len(),
                forall|j: int| 0 <= j < k ==> #[trigger] self.entries@[j].0@ != d@,
            decreases self.entries@.len() - k,
        {
            if self.entries[k].0 == *d {
                return Some(k);
            }
            k = k + 1;
        }
        None
    }

    /// Sets the value of `key`; returns the value it replaces.
    pub fn insert(&mut self, key: String, value: V) -> (r: Option<V>)
        requires
            old(self).wf(),
        ensures
            final(self).wf(),
            final(self).view() == old(self).view().insert(key@, value),
            r == if old(self).view().contains_key(key@) {
                Some(old(self).view()[key@])
            } else {
                None
            },
    {
        match self.index_of(&key) {
            Some(i) => {
                proof {
                    lemma_pairs_map_index(self.entries@, i as int);
                }
                let old_entry = self.entries.remove(i);
                self.entries.insert(i, (key, value));
                proof {
                    lemma_pairs_map_update(old(self).entries@, i as int, self.entries@[i as int]);
                    assert(self.entries@ == old(self).entries@.update(i as int, self.entries@[i as int]));
                }
                Some(old_entry.1)
            },
            None => {
                proof {
                    lemma_pairs_map_absent(self.entries@, key@);
                }
                let ghost k = key@;
                self.entries.push((key, value));
                proof {
                    assert(self.entries@.drop_last() == old(self).entries@);
                    assert forall|a: int, b: int| 0 <= a < b < self.entries@.len() implies
                        #[trigger] self.entries@[a].0@ != #[trigger] self.entries@[b].0@ by {
                        if b == self.entries@.len() - 1 {
                            assert(old(self).entries@[a].0@ != k);
                        } else {
                            assert(old(self).entries@[a].0@ != old(self).entries@[b].0@);
                        }
                    }
                }
                None
            },
        }
    }

    /// Drops the value of `key`; returns it. Nothing changes for a key
    /// without a value.
    pub fn remove(&mut self, key: &str) -> (r: Option<V>)
        requires
            old(self).wf(),
        ensures
            final(self).wf(),
            final(self).view() == old(self).view().remove(key@),
            r == if old(self).view().contains_key(key@) {
                Some(old(self).view()[key@])
            } else {
                None
            },
    {
        let d = key.to_owned();
        match self.index_of(&d) {
            Some(i) => {
                proof {
                    lemma_pairs_map_index(self.entries@, i as int);
                    lemma_pairs_map_remove(self.entries@, i as int);
                }
                let old_entry = self.entries.remove(i);
                Some(old_entry.1)
            },
            None => {
                proof {
                    lemma_pairs_map_absent(self.entries@, d@);
                    assert(old(self).view().remove(key@) =~= old(self).view());
                }
                None
            },
        }
    }

    /// The pairs, each key once.
    pub fn into_pairs(self) -> (r: Vec<(String, V)>)
        requires
            self.wf(),
        ensures
            keys_unique(r@),
            pairs_map(r@) == self.view(),
            r@ == self.pairs(),
    {
        self.entries
    }
}

/// The map of a well-formed list is finite.
pub proof fn lemma_pairs_map_len_of<V>(l: KeyedList<V>)
    requires
        l.wf(),
    ensures
        l.view().dom().finite(),
{
    lemma_pairs_map_len(l.entries@);
}

/// A key that no pair carries is not in the map.
proof fn lemma_pairs_map_absent<H>(s: Seq<(String, H)>, d: Seq<char>)
    requires
        forall|k: int| 0 <= k < s.len() ==> #[trigger] s[k].0@ != d,
    ensures
        !pairs_map(s).contains_key(d),
    decreases s.len(),
{
    if s.len() > 0 {
        assert(s[s.len() - 1].0@ != d);
        assert forall|k: int| 0 <= k < s.drop_last().len() implies #[trigger] s.drop_last()[k].0@ != d by {
            assert(s.drop_last()[k] == s[k]);
        }
        lemma_pairs_map_absent(s.drop_last(), d);
    }
}

/// With unique keys, each pair is an entry of the map.
proof fn lemma_pairs_map_index<H>(s: Seq<(String, H)>, i: int)
    requires
        keys_unique(s),
        0 <= i < s.len(),
    ensures
        pairs_map(s).contains_key(s[i].0@),
        pairs_map(s)[s[i].0@] == s[i].1,
    decreases s.len(),
{
    if i < s.len() - 1 {
        let t = s.drop_last();
        assert(t[i] == s[i]);
        assert(keys_unique(t)) by {
            assert forall|a: int, b: int| 0 <= a < b < t.len() implies #[trigger] t[a].0@ != #[trigger] t[b].0@ by {
                assert(t[a] == s[a] && t[b] == s[b]);
            }
        }
        lemma_pairs_map_index(t, i);
        assert(s[i].0@ != s[s.len() - 1].0@);
    }
}

/// Every key of the map is carried by some pair.
proof fn lemma_pairs_map_keys<H>(s: Seq<(String, H)>, d: Seq<char>)
    requires
        pairs_map(s).contains_key(d),
    ensures
        exists|k: int| 0 <= k < s.len() && #[trigger] s[k].0@ == d,
    decreases s.len(),
{
    if s.last().0@ != d {
        lemma_pairs_map_keys(s.drop_last(), d);
        let k = choose|k: int| 0 <= k < s.drop_last().len() && #[trigger] s.drop_last()[k].0@ == d;
        assert(s[k] == s.drop_last()[k]);
    } else {
        assert(s[s.len() - 1].0@ == d);
    }
}

/// With unique keys, the map has one entry per pair.
proof fn lemma_pairs_map_len<H>(s: Seq<(String, H)>)
    requires
        keys_unique(s),
    ensures
        pairs_map(s).dom().finite(),
        pairs_map(s).len() == s.len(),
    decreases s.len(),
{
    if s.len() > 0 {
        let t = s.drop_last();
        assert(keys_unique(t)) by {
            assert forall|a: int, b: int| 0 <= a < b < t.len() implies #[trigger] t[a].0@ != #[trigger] t[b].0@ by {
                assert(t[a] == s[a] && t[b] == s[b]);
            }
        }
        lemma_pairs_map_len(t);
        assert forall|k: int| 0 <= k < t.len() implies #[trigger] t[k].0@ != s.last().0@ by {
            assert(t[k] == s[k]);
        }
        lemma_pairs_map_absent(t, s.last().0@);
    }
}

proof fn lemma_unique_after_update<H>(s: Seq<(String, H)>, i: int, e: (String, H))
    requires
        keys_unique(s),
        0 <= i < s.len(),
        e.0@ == s[i].0@,
    ensures
        keys_unique(s.update(i, e)),
{
    let t = s.update(i, e);
    assert forall|a: int, b: int| 0 <= a < b < t.len() implies #[trigger] t[a].0@ != #[trigger] t[b].0@ by {
        assert(t[a].0@ == s[a].0@ && t[b].0@ == s[b].0@);
    }
}

/// Replacing the value of a pair replaces it in the map.
proof fn lemma_pairs_map_update<H>(s: Seq<(String, H)>, i: int, e: (String, H))
    requires
        keys_unique(s),
        0 <= i < s.len(),
        e.0@ == s[i].0@,
    ensures
        keys_unique(s.update(i, e)),
        pairs_map(s.update(i, e)) == pairs_map(s).insert(e.0@, e.1),
{
    let t = s.update(i, e);
    lemma_unique_after_update(s, i, e);
    let m = pairs_map(s).insert(e.0@, e.1);
    assert forall|k: Seq<char>| #[trigger] pairs_map(t).contains_key(k) <==> m.contains_key(k) by {
        if pairs_map(t).contains_key(k) {
            lemma_pairs_map_keys(t, k);
            let j = choose|j: int| 0 <= j < t.len() && #[trigger] t[j].0@ == k;
            if j != i {
                lemma_pairs_map_index(s, j);
            }
        }
        if m.contains_key(k) && k != e.0@ {
            lemma_pairs_map_keys(s, k);
            let j = choose|j: int| 0 <= j < s.len() && #[trigger] s[j].0@ == k;
            lemma_pairs_map_index(t, j);
        }
        if k == e.0@ {
            lemma_pairs_map_index(t, i);
        }
    }
    assert forall|k: Seq<char>| #[trigger] pairs_map(t).contains_key(k) implies pairs_map(t)[k] == m[k] by {
        lemma_pairs_map_keys(t, k);
        let j = choose|j: int| 0 <= j < t.len() && #[trigger] t[j].0@ == k;
        lemma_pairs_map_index(t, j);
        if j != i {
            lemma_pairs_map_index(s, j);
        }
    }
    assert(pairs_map(t) =~= m);
}

/// Dropping a pair drops its key from the map.
proof fn lemma_pairs_map_remove<H>(s: Seq<(String, H)>, i: int)
    requires
        keys_unique(s),
        0 <= i < s.len(),
    ensures
        keys_unique(s.remove(i)),
        pairs_map(s.remove(i)) == pairs_map(s).remove(s[i].0@),
{
    let t = s.remove(i);
    let d = s[i].0@;
    assert forall|a: int, b: int| 0 <= a < b < t.len() implies #[trigger] t[a].0@ != #[trigger] t[b].0@ by {
        let a0 = if a < i { a } else { a + 1 };
        let b0 = if b < i { b } else { b + 1 };
        assert(t[a] == s[a0] && t[b] == s[b0]);
    }
    let m = pairs_map(s).remove(d);
    assert forall|k: Seq<char>| #[trigger] pairs_map(t).contains_key(k) <==> m.contains_key(k) by {
        if pairs_map(t).contains_key(k) {
            lemma_pairs_map_keys(t, k);
            let j = choose|j: int| 0 <= j < t.len() && #[trigger] t[j].0@ == k;
            let j0 = if j < i { j } else { j + 1 };
            assert(t[j] == s[j0]);
            lemma_pairs_map_index(s, j0);
        }
        if m.contains_key(k) {
            lemma_pairs_map_keys(s, k);
            let j = choose|j: int| 0 <= j < s.len() && #[trigger] s[j].0@ == k;
            let j1 = if j < i { j } else { j - 1 };
            assert(t[j1] == s[j]);
            lemma_pairs_map_index(t, j1);
        }
    }
    assert forall|k: Seq<char>| #[trigger] pairs_map(t).contains_key(k) implies pairs_map(t)[k] == m[k] by {
        lemma_pairs_map_keys(t, k);
        let j = choose|j: int| 0 <= j < t.len() && #[trigger] t[j].0@ == k;
        let j0 = if j < i { j } else { j + 1 };
        assert(t[j] == s[j0]);
        lemma_pairs_map_index(t, j);
        lemma_pairs_map_index(s, j0);
    }
    assert(pairs_map(t) =~= m);
}

} // verus!
