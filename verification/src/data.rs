//! The session's key-value bag: string keys mapped to serialized string
//! values, stored as a vector of entries without duplicate keys and viewed
//! as a `Map<Seq<char>, Seq<char>>`.

use vstd::prelude::*;

verus! {

/// No two entries share a key.
pub open spec fn keys_unique(entries: Seq<(String, String)>) -> bool {
    forall|i: int, j: int|
        0 <= i < j < entries.len() ==> entries[i].0@ != entries[j].0@
}

/// The mapping a sequence of entries denotes; a later entry wins.
pub open spec fn map_of(entries: Seq<(String, String)>) -> Map<Seq<char>, Seq<char>>
    decreases entries.len(),
{
    if entries.len() == 0 {
        Map::empty()
    } else {
        map_of(entries.drop_last()).insert(entries.last().0@, entries.last().1@)
    }
}

/// A key is in the denoted map exactly when some entry carries it.
pub proof fn lemma_map_of_domain(entries: Seq<(String, String)>, k: Seq<char>)
    ensures
        map_of(entries).contains_key(k) <==> exists|i: int|
            0 <= i < entries.len() && entries[i].0@ == k,
    decreases entries.len(),
{
    if entries.len() > 0 {
        lemma_map_of_domain(entries.drop_last(), k);
        if map_of(entries).contains_key(k) && entries.last().0@ != k {
            let i = choose|i: int|
                0 <= i < entries.drop_last().len() && entries.drop_last()[i].0@ == k;
            assert(entries[i].0@ == k);
        }
        if exists|i: int| 0 <= i < entries.len() && entries[i].0@ == k {
            let i = choose|i: int| 0 <= i < entries.len() && entries[i].0@ == k;
            if i < entries.len() - 1 {
                assert(entries.drop_last()[i].0@ == k);
            }
        }
    }
}

/// With unique keys, each entry is the map's authority for its key.
pub proof fn lemma_map_of_index(entries: Seq<(String, String)>, i: int)
    requires
        keys_unique(entries),
        0 <= i < entries.len(),
    ensures
        map_of(entries).contains_key(entries[i].0@),
        map_of(entries)[entries[i].0@] == entries[i].1@,
    decreases entries.len(),
{
    if i < entries.len() - 1 {
        assert(keys_unique(entries.drop_last()));
        assert(entries.drop_last()[i] == entries[i]);
        lemma_map_of_index(entries.drop_last(), i);
        assert(entries.last().0@ != entries[i].0@);
    }
}

/// With unique keys, the map has exactly one member per entry.
pub proof fn lemma_map_of_len(entries: Seq<(String, String)>)
    requires
        keys_unique(entries),
    ensures
        map_of(entries).dom().finite(),
        map_of(entries).len() == entries.len(),
    decreases entries.len(),
{
    if entries.len() > 0 {
        assert(keys_unique(entries.drop_last()));
        lemma_map_of_len(entries.drop_last());
        lemma_map_of_domain(entries.drop_last(), entries.last().0@);
        assert(forall|i: int|
            0 <= i < entries.drop_last().len() ==> entries.drop_last()[i].0@
                != entries.last().0@);
        assert(!map_of(entries.drop_last()).contains_key(entries.last().0@));
    }
}

/// The per-request bag of session values: string keys to serialized strings.
pub struct SessionData {
    entries: Vec<(String, String)>,
}

impl View for SessionData {
    type V = Map<Seq<char>, Seq<char>>;

    closed spec fn view(&self) -> Map<Seq<char>, Seq<char>> {
        map_of(self.entries@)
    }
}

impl SessionData {
    #[verifier::type_invariant]
    spec fn wf(&self) -> bool {
        keys_unique(self.entries@)
    }

    /// An empty bag.
    pub fn new() -> (r: SessionData)
        ensures
            r@ == Map::<Seq<char>, Seq<char>>::empty(),
    {
        SessionData { entries: Vec::new() }
    }

    /// The number of stored values.
    pub fn len(&self) -> (r: usize)
        ensures
            r == self@.len(),
    {
        proof {
            use_type_invariant(self);
            lemma_map_of_len(self.entries@);
        }
        self.entries.len()
    }

    /// Whether the bag holds no value.
    pub fn is_empty(&self) -> (r: bool)
        ensures
            r == self@.is_empty(),
    {
        proof {
            use_type_invariant(self);
            lemma_map_of_len(self.entries@);
            if self@.len() == 0 {
                assert(self@ =~= Map::<Seq<char>, Seq<char>>::empty());
            }
        }
        self.entries.len() == 0
    }

    /// The index of the entry carrying `key`, if any.
    fn position_of(&self, key: &String) -> (r: Option<usize>)
        ensures
            match r {
                Some(i) => i < self.entries@.len() && self.entries@[i as int].0@ == key@,
                None => forall|i: int|
                    0 <= i < self.entries@.len() ==> self.entries@[i].0@ != key@,
            },
    {
        let n = self.entries.len();
        for i in 0..n
            invariant
                n == self.entries@.len(),
                forall|j: int| 0 <= j < i ==> self.entries@[j].0@ != key@,
        {
            if self.entries[i].0.eq(key) {
                return Some(i);
            }
        }
        None
    }

    /// The value stored under `key`, if any.
    pub fn get(&self, key: &str) -> (r: Option<&String>)
        ensures
            match r {
                Some(v) => self@.contains_key(key@) && v@ == self@[key@],
                None => !self@.contains_key(key@),
            },
    {
        proof {
            use_type_invariant(self);
        }
        let owned = key.to_owned();
        let pos = self.position_of(&owned);
        proof {
            lemma_map_of_domain(self.entries@, key@);
        }
        match pos {
            Some(i) => {
                proof {
                    lemma_map_of_index(self.entries@, i as int);
                }
                Some(&self.entries[i].1)
            },
            None => None,
        }
    }

    /// Whether a value is stored under `key`.
    pub fn contains_key(&self, key: &str) -> (r: bool)
        ensures
            r == self@.contains_key(key@),
    {
        self.get(key).is_some()
    }

    /// Stores `value` under `key`, replacing any previous value.
    pub fn insert(&mut self, key: &str, value: String)
        ensures
            final(self)@ == old(self)@.insert(key@, value@),
    {
        proof {
            use_type_invariant(&*self);
        }
        let owned = key.to_owned();
        let pos = self.position_of(&owned);
        let ghost before = self.entries@;
        let mut entries = Vec::new();
        std::mem::swap(&mut entries, &mut self.entries);
        let pair = (owned, value);
        let ghost new_pair = pair;
        match pos {
            Some(i) => {
                entries.set(i, pair);
                proof {
                    lemma_replace_entry(before, i as int, new_pair);
                }
            },
            None => {
                entries.push(pair);
                proof {
                    assert(entries@.drop_last() =~= before);
                    assert(keys_unique(entries@));
                }
            },
        }
        self.entries = entries;
    }

    /// Drops the value stored under `key`, if any.
    pub fn remove(&mut self, key: &str)
        ensures
            final(self)@ == old(self)@.remove(key@),
    {
        proof {
            use_type_invariant(&*self);
        }
        let owned = key.to_owned();
        let pos = self.position_of(&owned);
        let ghost before = self.entries@;
        let mut entries = Vec::new();
        std::mem::swap(&mut entries, &mut self.entries);
        match pos {
            Some(i) => {
                entries.remove(i);
                proof {
                    lemma_remove_entry(before, i as int, key@);
                }
            },
            None => {
                proof {
                    lemma_map_of_domain(before, key@);
                    assert(map_of(before).remove(key@) =~= map_of(before));
                }
            },
        }
        self.entries = entries;
    }

    /// Drops every value.
    pub fn clear(&mut self)
        ensures
            final(self)@ == Map::<Seq<char>, Seq<char>>::empty(),
    {
        self.entries = Vec::new();
    }

    /// A copy with the same contents.
    pub fn duplicate(&self) -> (r: SessionData)
        ensures
            r@ == self@,
    {
        proof {
            use_type_invariant(self);
        }
        let n = self.entries.len();
        let mut entries: Vec<(String, String)> = Vec::new();
        for i in 0..n
            invariant
                n == self.entries@.len(),
                entries@.len() == i,
                forall|j: int| 0 <= j < i ==> entries@[j] == self.entries@[j],
                keys_unique(self.entries@),
        {
            let k = self.entries[i].0.clone();
            let v = self.entries[i].1.clone();
            entries.push((k, v));
        }
        proof {
            assert(entries@ =~= self.entries@);
        }
        SessionData { entries }
    }

    /// The entries as plain pairs, for the storage encoder.
    pub fn entries(&self) -> (r: &Vec<(String, String)>)
        ensures
            keys_unique(r@),
            map_of(r@) == self@,
    {
        proof {
            use_type_invariant(self);
        }
        &self.entries
    }

    /// Builds a bag from plain pairs, as the storage decoder hands them out.
    pub fn from_entries(entries: Vec<(String, String)>) -> (r: SessionData)
        requires
            keys_unique(entries@),
        ensures
            r@ == map_of(entries@),
    {
        SessionData { entries }
    }
}

/// Replacing the entry at `i` by one with the same key denotes insertion.
proof fn lemma_replace_entry(entries: Seq<(String, String)>, i: int, p: (String, String))
    requires
        keys_unique(entries),
        0 <= i < entries.len(),
        entries[i].0@ == p.0@,
    ensures
        keys_unique(entries.update(i, p)),
        map_of(entries.update(i, p)) == map_of(entries).insert(p.0@, p.1@),
    decreases entries.len(),
{
    let updated = entries.update(i, p);
    assert(keys_unique(updated));
    if i == entries.len() - 1 {
        assert(updated.drop_last() =~= entries.drop_last());
        assert(map_of(updated) =~= map_of(entries).insert(p.0@, p.1@));
    } else {
        assert(keys_unique(entries.drop_last()));
        assert(entries.drop_last()[i].0@ == p.0@);
        lemma_replace_entry(entries.drop_last(), i, p);
        assert(updated.drop_last() =~= entries.drop_last().update(i, p));
        assert(entries.last().0@ != p.0@);
        assert(map_of(updated) =~= map_of(entries).insert(p.0@, p.1@));
    }
}

/// Removing the entry at `i` denotes removal of its key.
proof fn lemma_remove_entry(entries: Seq<(String, String)>, i: int, k: Seq<char>)
    requires
        keys_unique(entries),
        0 <= i < entries.len(),
        entries[i].0@ == k,
    ensures
        keys_unique(entries.remove(i)),
        map_of(entries.remove(i)) == map_of(entries).remove(k),
    decreases entries.len(),
{
    let removed = entries.remove(i);
    assert(keys_unique(removed));
    if i == entries.len() - 1 {
        assert(removed =~= entries.drop_last());
        lemma_map_of_domain(entries.drop_last(), k);
        assert(forall|j: int|
            0 <= j < entries.drop_last().len() ==> entries.drop_last()[j].0@ != k);
        assert(!map_of(entries.drop_last()).contains_key(k));
        assert(map_of(removed) =~= map_of(entries).remove(k));
    } else {
        assert(keys_unique(entries.drop_last()));
        assert(entries.drop_last()[i].0@ == k);
        lemma_remove_entry(entries.drop_last(), i, k);
        assert(removed.drop_last() =~= entries.drop_last().remove(i));
        assert(removed.last() == entries.last());
        assert(entries.last().0@ != k);
        assert(map_of(removed) =~= map_of(entries).remove(k));
    }
}

} // verus!
