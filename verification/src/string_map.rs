use vstd::prelude::*;

verus! {

/// The map that a list of entries describes: a later entry for a key
/// overrides an earlier one.
pub open spec fn entries_map<V>(s: Seq<(String, V)>) -> Map<Seq<char>, V>
    decreases s.len(),
{
    if s.len() == 0 {
        Map::empty()
    } else {
        entries_map(s.drop_last()).insert(s.last().0@, s.last().1)
    }
}

/// Whether `i` is the last entry of `s` for key `k`.
pub open spec fn last_entry_for<V>(s: Seq<(String, V)>, k: Seq<char>, i: int) -> bool {
    &&& 0 <= i < s.len()
    &&& s[i].0@ == k
    &&& forall|j: int| i < j < s.len() ==> s[j].0@ != k
}

/// The map holds a key exactly when some entry has it, with the value of
/// its last entry.
proof fn lemma_entries_map_lookup<V>(s: Seq<(String, V)>, k: Seq<char>, i: int)
    requires
        last_entry_for(s, k, i),
    ensures
        entries_map(s).contains_key(k),
        entries_map(s)[k] == s[i].1,
    decreases s.len(),
{
    if i < s.len() - 1 {
        lemma_entries_map_lookup(s.drop_last(), k, i);
    }
}

/// A key that no entry has is absent from the map.
proof fn lemma_entries_map_absent<V>(s: Seq<(String, V)>, k: Seq<char>)
    requires
        forall|j: int| 0 <= j < s.len() ==> s[j].0@ != k,
    ensures
        !entries_map(s).contains_key(k),
    decreases s.len(),
{
    if s.len() > 0 {
        lemma_entries_map_absent(s.drop_last(), k);
    }
}

/// Replacing the last entry for a key replaces the key's value.
proof fn lemma_entries_map_update<V>(s: Seq<(String, V)>, i: int, key: String, v: V)
    requires
        last_entry_for(s, key@, i),
    ensures
        entries_map(s.update(i, (key, v))) == entries_map(s).insert(key@, v),
    decreases s.len(),
{
    let t = s.update(i, (key, v));
    if i == s.len() - 1 {
        assert(t.drop_last() =~= s.drop_last());
        assert(entries_map(t) =~= entries_map(s).insert(key@, v));
    } else {
        assert(t.drop_last() =~= s.drop_last().update(i, (key, v)));
        lemma_entries_map_update(s.drop_last(), i, key, v);
        assert(entries_map(t) =~= entries_map(s).insert(key@, v));
    }
}

/// A map from strings to values, kept as a list of entries.
pub struct StringMap<V> {
    entries: Vec<(String, V)>,
}

impl<V> View for StringMap<V> {
    type V = Map<Seq<char>, V>;

    closed spec fn view(&self) -> Map<Seq<char>, V> {
        entries_map(self.entries@)
    }
}

impl<V> StringMap<V> {
    /// An empty map.
    pub fn new() -> (m: Self)
        ensures
            m@ == Map::<Seq<char>, V>::empty(),
    {
        StringMap { entries: Vec::new() }
    }

    /// The index of the last entry for `key`, if any.
    fn position(&self, key: &String) -> (r: Option<usize>)
        ensures
            r matches Some(i) ==> last_entry_for(self.entries@, key@, i as int),
            r is None ==> forall|j: int|
                0 <= j < self.entries@.len() ==> self.entries@[j].0@ != key@,
    {
        let mut i = self.entries.len();
        while i > 0
            invariant
                i <= self.entries@.len(),
                forall|j: int| i <= j < self.entries@.len() ==> self.entries@[j].0@ != key@,
            decreases i,
        {
            if self.entries[i - 1].0 == *key {
                return Some(i - 1);
            }
            i = i - 1;
        }
        None
    }

    /// The value stored under `key`, if any.
    pub fn get(&self, key: &str) -> (r: Option<&V>)
        ensures
            r matches Some(v) ==> self@.contains_key(key@) && self@[key@] == *v,
            r is None ==> !self@.contains_key(key@),
    {
        let k = key.to_string();
        match self.position(&k) {
            Some(i) => {
                proof {
                    lemma_entries_map_lookup(self.entries@, key@, i as int);
                }
                Some(&self.entries[i].1)
            },
            None => {
                proof {
                    lemma_entries_map_absent(self.entries@, key@);
                }
                None
            },
        }
    }

    /// Stores `value` under `key`, giving back the value stored there before.
    pub fn insert(&mut self, key: &str, value: V) -> (r: Option<V>)
        ensures
            final(self)@ == old(self)@.insert(key@, value),
            r matches Some(v) ==> old(self)@.contains_key(key@) && old(self)@[key@] == v,
            r is None ==> !old(self)@.contains_key(key@),
    {
        let k = key.to_string();
        match self.position(&k) {
            Some(i) => {
                proof {
                    lemma_entries_map_lookup(self.entries@, key@, i as int);
                    lemma_entries_map_update(self.entries@, i as int, k, value);
                }
                let ghost before = self.entries@;
                let (_, old_value) = self.entries.remove(i);
                self.entries.insert(i, (k, value));
                assert(self.entries@ =~= before.update(i as int, (k, value)));
                Some(old_value)
            },
            None => {
                proof {
                    lemma_entries_map_absent(self.entries@, key@);
                }
                let ghost before = self.entries@;
                self.entries.push((k, value));
                assert(self.entries@.drop_last() =~= before);
                None
            },
        }
    }
}

} // verus!
