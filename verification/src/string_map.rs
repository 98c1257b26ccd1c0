//! A finite map keyed by strings.
use crate::string_set::{lists, views_of};
use vstd::prelude::*;

verus! {

/// The keys of a list of entries, in the order of the list.
pub open spec fn keys_of<V>(entries: Seq<(String, V)>) -> Seq<Seq<char>> {
    entries.map_values(|e: (String, V)| e.0@)
}

/// The map that a list of entries with distinct keys stands for.
pub open spec fn table<V>(entries: Seq<(String, V)>) -> Map<Seq<char>, V> {
    Map::new(
        |k: Seq<char>| keys_of(entries).contains(k),
        |k: Seq<char>| entries[keys_of(entries).index_of(k)].1,
    )
}

/// Each entry of a list with distinct keys is found under its key.
proof fn lemma_table_entry<V>(entries: Seq<(String, V)>, i: int)
    requires
        keys_of(entries).no_duplicates(),
        0 <= i < entries.len(),
    ensures
        table(entries).contains_key(entries[i].0@),
        table(entries)[entries[i].0@] == entries[i].1,
{
    let keys = keys_of(entries);
    assert(keys[i] == entries[i].0@);
    assert(keys.contains(keys[i]));
    let j = keys.index_of(keys[i]);
    assert(0 <= j < keys.len() && keys[j] == keys[i]);
}

/// A key that no entry carries is not in the table.
proof fn lemma_table_absent<V>(entries: Seq<(String, V)>, key: Seq<char>)
    requires
        forall|j: int| 0 <= j < entries.len() ==> (#[trigger] entries[j]).0@ != key,
    ensures
        !table(entries).contains_key(key),
{
    let keys = keys_of(entries);
    if keys.contains(key) {
        let j = choose|j: int| 0 <= j < keys.len() && keys[j] == key;
        assert(entries[j].0@ == key);
    }
}

/// Appending an entry under a new key inserts it into the table.
proof fn lemma_table_push<V>(entries: Seq<(String, V)>, key: String, value: V)
    requires
        keys_of(entries).no_duplicates(),
        !table(entries).contains_key(key@),
    ensures
        keys_of(entries.push((key, value))).no_duplicates(),
        table(entries.push((key, value))) == table(entries).insert(key@, value),
{
    let grown = entries.push((key, value));
    let keys = keys_of(entries);
    let grown_keys = keys_of(grown);
    assert(grown_keys =~= keys.push(key@));
    assert(!keys.contains(key@));
    assert(grown_keys.no_duplicates());
    assert forall|k: Seq<char>| table(grown).contains_key(k) <==> table(entries).insert(
        key@,
        value,
    ).contains_key(k) by {
        if grown_keys.contains(k) {
            let j = choose|j: int| 0 <= j < grown_keys.len() && grown_keys[j] == k;
            if j < keys.len() {
                assert(keys[j] == k);
            }
        }
        if keys.contains(k) {
            let j = choose|j: int| 0 <= j < keys.len() && keys[j] == k;
            assert(grown_keys[j] == k);
        }
        if k == key@ {
            assert(grown_keys[keys.len() as int] == k);
        }
    }
    assert forall|k: Seq<char>| table(grown).contains_key(k) implies table(grown)[k] == table(
        entries,
    ).insert(key@, value)[k] by {
        let j = choose|j: int| 0 <= j < grown_keys.len() && grown_keys[j] == k;
        lemma_table_entry(grown, j);
        if j < keys.len() {
            lemma_table_entry(entries, j);
        }
    }
    assert(table(grown) =~= table(entries).insert(key@, value));
}

/// Replacing the value of an entry replaces it in the table.
proof fn lemma_table_update<V>(entries: Seq<(String, V)>, i: int, key: String, value: V)
    requires
        keys_of(entries).no_duplicates(),
        0 <= i < entries.len(),
        entries[i].0@ == key@,
    ensures
        keys_of(entries.update(i, (key, value))).no_duplicates(),
        table(entries.update(i, (key, value))) == table(entries).insert(key@, value),
{
    let changed = entries.update(i, (key, value));
    let keys = keys_of(entries);
    assert(keys_of(changed) =~= keys);
    assert forall|k: Seq<char>| table(changed).contains_key(k) <==> table(entries).insert(
        key@,
        value,
    ).contains_key(k) by {
        if k == key@ {
            assert(keys[i] == k);
        }
    }
    assert forall|k: Seq<char>| table(changed).contains_key(k) implies table(changed)[k] == table(
        entries,
    ).insert(key@, value)[k] by {
        let j = choose|j: int| 0 <= j < keys.len() && keys[j] == k;
        lemma_table_entry(changed, j);
        lemma_table_entry(entries, j);
        assert(keys[i] == key@);
    }
    assert(table(changed) =~= table(entries).insert(key@, value));
}

/// Dropping an entry removes its key from the table.
proof fn lemma_table_remove<V>(entries: Seq<(String, V)>, i: int)
    requires
        keys_of(entries).no_duplicates(),
        0 <= i < entries.len(),
    ensures
        keys_of(entries.remove(i)).no_duplicates(),
        table(entries.remove(i)) == table(entries).remove(entries[i].0@),
{
    let rest = entries.remove(i);
    let keys = keys_of(entries);
    let rest_keys = keys_of(rest);
    let gone = entries[i].0@;
    assert(keys[i] == gone);
    assert(rest_keys =~= keys.remove(i));
    assert forall|a: int, b: int|
        0 <= a < rest_keys.len() && 0 <= b < rest_keys.len() && a != b implies rest_keys[a]
        != rest_keys[b] by {
        let a0 = if a < i { a } else { a + 1 };
        let b0 = if b < i { b } else { b + 1 };
        assert(rest_keys[a] == keys[a0]);
        assert(rest_keys[b] == keys[b0]);
    }
    assert forall|k: Seq<char>| table(rest).contains_key(k) <==> table(entries).remove(
        gone,
    ).contains_key(k) by {
        if rest_keys.contains(k) {
            let j = choose|j: int| 0 <= j < rest_keys.len() && rest_keys[j] == k;
            let j0 = if j < i { j } else { j + 1 };
            assert(keys[j0] == k);
        }
        if keys.contains(k) && k != gone {
            let j = choose|j: int| 0 <= j < keys.len() && keys[j] == k;
            let j1 = if j < i { j } else { j - 1 };
            assert(rest_keys[j1] == k);
        }
    }
    assert forall|k: Seq<char>| table(rest).contains_key(k) implies table(rest)[k] == table(
        entries,
    ).remove(gone)[k] by {
        let j = choose|j: int| 0 <= j < rest_keys.len() && rest_keys[j] == k;
        let j0 = if j < i { j } else { j + 1 };
        lemma_table_entry(rest, j);
        assert(rest[j] == entries[j0]);
        lemma_table_entry(entries, j0);
    }
    assert(table(rest) =~= table(entries).remove(gone));
}

/// A finite map from strings to values of `V`. Two strings are the same key
/// when they hold the same characters.
pub struct StringMap<V> {
    entries: Vec<(String, V)>,
}

impl<V> View for StringMap<V> {
    type V = Map<Seq<char>, V>;

    closed spec fn view(&self) -> Map<Seq<char>, V> {
        table(self.entries@)
    }
}

impl<V> StringMap<V> {
    #[verifier::type_invariant]
    spec fn distinct(self) -> bool {
        keys_of(self.entries@).no_duplicates()
    }

    /// The empty map.
    pub fn new() -> (map: Self)
        ensures
            map@ == Map::<Seq<char>, V>::empty(),
    {
        let map = StringMap { entries: Vec::new() };
        assert(table(map.entries@) =~= Map::<Seq<char>, V>::empty());
        map
    }

    /// Where the entry of `key` stands in the list, if there is one.
    fn position(&self, key: &String) -> (at: Option<usize>)
        ensures
            match at {
                Some(i) => i < self.entries.len() && self.entries[i as int].0@ == key@
                    && self@.contains_key(key@) && self@[key@] == self.entries[i as int].1,
                None => !self@.contains_key(key@),
            },
    {
        proof {
            use_type_invariant(self);
        }
        let mut i: usize = 0;
        while i < self.entries.len()
            invariant
                i <= self.entries.len(),
                keys_of(self.entries@).no_duplicates(),
                forall|j: int| 0 <= j < i ==> (#[trigger] self.entries[j]).0@ != key@,
            decreases self.entries.len() - i,
        {
            if self.entries[i].0 == *key {
                proof {
                    lemma_table_entry(self.entries@, i as int);
                }
                return Some(i);
            }
            i += 1;
        }
        proof {
            lemma_table_absent(self.entries@, key@);
        }
        None
    }

    /// Whether `key` has a value.
    pub fn contains_key(&self, key: &String) -> (found: bool)
        ensures
            found == self@.contains_key(key@),
    {
        self.position(key).is_some()
    }

    /// The value of `key`, if it has one.
    pub fn get(&self, key: &String) -> (value: Option<&V>)
        ensures
            match value {
                Some(v) => self@.contains_key(key@) && *v == self@[key@],
                None => !self@.contains_key(key@),
            },
    {
        match self.position(key) {
            Some(i) => Some(&self.entries[i].1),
            None => None,
        }
    }

    /// The number of keys.
    pub fn len(&self) -> (count: usize)
        ensures
            self@.dom().finite(),
            count == self@.dom().len(),
    {
        proof {
            use_type_invariant(self);
            let keys = keys_of(self.entries@);
            assert(self@.dom() =~= keys.to_set());
            keys.unique_seq_to_set();
            vstd::seq_lib::seq_to_set_is_finite(keys);
        }
        self.entries.len()
    }

    /// Gives `key` the value `value`, in place of any it had.
    pub fn insert(&mut self, key: String, value: V)
        ensures
            final(self)@ == old(self)@.insert(key@, value),
    {
        proof {
            use_type_invariant(&*self);
        }
        let at = self.position(&key);
        let mut entries: Vec<(String, V)> = Vec::new();
        std::mem::swap(&mut entries, &mut self.entries);
        match at {
            Some(i) => {
                proof {
                    lemma_table_update(entries@, i as int, key, value);
                }
                entries.set(i, (key, value));
            },
            None => {
                proof {
                    lemma_table_push(entries@, key, value);
                }
                entries.push((key, value));
            },
        }
        self.entries = entries;
    }

    /// Takes `key` and its value out of the map; gives the value back.
    pub fn remove(&mut self, key: &String) -> (value: Option<V>)
        ensures
            final(self)@ == old(self)@.remove(key@),
            value == if old(self)@.contains_key(key@) {
                Some(old(self)@[key@])
            } else {
                None
            },
    {
        proof {
            use_type_invariant(&*self);
        }
        match self.position(key) {
            None => {
                assert(self@.remove(key@) =~= self@);
                None
            },
            Some(i) => {
                let mut entries: Vec<(String, V)> = Vec::new();
                std::mem::swap(&mut entries, &mut self.entries);
                proof {
                    lemma_table_remove(entries@, i as int);
                }
                let entry = entries.remove(i);
                self.entries = entries;
                Some(entry.1)
            },
        }
    }

    /// The keys, each once, in the order in which the map holds them.
    pub fn keys(&self) -> (list: Vec<String>)
        ensures
            lists(list@, self@.dom()),
    {
        proof {
            use_type_invariant(self);
        }
        let mut list: Vec<String> = Vec::new();
        let mut i: usize = 0;
        while i < self.entries.len()
            invariant
                i <= self.entries.len(),
                list.len() == i,
                forall|j: int| 0 <= j < i ==> (#[trigger] list[j])@ == self.entries[j].0@,
            decreases self.entries.len() - i,
        {
            list.push(self.entries[i].0.clone());
            i += 1;
        }
        proof {
            let keys = keys_of(self.entries@);
            assert(views_of(list@) =~= keys);
            assert(self@.dom() =~= keys.to_set());
        }
        list
    }
}

} // verus!
