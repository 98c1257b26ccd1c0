//! Groups of strings under string keys: topic to subscribers, tenant to
//! topics, topic to webhook addresses.
use crate::string_map::StringMap;
use crate::string_set::StringSet;
use vstd::prelude::*;

verus! {

/// The group under `key`; a key that the index does not hold has the empty
/// group.
pub open spec fn members_of(
    index: Map<Seq<char>, Set<Seq<char>>>,
    key: Seq<char>,
) -> Set<Seq<char>> {
    if index.contains_key(key) {
        index[key]
    } else {
        Set::empty()
    }
}

/// Whether `member` stands in the group under `key`.
pub open spec fn holds(index: Map<Seq<char>, Set<Seq<char>>>, key: Seq<char>, member: Seq<char>) -> bool {
    index.contains_key(key) && index[key].contains(member)
}

/// The index after `member` joins the group under `key`.
pub open spec fn with_member(
    index: Map<Seq<char>, Set<Seq<char>>>,
    key: Seq<char>,
    member: Seq<char>,
) -> Map<Seq<char>, Set<Seq<char>>> {
    index.insert(key, members_of(index, key).insert(member))
}

/// The index that the first `upto` of a list of (key, member) pairs spell
/// out: each key that occurs, with all the members it occurs with.
pub open spec fn grouped(pairs: Seq<(String, String)>, upto: int) -> Map<Seq<char>, Set<Seq<char>>> {
    Map::new(
        |key: Seq<char>| exists|i: int| 0 <= i < upto && i < pairs.len() && (#[trigger] pairs[i]).0@ == key,
        |key: Seq<char>|
            Set::new(
                |member: Seq<char>|
                    exists|i: int|
                        0 <= i < upto && i < pairs.len() && (#[trigger] pairs[i]).0@ == key && pairs[i].1@
                            == member,
            ),
    )
}

/// A map from strings to sets of strings.
pub struct StringIndex {
    groups: StringMap<StringSet>,
}

impl View for StringIndex {
    type V = Map<Seq<char>, Set<Seq<char>>>;

    closed spec fn view(&self) -> Map<Seq<char>, Set<Seq<char>>> {
        self.groups@.map_values(|group: StringSet| group@)
    }
}

impl StringIndex {
    /// The index without any key.
    pub fn new() -> (index: Self)
        ensures
            index@ == Map::<Seq<char>, Set<Seq<char>>>::empty(),
    {
        let index = StringIndex { groups: StringMap::new() };
        assert(index@ =~= Map::<Seq<char>, Set<Seq<char>>>::empty());
        index
    }

    /// The group under `key`, if the index holds the key.
    pub fn group(&self, key: &String) -> (group: Option<&StringSet>)
        ensures
            match group {
                Some(members) => self@.contains_key(key@) && members@ == self@[key@],
                None => !self@.contains_key(key@),
            },
    {
        self.groups.get(key)
    }

    /// Whether `member` stands in the group under `key`.
    pub fn contains(&self, key: &String, member: &String) -> (found: bool)
        ensures
            found == holds(self@, key@, member@),
    {
        match self.groups.get(key) {
            Some(members) => members.contains(member),
            None => false,
        }
    }

    /// Puts `member` into the group under `key`; a key that is new gets a
    /// group of its own.
    pub fn add(&mut self, key: &String, member: String)
        ensures
            final(self)@ == with_member(old(self)@, key@, member@),
    {
        let ghost f = |group: StringSet| group@;
        let ghost before = self.groups@;
        let mut group = match self.groups.remove(key) {
            Some(members) => members,
            None => StringSet::new(),
        };
        assert(group@ == members_of(old(self)@, key@));
        let _ = group.insert(member);
        self.groups.insert(key.clone(), group);
        proof {
            assert(self.groups@.map_values(f) =~= before.map_values(f).insert(key@, group@));
        }
    }

    /// The index that a list of (key, member) pairs spells out.
    pub fn from_pairs(pairs: &Vec<(String, String)>) -> (index: Self)
        ensures
            index@ == grouped(pairs@, pairs.len() as int),
    {
        let mut index = StringIndex::new();
        assert(index@ =~= grouped(pairs@, 0));
        let mut i: usize = 0;
        while i < pairs.len()
            invariant
                i <= pairs.len(),
                index@ == grouped(pairs@, i as int),
            decreases pairs.len() - i,
        {
            let ghost before = index@;
            index.add(&pairs[i].0, pairs[i].1.clone());
            proof {
                let next = grouped(pairs@, i + 1);
                let key_i = pairs[i as int].0@;
                let member_i = pairs[i as int].1@;
                assert forall|key: Seq<char>| #[trigger] next.contains_key(key) <==> (before.contains_key(key)
                    || key == key_i) by {
                    if key == key_i {
                        assert(pairs[i as int].0@ == key);
                    }
                }
                assert forall|key: Seq<char>| #[trigger] next.contains_key(key) implies index@[key]
                    =~= next[key] by {
                    assert forall|member: Seq<char>| next[key].contains(member) <==> (members_of(
                        before,
                        key,
                    ).contains(member) || (key == key_i && member == member_i)) by {
                        if key == key_i && member == member_i {
                            assert(pairs[i as int].0@ == key && pairs[i as int].1@ == member);
                        }
                    }
                }
                assert(index@.dom() =~= next.dom());
                assert forall|key: Seq<char>| #[trigger] next.contains_key(key) implies index@[key]
                    == next[key] by {}
                assert(index@ =~= next);
            }
            i += 1;
        }
        index
    }
}

} // verus!
