//! A set of strings that can be walked in a fixed order.
use vstd::prelude::*;

verus! {

/// The contents of a list of strings, each taken as its sequence of
/// characters.
pub open spec fn views_of(items: Seq<String>) -> Seq<Seq<char>> {
    items.map_values(|s: String| s@)
}

/// A list of strings is a listing of a set when it names each member once.
pub open spec fn lists(items: Seq<String>, members: Set<Seq<char>>) -> bool {
    &&& views_of(items).no_duplicates()
    &&& views_of(items).to_set() == members
}

/// A listing has as many entries as the set has members.
pub proof fn lemma_listing_len(items: Seq<String>, members: Set<Seq<char>>)
    requires
        lists(items, members),
    ensures
        members.finite(),
        members.len() == items.len(),
{
    views_of(items).unique_seq_to_set();
    vstd::seq_lib::seq_to_set_is_finite(views_of(items));
}

/// A listing names exactly the members of its set.
pub proof fn lemma_listing_contains(items: Seq<String>, members: Set<Seq<char>>, name: Seq<char>)
    requires
        lists(items, members),
    ensures
        members.contains(name) <==> exists|i: int| 0 <= i < items.len() && #[trigger] items[i]@ == name,
{
    let names = views_of(items);
    if members.contains(name) {
        assert(names.contains(name));
        let i = choose|i: int| 0 <= i < names.len() && names[i] == name;
        assert(items[i]@ == name);
    }
    if exists|i: int| 0 <= i < items.len() && #[trigger] items[i]@ == name {
        let i = choose|i: int| 0 <= i < items.len() && #[trigger] items[i]@ == name;
        assert(names[i] == name);
        assert(names.contains(name));
    }
}

/// Whether one of the first `upto` entries of a list is `name`.
pub open spec fn listed_before(items: Seq<String>, upto: int, name: Seq<char>) -> bool {
    exists|k: int| 0 <= k < upto && k < items.len() && (#[trigger] items[k])@ == name
}

/// The members of a listed set are the entries of the listing.
pub proof fn lemma_listed(items: Seq<String>, members: Set<Seq<char>>, name: Seq<char>)
    requires
        lists(items, members),
    ensures
        members.contains(name) <==> listed_before(items, items.len() as int, name),
{
    lemma_listing_contains(items, members, name);
    if members.contains(name) {
        let i = choose|i: int| 0 <= i < items.len() && #[trigger] items[i]@ == name;
        assert(items[i]@ == name);
    }
}

/// A finite set of strings. Two strings are the same member when they hold
/// the same characters.
pub struct StringSet {
    items: Vec<String>,
}

impl View for StringSet {
    type V = Set<Seq<char>>;

    closed spec fn view(&self) -> Set<Seq<char>> {
        views_of(self.items@).to_set()
    }
}

impl StringSet {
    #[verifier::type_invariant]
    spec fn distinct(self) -> bool {
        views_of(self.items@).no_duplicates()
    }

    /// The empty set.
    pub fn new() -> (set: Self)
        ensures
            set@ == Set::<Seq<char>>::empty(),
    {
        let set = StringSet { items: Vec::new() };
        assert(views_of(set.items@).to_set() =~= Set::<Seq<char>>::empty());
        set
    }

    /// Where `name` stands in the list, if it is a member.
    fn position(&self, name: &String) -> (at: Option<usize>)
        ensures
            match at {
                Some(i) => i < self.items.len() && self.items[i as int]@ == name@,
                None => !self@.contains(name@),
            },
    {
        let mut i: usize = 0;
        while i < self.items.len()
            invariant
                i <= self.items.len(),
                forall|j: int| 0 <= j < i ==> self.items[j]@ != name@,
            decreases self.items.len() - i,
        {
            if self.items[i] == *name {
                return Some(i);
            }
            i += 1;
        }
        proof {
            let names = views_of(self.items@);
            assert forall|j: int| 0 <= j < names.len() implies names[j] != name@ by {
                assert(names[j] == self.items[j]@);
            }
        }
        None
    }

    /// Whether `name` is a member.
    pub fn contains(&self, name: &String) -> (found: bool)
        ensures
            found == self@.contains(name@),
    {
        match self.position(name) {
            Some(i) => {
                proof {
                    let names = views_of(self.items@);
                    assert(names[i as int] == name@);
                    assert(names.contains(name@));
                }
                true
            },
            None => false,
        }
    }

    /// The number of members.
    pub fn len(&self) -> (count: usize)
        ensures
            self@.finite(),
            count == self@.len(),
    {
        proof {
            use_type_invariant(self);
            lemma_listing_len(self.items@, self@);
        }
        self.items.len()
    }

    /// Whether the set has no member.
    pub fn is_empty(&self) -> (empty: bool)
        ensures
            empty == (self@ == Set::<Seq<char>>::empty()),
    {
        proof {
            if self.items@.len() == 0 {
                assert(self@ =~= Set::<Seq<char>>::empty());
            } else {
                let names = views_of(self.items@);
                assert(names[0] == self.items[0]@);
                assert(names.contains(names[0]));
                assert(self@.contains(names[0]));
            }
        }
        self.items.len() == 0
    }

    /// Makes `name` a member; tells whether it was new.
    pub fn insert(&mut self, name: String) -> (fresh: bool)
        ensures
            final(self)@ == old(self)@.insert(name@),
            fresh == !old(self)@.contains(name@),
    {
        proof {
            use_type_invariant(&*self);
        }
        if self.contains(&name) {
            assert(self@.insert(name@) =~= self@);
            return false;
        }
        let mut items: Vec<String> = Vec::new();
        std::mem::swap(&mut items, &mut self.items);
        let ghost before = items@;
        items.push(name);
        proof {
            let old_names = views_of(before);
            let new_names = views_of(items@);
            assert(new_names =~= old_names.push(name@));
            assert(!old_names.contains(name@));
            assert(new_names.no_duplicates());
            assert(new_names.to_set() =~= old_names.to_set().insert(name@)) by {
                assert forall|x: Seq<char>| new_names.to_set().contains(x) implies old_names.to_set().insert(
                    name@,
                ).contains(x) by {
                    let j = choose|j: int| 0 <= j < new_names.len() && new_names[j] == x;
                    if j < old_names.len() {
                        assert(old_names[j] == x);
                        assert(old_names.contains(x));
                    }
                }
                assert forall|x: Seq<char>| old_names.to_set().insert(name@).contains(
                    x,
                ) implies new_names.to_set().contains(x) by {
                    if x == name@ {
                        assert(new_names[old_names.len() as int] == x);
                    } else {
                        let j = choose|j: int| 0 <= j < old_names.len() && old_names[j] == x;
                        assert(new_names[j] == x);
                    }
                }
            }
        }
        self.items = items;
        true
    }

    /// Takes `name` out of the set; tells whether it was a member.
    pub fn remove(&mut self, name: &String) -> (present: bool)
        ensures
            final(self)@ == old(self)@.remove(name@),
            present == old(self)@.contains(name@),
    {
        proof {
            use_type_invariant(&*self);
        }
        match self.position(name) {
            None => {
                assert(self@.remove(name@) =~= self@);
                false
            },
            Some(i) => {
                let mut items: Vec<String> = Vec::new();
                std::mem::swap(&mut items, &mut self.items);
                let ghost before = items@;
                let _ = items.remove(i);
                proof {
                    let old_names = views_of(before);
                    let new_names = views_of(items@);
                    assert(old_names[i as int] == name@);
                    assert(old_names.contains(name@));
                    assert(new_names =~= old_names.remove(i as int));
                    assert forall|a: int, b: int|
                        0 <= a < new_names.len() && 0 <= b < new_names.len() && a != b implies new_names[a]
                        != new_names[b] by {
                        let a0 = if a < i { a } else { a + 1 };
                        let b0 = if b < i { b } else { b + 1 };
                        assert(new_names[a] == old_names[a0]);
                        assert(new_names[b] == old_names[b0]);
                    }
                    assert(new_names.to_set() =~= old_names.to_set().remove(name@)) by {
                        assert forall|x: Seq<char>| new_names.to_set().contains(x) implies old_names.to_set().remove(
                            name@,
                        ).contains(x) by {
                            let j = choose|j: int| 0 <= j < new_names.len() && new_names[j] == x;
                            let j0 = if j < i { j } else { j + 1 };
                            assert(old_names[j0] == x);
                            assert(old_names.contains(x));
                        }
                        assert forall|x: Seq<char>| old_names.to_set().remove(name@).contains(
                            x,
                        ) implies new_names.to_set().contains(x) by {
                            let j = choose|j: int| 0 <= j < old_names.len() && old_names[j] == x;
                            let j1 = if j < i { j } else { j - 1 };
                            assert(new_names[j1] == x);
                        }
                    }
                }
                self.items = items;
                true
            },
        }
    }

    /// The members, each once, in the order in which the set holds them.
    pub fn members(&self) -> (list: &Vec<String>)
        ensures
            lists(list@, self@),
    {
        proof {
            use_type_invariant(self);
        }
        &self.items
    }

    /// The members, each once, as a list of their own.
    pub fn into_vec(self) -> (list: Vec<String>)
        ensures
            lists(list@, self@),
    {
        proof {
            use_type_invariant(&self);
        }
        self.items
    }
}

} // verus!
