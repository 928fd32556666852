//! A map keyed by strings, held as a list of entries in which no key occurs
//! twice.

use vstd::prelude::*;
use vstd::std_specs::cmp::PartialEqSpec;
use vstd::std_specs::cmp::PartialEqSpecImpl;

verus! {

/// The map that a list of entries describes: each entry sets its key, a
/// later one overriding an earlier one.
pub open spec fn listed<V>(entries: Seq<(String, V)>) -> Map<Seq<char>, V>
    decreases entries.len(),
{
    if entries.len() == 0 {
        Map::empty()
    } else {
        listed(entries.drop_last()).insert(entries.last().0@, entries.last().1)
    }
}

/// No key occurs twice in `entries`.
pub open spec fn distinct_keys<V>(entries: Seq<(String, V)>) -> bool {
    forall|i: int, j: int|
        0 <= i < j < entries.len() ==> (#[trigger] entries[i]).0@ != (#[trigger] entries[j]).0@
}

/// The keys of the map that a list describes are the keys of its entries.
pub proof fn lemma_listed_keys<V>(entries: Seq<(String, V)>, key: Seq<char>)
    ensures
        listed(entries).contains_key(key) <==> exists|i: int|
            0 <= i < entries.len() && (#[trigger] entries[i]).0@ == key,
    decreases entries.len(),
{
    if entries.len() > 0 {
        let front = entries.drop_last();
        lemma_listed_keys(front, key);
        if listed(entries).contains_key(key) {
            if entries.last().0@ == key {
                assert(entries[entries.len() - 1].0@ == key);
            } else {
                let i = choose|i: int| 0 <= i < front.len() && (#[trigger] front[i]).0@ == key;
                assert(entries[i].0@ == key);
            }
        }
        if exists|i: int| 0 <= i < entries.len() && (#[trigger] entries[i]).0@ == key {
            let i = choose|i: int| 0 <= i < entries.len() && (#[trigger] entries[i]).0@ == key;
            if i < front.len() {
                assert(front[i].0@ == key);
            }
        }
    }
}

/// Where no key occurs twice, the map holds each entry's value at its key.
pub proof fn lemma_listed_value<V>(entries: Seq<(String, V)>, i: int)
    requires
        distinct_keys(entries),
        0 <= i < entries.len(),
    ensures
        listed(entries).contains_key(entries[i].0@),
        listed(entries)[entries[i].0@] == entries[i].1,
    decreases entries.len(),
{
    let front = entries.drop_last();
    if i < entries.len() - 1 {
        assert(front[i] == entries[i]);
        assert(entries[i].0@ != entries[entries.len() - 1].0@);
        assert forall|a: int, b: int| 0 <= a < b < front.len() implies (#[trigger] front[a]).0@ != (
        #[trigger] front[b]).0@ by {
            assert(front[a] == entries[a] && front[b] == entries[b]);
        }
        lemma_listed_value(front, i);
    }
}

/// Where no key occurs twice, the map has as many keys as the list has
/// entries.
pub proof fn lemma_listed_len<V>(entries: Seq<(String, V)>)
    requires
        distinct_keys(entries),
    ensures
        listed(entries).dom().finite(),
        listed(entries).dom().len() == entries.len(),
    decreases entries.len(),
{
    if entries.len() > 0 {
        let front = entries.drop_last();
        assert forall|a: int, b: int| 0 <= a < b < front.len() implies (#[trigger] front[a]).0@ != (
        #[trigger] front[b]).0@ by {
            assert(front[a] == entries[a] && front[b] == entries[b]);
        }
        lemma_listed_len(front);
        lemma_listed_keys(front, entries.last().0@);
        if listed(front).contains_key(entries.last().0@) {
            let i = choose|i: int|
                0 <= i < front.len() && (#[trigger] front[i]).0@ == entries.last().0@;
            assert(front[i] == entries[i]);
            assert(entries[i].0@ != entries[entries.len() - 1].0@);
        }
        assert(listed(entries).dom() =~= listed(front).dom().insert(entries.last().0@));
    }
}

/// Where no key occurs twice, replacing one entry by another of the same key
/// replaces the value at that key, and nothing else.
pub proof fn lemma_listed_update<V>(entries: Seq<(String, V)>, i: int, key: String, value: V)
    requires
        distinct_keys(entries),
        0 <= i < entries.len(),
        key@ == entries[i].0@,
    ensures
        distinct_keys(entries.update(i, (key, value))),
        listed(entries.update(i, (key, value))) == listed(entries).insert(key@, value),
    decreases entries.len(),
{
    let updated = entries.update(i, (key, value));
    let front = entries.drop_last();
    assert forall|a: int, b: int| 0 <= a < b < updated.len() implies (#[trigger] updated[a]).0@ != (
    #[trigger] updated[b]).0@ by {
        assert(updated[a].0@ == entries[a].0@ && updated[b].0@ == entries[b].0@);
    }
    if i == entries.len() - 1 {
        assert(updated.drop_last() =~= front);
        assert(listed(updated) =~= listed(entries).insert(key@, value));
    } else {
        assert forall|a: int, b: int| 0 <= a < b < front.len() implies (#[trigger] front[a]).0@ != (
        #[trigger] front[b]).0@ by {
            assert(front[a] == entries[a] && front[b] == entries[b]);
        }
        assert(front[i] == entries[i]);
        lemma_listed_update(front, i, key, value);
        assert(updated.drop_last() =~= front.update(i, (key, value)));
        assert(updated.last() == entries.last());
        assert(entries[i].0@ != entries[entries.len() - 1].0@);
        assert(listed(updated) =~= listed(entries).insert(key@, value));
    }
}

/// Where no key occurs twice, taking one entry out, with the last entry
/// moved to its place, takes its key out of the map, and nothing else.
pub proof fn lemma_listed_remove<V>(entries: Seq<(String, V)>, i: int)
    requires
        distinct_keys(entries),
        0 <= i < entries.len(),
    ensures
        distinct_keys(entries.update(i, entries.last()).drop_last()),
        listed(entries.update(i, entries.last()).drop_last()) == listed(entries).remove(
            entries[i].0@,
        ),
{
    let rest = entries.update(i, entries.last()).drop_last();
    let last = entries.len() - 1;
    assert forall|a: int, b: int| 0 <= a < b < rest.len() implies (#[trigger] rest[a]).0@ != (
    #[trigger] rest[b]).0@ by {
        let from_a = if a == i { last } else { a };
        let from_b = if b == i { last } else { b };
        assert(rest[a] == entries[from_a] && rest[b] == entries[from_b]);
    }
    assert forall|key: Seq<char>| #[trigger]
        listed(rest).contains_key(key) == listed(entries).remove(entries[i].0@).contains_key(
            key,
        ) by {
        lemma_listed_keys(rest, key);
        lemma_listed_keys(entries, key);
        if listed(rest).contains_key(key) {
            let a = choose|a: int| 0 <= a < rest.len() && (#[trigger] rest[a]).0@ == key;
            let from_a = if a == i { last } else { a };
            assert(rest[a] == entries[from_a]);
            assert(entries[from_a].0@ == key);
            assert(entries[from_a].0@ != entries[i].0@);
        }
        if listed(entries).remove(entries[i].0@).contains_key(key) {
            let b = choose|b: int| 0 <= b < entries.len() && (#[trigger] entries[b]).0@ == key;
            let to_b = if b == last { i } else { b };
            assert(rest[to_b] == entries[b]);
        }
    }
    assert forall|key: Seq<char>| #[trigger] listed(rest).contains_key(key) implies listed(rest)[key]
        == listed(entries).remove(entries[i].0@)[key] by {
        lemma_listed_keys(rest, key);
        let a = choose|a: int| 0 <= a < rest.len() && (#[trigger] rest[a]).0@ == key;
        let from_a = if a == i { last } else { a };
        assert(rest[a] == entries[from_a]);
        lemma_listed_value(rest, a);
        lemma_listed_value(entries, from_a);
    }
    assert(listed(rest) =~= listed(entries).remove(entries[i].0@));
}

/// A map from strings to values of `V`. Its view is the map from the keys'
/// texts to the values.
#[derive(Debug)]
pub struct StringMap<V> {
    entries: Vec<(String, V)>,
}

impl<V> View for StringMap<V> {
    type V = Map<Seq<char>, V>;

    closed spec fn view(&self) -> Map<Seq<char>, V> {
        listed(self.entries@)
    }
}

impl<V> StringMap<V> {
    #[verifier::type_invariant]
    spec fn well_formed(&self) -> bool {
        distinct_keys(self.entries@)
    }

    /// The entries, in the order in which they are held.
    pub closed spec fn entries(&self) -> Seq<(String, V)> {
        self.entries@
    }

    /// An empty map.
    pub fn new() -> (map: Self)
        ensures
            map@ == Map::<Seq<char>, V>::empty(),
            map.entries().len() == 0,
    {
        StringMap { entries: Vec::new() }
    }

    /// The place of `key` among the entries, where it has one.
    fn position(&self, key: &String) -> (r: Option<usize>)
        ensures
            match r {
                Some(i) => i < self.entries@.len() && self.entries@[i as int].0@ == key@,
                None => forall|j: int|
                    0 <= j < self.entries@.len() ==> (#[trigger] self.entries@[j]).0@ != key@,
            },
    {
        let mut i: usize = 0;
        while i < self.entries.len()
            invariant
                i <= self.entries@.len(),
                forall|j: int| 0 <= j < i ==> (#[trigger] self.entries@[j]).0@ != key@,
            decreases self.entries@.len() - i,
        {
            if self.entries[i].0 == *key {
                return Some(i);
            }
            i += 1;
        }
        None
    }

    /// The value at `key`, where the map has one.
    pub fn get(&self, key: &str) -> (r: Option<&V>)
        ensures
            match r {
                Some(value) => self@.contains_key(key@) && *value == self@[key@],
                None => !self@.contains_key(key@),
            },
    {
        proof {
            use_type_invariant(self);
            lemma_listed_keys(self.entries@, key@);
        }
        let key = key.to_owned();
        match self.position(&key) {
            Some(i) => {
                proof {
                    lemma_listed_value(self.entries@, i as int);
                }
                Some(&self.entries[i].1)
            },
            None => None,
        }
    }

    /// Whether the map has a value at `key`.
    pub fn contains_key(&self, key: &str) -> (r: bool)
        ensures
            r == self@.contains_key(key@),
    {
        self.get(key).is_some()
    }

    /// Sets the value at `key`, and returns the value that was there.
    pub fn insert(&mut self, key: String, value: V) -> (r: Option<V>)
        ensures
            final(self)@ == old(self)@.insert(key@, value),
            r == if old(self)@.contains_key(key@) {
                Some(old(self)@[key@])
            } else {
                None::<V>
            },
    {
        proof {
            use_type_invariant(&*self);
            lemma_listed_keys(self.entries@, key@);
        }
        let place = self.position(&key);
        let mut current = StringMap::new();
        std::mem::swap(self, &mut current);
        let mut entries = current.entries;
        let ghost before = entries@;
        let previous = match place {
            Some(i) => {
                proof {
                    lemma_listed_value(before, i as int);
                    lemma_listed_update(before, i as int, key, value);
                }
                entries.push((key, value));
                let replaced = entries.swap_remove(i);
                assert(entries@ =~= before.update(i as int, (key, value)));
                Some(replaced.1)
            },
            None => {
                entries.push((key, value));
                assert(entries@.drop_last() =~= before);
                None
            },
        };
        *self = StringMap { entries };
        previous
    }

    /// Takes out the value at `key`, where the map has one.
    pub fn remove(&mut self, key: &str) -> (r: Option<V>)
        ensures
            final(self)@ == old(self)@.remove(key@),
            r == if old(self)@.contains_key(key@) {
                Some(old(self)@[key@])
            } else {
                None::<V>
            },
    {
        proof {
            use_type_invariant(&*self);
            lemma_listed_keys(self.entries@, key@);
        }
        let key = key.to_owned();
        match self.position(&key) {
            Some(i) => {
                let mut current = StringMap::new();
                std::mem::swap(self, &mut current);
                let mut entries = current.entries;
                proof {
                    lemma_listed_value(entries@, i as int);
                    lemma_listed_remove(entries@, i as int);
                }
                let removed = entries.swap_remove(i);
                *self = StringMap { entries };
                Some(removed.1)
            },
            None => {
                assert(self@.remove(key@) =~= self@);
                None
            },
        }
    }

    /// The number of keys.
    pub fn len(&self) -> (n: usize)
        ensures
            n == self.entries().len(),
            self@.dom().finite(),
            n == self@.len(),
    {
        proof {
            use_type_invariant(self);
            lemma_listed_len(self.entries@);
        }
        self.entries.len()
    }

    /// The key of the entry at `i`.
    pub fn key_at(&self, i: usize) -> (key: &String)
        requires
            i < self.entries().len(),
        ensures
            *key == self.entries()[i as int].0,
            self@.contains_key(key@),
    {
        proof {
            use_type_invariant(self);
            lemma_listed_value(self.entries@, i as int);
        }
        &self.entries[i].0
    }

    /// The value of the entry at `i`.
    pub fn value_at(&self, i: usize) -> (value: &V)
        requires
            i < self.entries().len(),
        ensures
            *value == self.entries()[i as int].1,
            *value == self@[self.entries()[i as int].0@],
    {
        proof {
            use_type_invariant(self);
            lemma_listed_value(self.entries@, i as int);
        }
        &self.entries[i].1
    }
}

impl<V: Clone> Clone for StringMap<V> {
    /// A map with the same keys, in the same order, each with a clone of its
    /// value.
    fn clone(&self) -> (map: Self)
        ensures
            map.entries().len() == self.entries().len(),
            forall|i: int|
                0 <= i < self.entries().len() ==> (#[trigger] map.entries()[i]).0@
                    == self.entries()[i].0@ && cloned(self.entries()[i].1, map.entries()[i].1),
    {
        proof {
            use_type_invariant(self);
        }
        let mut entries: Vec<(String, V)> = Vec::new();
        let mut i: usize = 0;
        while i < self.entries.len()
            invariant
                i <= self.entries@.len(),
                entries@.len() == i,
                forall|j: int|
                    0 <= j < i ==> (#[trigger] entries@[j]).0@ == self.entries@[j].0@ && cloned(
                        self.entries@[j].1,
                        entries@[j].1,
                    ),
            decreases self.entries@.len() - i,
        {
            let key = self.entries[i].0.clone();
            let value = self.entries[i].1.clone();
            entries.push((key, value));
            i += 1;
        }
        StringMap { entries }
    }
}

/// Every key of `a` is a key of `b`, with an equal value.
pub open spec fn included<V: PartialEq>(a: Map<Seq<char>, V>, b: Map<Seq<char>, V>) -> bool {
    forall|key: Seq<char>| #[trigger]
        a.contains_key(key) ==> b.contains_key(key) && a[key].eq_spec(&b[key])
}

impl<V: PartialEq> StringMap<V> {
    /// Whether every key of this map is a key of `other`, with an equal
    /// value.
    pub fn is_included_in(&self, other: &Self) -> (r: bool)
        ensures
            V::obeys_eq_spec() ==> r == included(self@, other@),
    {
        proof {
            use_type_invariant(self);
        }
        let mut i: usize = 0;
        while i < self.entries.len()
            invariant
                i <= self.entries@.len(),
                distinct_keys(self.entries@),
                V::obeys_eq_spec() ==> forall|j: int|
                    0 <= j < i ==> other@.contains_key((#[trigger] self.entries@[j]).0@)
                        && self.entries@[j].1.eq_spec(&other@[self.entries@[j].0@]),
            decreases self.entries@.len() - i,
        {
            proof {
                lemma_listed_value(self.entries@, i as int);
            }
            let same = match other.get(self.entries[i].0.as_str()) {
                Some(value) => self.entries[i].1 == *value,
                None => false,
            };
            if !same {
                assert(self@.contains_key(self.entries@[i as int].0@));
                return false;
            }
            i += 1;
        }
        proof {
            if V::obeys_eq_spec() {
                assert forall|key: Seq<char>| #[trigger]
                    self@.contains_key(key) implies other@.contains_key(key) && self@[key].eq_spec(
                    &other@[key],
                ) by {
                    lemma_listed_keys(self.entries@, key);
                    let j = choose|j: int|
                        0 <= j < self.entries@.len() && (#[trigger] self.entries@[j]).0@ == key;
                    lemma_listed_value(self.entries@, j);
                }
            }
        }
        true
    }
}

impl<V: PartialEq> PartialEq for StringMap<V> {
    /// Whether the two maps have the same keys, each with equal values.
    fn eq(&self, other: &Self) -> (r: bool) {
        self.is_included_in(other) && other.is_included_in(self)
    }
}

impl<V: PartialEq> PartialEqSpecImpl for StringMap<V> {
    open spec fn obeys_eq_spec() -> bool {
        V::obeys_eq_spec()
    }

    open spec fn eq_spec(&self, other: &Self) -> bool {
        included(self@, other@) && included(other@, self@)
    }
}

impl<V: Eq> Eq for StringMap<V> {

}

} // verus!
