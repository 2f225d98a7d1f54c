//! A small collection of values, each filed under the name of a job.

use vstd::prelude::*;

verus! {

/// Some entry of `entries` is filed under `key`.
pub open spec fn holds_key<V>(entries: Seq<(Seq<char>, V)>, key: Seq<char>) -> bool {
    exists|i: int| 0 <= i < entries.len() && (#[trigger] entries[i]).0 == key
}

/// The place of an entry filed under `key`.
pub open spec fn place_of<V>(entries: Seq<(Seq<char>, V)>, key: Seq<char>) -> int {
    choose|i: int| 0 <= i < entries.len() && (#[trigger] entries[i]).0 == key
}

/// No two entries are filed under one key.
pub open spec fn distinct_keys<V>(entries: Seq<(Seq<char>, V)>) -> bool {
    forall|i: int, j: int|
        0 <= i < entries.len() && 0 <= j < entries.len() && (#[trigger] entries[i]).0 == (
        #[trigger] entries[j]).0 ==> i == j
}

/// The entries as a map from key to value.
pub open spec fn as_map<V>(entries: Seq<(Seq<char>, V)>) -> Map<Seq<char>, V> {
    Map::new(
        |key: Seq<char>| holds_key(entries, key),
        |key: Seq<char>| entries[place_of(entries, key)].1,
    )
}

/// What `map` holds under `key`.
pub open spec fn lookup<V>(map: Map<Seq<char>, V>, key: Seq<char>) -> Option<V> {
    if map.contains_key(key) {
        Some(map[key])
    } else {
        None
    }
}

/// The entries after `value` was filed under `key`: an entry that was there before keeps its place.
pub open spec fn inserted<V>(
    entries: Seq<(Seq<char>, V)>,
    key: Seq<char>,
    value: V,
) -> Seq<(Seq<char>, V)> {
    if holds_key(entries, key) {
        entries.update(place_of(entries, key), (key, value))
    } else {
        entries.push((key, value))
    }
}

/// The entries without the one filed under `key`; the others keep their order.
pub open spec fn removed<V>(entries: Seq<(Seq<char>, V)>, key: Seq<char>) -> Seq<(Seq<char>, V)> {
    if holds_key(entries, key) {
        entries.remove(place_of(entries, key))
    } else {
        entries
    }
}

/// Where keys are distinct, an entry's place is the only one with its key.
pub proof fn lemma_place_is_unique<V>(entries: Seq<(Seq<char>, V)>, i: int)
    requires
        distinct_keys(entries),
        0 <= i < entries.len(),
    ensures
        holds_key(entries, entries[i].0),
        place_of(entries, entries[i].0) == i,
        as_map(entries).contains_key(entries[i].0),
        as_map(entries)[entries[i].0] == entries[i].1,
{
    let key = entries[i].0;
    assert(entries[i].0 == key);
    let p = place_of(entries, key);
    assert(0 <= p < entries.len() && entries[p].0 == key);
}

/// Where only values changed, each key has the value that is now in its old place.
pub proof fn lemma_same_keys<V>(before: Seq<(Seq<char>, V)>, after: Seq<(Seq<char>, V)>)
    requires
        distinct_keys(before),
        after.len() == before.len(),
        forall|i: int| 0 <= i < before.len() ==> (#[trigger] after[i]).0 == before[i].0,
    ensures
        distinct_keys(after),
        forall|key: Seq<char>| #[trigger]
            as_map(after).contains_key(key) <==> as_map(before).contains_key(key),
        forall|key: Seq<char>| #[trigger]
            as_map(before).contains_key(key) ==> 0 <= place_of(before, key) < before.len()
                && before[place_of(before, key)].0 == key && as_map(before)[key]
                == before[place_of(before, key)].1 && as_map(after)[key] == after[place_of(
                before,
                key,
            )].1,
{
    assert(distinct_keys(after)) by {
        assert forall|i: int, j: int|
            0 <= i < after.len() && 0 <= j < after.len() && (#[trigger] after[i]).0 == (
            #[trigger] after[j]).0 implies i == j by {
            assert(before[i].0 == before[j].0);
        }
    }
    assert forall|key: Seq<char>| #[trigger]
        as_map(after).contains_key(key) <==> as_map(before).contains_key(key) by {
        if holds_key(after, key) {
            assert(before[place_of(after, key)].0 == key);
        }
        if holds_key(before, key) {
            assert(after[place_of(before, key)].0 == key);
        }
    }
    assert forall|key: Seq<char>| #[trigger] as_map(before).contains_key(key) implies as_map(
        after,
    )[key] == after[place_of(before, key)].1 by {
        let place = place_of(before, key);
        assert(after[place].0 == key);
        lemma_place_is_unique(after, place);
    }
}

/// Filing a value keeps the keys distinct and is an insertion into the map.
pub proof fn lemma_inserted<V>(entries: Seq<(Seq<char>, V)>, key: Seq<char>, value: V)
    requires
        distinct_keys(entries),
    ensures
        distinct_keys(inserted(entries, key, value)),
        as_map(inserted(entries, key, value)) == as_map(entries).insert(key, value),
{
    let after = inserted(entries, key, value);
    let p = if holds_key(entries, key) {
        place_of(entries, key)
    } else {
        entries.len() as int
    };
    assert(after[p] == (key, value));
    assert(distinct_keys(after)) by {
        assert forall|i: int, j: int|
            0 <= i < after.len() && 0 <= j < after.len() && (#[trigger] after[i]).0 == (
            #[trigger] after[j]).0 implies i == j by {
            if i != p && j != p {
                assert(after[i] == entries[i] && after[j] == entries[j]);
            } else if i != p {
                assert(after[i] == entries[i]);
                assert(holds_key(entries, key));
            } else if j != p {
                assert(after[j] == entries[j]);
                assert(holds_key(entries, key));
            }
        }
    }
    assert forall|k: Seq<char>| #[trigger]
        holds_key(after, k) <==> (k == key || holds_key(entries, k)) by {
        if holds_key(entries, k) {
            let i = place_of(entries, k);
            assert(after[i].0 == k);
        }
        if holds_key(after, k) && k != key {
            let i = place_of(after, k);
            assert(entries[i].0 == k);
        }
    }
    assert forall|k: Seq<char>| holds_key(after, k) implies as_map(after)[k] == #[trigger] as_map(
        entries,
    ).insert(key, value)[k] by {
        let i = place_of(after, k);
        lemma_place_is_unique(after, i);
        if k == key {
            lemma_place_is_unique(after, p);
        } else {
            assert(after[i] == entries[i]);
            lemma_place_is_unique(entries, i);
        }
    }
    assert(as_map(after) =~= as_map(entries).insert(key, value));
}

/// Taking an entry out keeps the keys distinct and is a removal from the map.
pub proof fn lemma_removed<V>(entries: Seq<(Seq<char>, V)>, key: Seq<char>)
    requires
        distinct_keys(entries),
    ensures
        distinct_keys(removed(entries, key)),
        as_map(removed(entries, key)) == as_map(entries).remove(key),
{
    let after = removed(entries, key);
    if !holds_key(entries, key) {
        assert(as_map(after) =~= as_map(entries).remove(key));
    } else {
        let p = place_of(entries, key);
        assert(forall|i: int|
            0 <= i < after.len() ==> #[trigger] after[i] == (if i < p {
                entries[i]
            } else {
                entries[i + 1]
            }));
        assert(distinct_keys(after));
        assert forall|k: Seq<char>| #[trigger]
            holds_key(after, k) <==> (k != key && holds_key(entries, k)) by {
            if holds_key(after, k) {
                let i = place_of(after, k);
                let j = if i < p {
                    i
                } else {
                    i + 1
                };
                assert(entries[j].0 == k);
            }
            if holds_key(entries, k) && k != key {
                let j = place_of(entries, k);
                let i = if j < p {
                    j
                } else {
                    j - 1
                };
                assert(after[i].0 == k);
            }
        }
        assert forall|k: Seq<char>| holds_key(after, k) implies as_map(after)[k]
            == #[trigger] as_map(entries).remove(key)[k] by {
            let i = place_of(after, k);
            let j = if i < p {
                i
            } else {
                i + 1
            };
            assert(after[i] == entries[j]);
            lemma_place_is_unique(entries, j);
        }
        assert(as_map(after) =~= as_map(entries).remove(key));
    }
}

/// Where keys are distinct, the map has as many keys as there are entries.
pub proof fn lemma_as_many_keys_as_entries<V>(entries: Seq<(Seq<char>, V)>)
    requires
        distinct_keys(entries),
    ensures
        as_map(entries).dom().finite(),
        as_map(entries).len() == entries.len(),
    decreases entries.len(),
{
    if entries.len() == 0 {
        assert(as_map(entries).dom() =~= Set::<Seq<char>>::empty());
    } else {
        let fewer = entries.drop_last();
        let last = entries.last();
        assert(!holds_key(fewer, last.0)) by {
            if holds_key(fewer, last.0) {
                let i = place_of(fewer, last.0);
                assert(entries[i].0 == entries[entries.len() - 1].0);
            }
        }
        lemma_as_many_keys_as_entries(fewer);
        lemma_inserted(fewer, last.0, last.1);
        assert(fewer.push(last) =~= entries);
    }
}

/// Values filed under job names, at most one for each name.
///
/// The view is the map from name to value. The entries also have an order, in which
/// [`Registry::name_at`] and [`Registry::value_at`] walk them.
pub struct Registry<V> {
    names: Vec<String>,
    values: Vec<V>,
}

impl<V> View for Registry<V> {
    type V = Map<Seq<char>, V>;

    open spec fn view(&self) -> Map<Seq<char>, V> {
        as_map(self.entries())
    }
}

impl<V> Registry<V> {
    /// The entries in order, each with its name.
    pub closed spec fn entries(&self) -> Seq<(Seq<char>, V)> {
        Seq::new(self.names@.len(), |i: int| (self.names@[i]@, self.values@[i]))
    }

    /// No name occurs twice.
    pub open spec fn names_are_distinct(&self) -> bool {
        distinct_keys(self.entries())
    }

    /// What holds of every registry: each name has a value, and no name occurs twice.
    #[verifier::type_invariant]
    pub closed spec fn well_formed(&self) -> bool {
        &&& self.names@.len() == self.values@.len()
        &&& forall|i: int, j: int|
            0 <= i < self.names@.len() && 0 <= j < self.names@.len() && (#[trigger] self.names@[i])@
                == (#[trigger] self.names@[j])@ ==> i == j
    }

    /// The names of a registry are distinct.
    pub proof fn lemma_names_are_distinct(&self)
        requires
            self.well_formed(),
        ensures
            self.names_are_distinct(),
    {
    }

    /// A registry without entries.
    pub fn new() -> (registry: Self)
        ensures
            registry.entries() == Seq::<(Seq<char>, V)>::empty(),
            registry@ == Map::<Seq<char>, V>::empty(),
    {
        let registry = Registry { names: Vec::new(), values: Vec::new() };
        assert(registry.entries() =~= Seq::<(Seq<char>, V)>::empty());
        assert(registry@ =~= Map::<Seq<char>, V>::empty());
        registry
    }

    /// The number of entries.
    pub fn len(&self) -> (len: usize)
        ensures
            len == self.entries().len(),
            len == self@.len(),
    {
        proof {
            use_type_invariant(self);
            self.lemma_names_are_distinct();
            lemma_as_many_keys_as_entries(self.entries());
        }
        self.names.len()
    }

    /// The name of the entry at `index`.
    pub fn name_at(&self, index: usize) -> (name: &String)
        requires
            index < self.entries().len(),
        ensures
            name@ == self.entries()[index as int].0,
            self@.contains_key(name@),
            forall|i: int|
                0 <= i < self.entries().len() && (#[trigger] self.entries()[i]).0 == name@ ==> i
                    == index,
    {
        proof {
            use_type_invariant(self);
            self.lemma_names_are_distinct();
            lemma_place_is_unique(self.entries(), index as int);
        }
        &self.names[index]
    }

    /// The value of the entry at `index`.
    pub fn value_at(&self, index: usize) -> (value: &V)
        requires
            index < self.entries().len(),
        ensures
            *value == self.entries()[index as int].1,
            *value == self@[self.entries()[index as int].0],
    {
        proof {
            use_type_invariant(self);
            self.lemma_names_are_distinct();
            lemma_place_is_unique(self.entries(), index as int);
        }
        &self.values[index]
    }

    /// The value of the entry at `index`, to be changed in place.
    pub fn value_mut(&mut self, index: usize) -> (value: &mut V)
        requires
            index < old(self).entries().len(),
        ensures
            *value == old(self).entries()[index as int].1,
            final(self).entries() == old(self).entries().update(
                index as int,
                (old(self).entries()[index as int].0, *final(value)),
            ),
            final(self)@ == old(self)@.insert(
                old(self).entries()[index as int].0,
                *final(value),
            ),
    {
        let ghost entries = self.entries();
        proof {
            use_type_invariant(&*self);
            self.lemma_names_are_distinct();
            lemma_place_is_unique(entries, index as int);
            assert forall|value: V| #[trigger]
                as_map(entries.update(index as int, (entries[index as int].0, value))) == as_map(
                entries,
            ).insert(entries[index as int].0, value) by {
                lemma_inserted(entries, entries[index as int].0, value);
            }
        }
        &mut self.values[index]
    }

    /// The place of the entry filed under `name`.
    fn position(&self, name: &String) -> (position: Option<usize>)
        ensures
            match position {
                Some(index) => index < self.entries().len() && self.entries()[index as int].0
                    == name@ && index == place_of(self.entries(), name@) && holds_key(
                    self.entries(),
                    name@,
                ),
                None => !holds_key(self.entries(), name@),
            },
    {
        proof {
            use_type_invariant(self);
            self.lemma_names_are_distinct();
        }
        let mut index: usize = 0;
        while index < self.names.len()
            invariant
                index <= self.names@.len(),
                forall|i: int| 0 <= i < index ==> (#[trigger] self.entries()[i]).0 != name@,
                self.names_are_distinct(),
            decreases self.names@.len() - index,
        {
            if self.names[index] == *name {
                proof {
                    lemma_place_is_unique(self.entries(), index as int);
                }
                return Some(index);
            }
            index = index + 1;
        }
        None
    }

    /// The value filed under `name`.
    pub fn get(&self, name: &String) -> (value: Option<&V>)
        ensures
            match value {
                Some(found) => self@.contains_key(name@) && *found == self@[name@],
                None => !self@.contains_key(name@),
            },
    {
        match self.position(name) {
            Some(index) => Some(self.value_at(index)),
            None => None,
        }
    }

    /// Files `value` under `name` and hands back what was filed there before.
    pub fn insert(&mut self, name: String, value: V) -> (replaced: Option<V>)
        ensures
            final(self).entries() == inserted(old(self).entries(), name@, value),
            final(self)@ == old(self)@.insert(name@, value),
            replaced == lookup(old(self)@, name@),
    {
        proof {
            use_type_invariant(&*self);
            self.lemma_names_are_distinct();
            lemma_inserted(self.entries(), name@, value);
        }
        let ghost after = inserted(self.entries(), name@, value);
        match self.position(&name) {
            Some(index) => {
                let mut value = value;
                core::mem::swap(&mut value, self.value_mut(index));
                assert(self.entries() =~= after);
                Some(value)
            },
            None => {
                let mut taken = Registry::new();
                core::mem::swap(&mut taken, self);
                let Registry { mut names, mut values } = taken;
                names.push(name);
                values.push(value);
                proof {
                    assert(Registry { names, values }.entries() =~= after);
                    assert(forall|i: int|
                        0 <= i < names@.len() ==> (#[trigger] names@[i])@ == after[i].0);
                }
                *self = Registry { names, values };
                None
            },
        }
    }

    /// Takes out the value filed under `name`.
    pub fn remove(&mut self, name: &String) -> (value: Option<V>)
        ensures
            final(self).entries() == removed(old(self).entries(), name@),
            final(self)@ == old(self)@.remove(name@),
            value == lookup(old(self)@, name@),
    {
        proof {
            use_type_invariant(&*self);
            self.lemma_names_are_distinct();
            lemma_removed(self.entries(), name@);
        }
        match self.position(name) {
            Some(index) => {
                let ghost after = removed(self.entries(), name@);
                let mut taken = Registry::new();
                core::mem::swap(&mut taken, self);
                let Registry { mut names, mut values } = taken;
                names.remove(index);
                let value = values.remove(index);
                assert(Registry { names, values }.entries() =~= after);
                *self = Registry { names, values };
                Some(value)
            },
            None => None,
        }
    }
}

impl<V> Default for Registry<V> {
    fn default() -> (registry: Self)
        ensures
            registry.entries() == Seq::<(Seq<char>, V)>::empty(),
            registry@ == Map::<Seq<char>, V>::empty(),
    {
        Registry::new()
    }
}

/// A value that is filed under a name is what is found there afterwards; what was found before is
/// handed back, and what is found under any other name stays the same.
pub proof fn law_filed_value_is_found<V>(
    registry: &mut Registry<V>,
    name: String,
    value: V,
    replaced: Option<V>,
    other: Seq<char>,
)
    requires
        call_ensures(Registry::<V>::insert, (registry, name, value), replaced),
        other != name@,
    ensures
        final(registry)@.contains_key(name@),
        final(registry)@[name@] == value,
        replaced is Some <==> old(registry)@.contains_key(name@),
        replaced is Some ==> replaced == Some(old(registry)@[name@]),
        final(registry)@.contains_key(other) <==> old(registry)@.contains_key(other),
        old(registry)@.contains_key(other) ==> final(registry)@[other] == old(registry)@[other],
{
}

/// What is taken out is no longer found; it is handed back, and what is found under any other name
/// stays the same.
pub proof fn law_removed_value_is_gone<V>(
    registry: &mut Registry<V>,
    name: &String,
    value: Option<V>,
    other: Seq<char>,
)
    requires
        call_ensures(Registry::<V>::remove, (registry, name), value),
        other != name@,
    ensures
        !final(registry)@.contains_key(name@),
        value is Some <==> old(registry)@.contains_key(name@),
        value is Some ==> value == Some(old(registry)@[name@]),
        final(registry)@.contains_key(other) <==> old(registry)@.contains_key(other),
        old(registry)@.contains_key(other) ==> final(registry)@[other] == old(registry)@[other],
{
}

/// A read gives back the last write under the name, and nothing after a removal.
pub proof fn law_read_gives_back_write<V>(
    writing: &mut Registry<V>,
    removing: &mut Registry<V>,
    name: String,
    value: V,
    replaced: Option<V>,
    removed_value: Option<V>,
    found: (Option<&V>, Option<&V>),
)
    requires
        call_ensures(Registry::<V>::insert, (writing, name, value), replaced),
        call_ensures(Registry::<V>::get, (final(writing), &name), found.0),
        call_ensures(Registry::<V>::remove, (removing, &name), removed_value),
        call_ensures(Registry::<V>::get, (final(removing), &name), found.1),
        *old(removing) == *final(writing),
    ensures
        found.0 matches Some(read) && *read == value,
        removed_value == Some(value),
        found.1 is None,
{
}

/// A walk over the entries meets each value beside the name under which it is found, and no name
/// twice.
pub proof fn law_entries_are_what_is_found<V>(
    registry: &Registry<V>,
    indexes: (usize, usize),
    names: (&String, &String),
    value: &V,
    found: Option<&V>,
)
    requires
        indexes.0 < registry.entries().len(),
        indexes.1 < registry.entries().len(),
        call_ensures(Registry::<V>::name_at, (registry, indexes.0), names.0),
        call_ensures(Registry::<V>::name_at, (registry, indexes.1), names.1),
        call_ensures(Registry::<V>::value_at, (registry, indexes.0), value),
        call_ensures(Registry::<V>::get, (registry, names.0), found),
    ensures
        found == Some(value),
        names.0@ == names.1@ <==> indexes.0 == indexes.1,
{
}

} // verus!
