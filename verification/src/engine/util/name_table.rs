//! A table of values under distinct names that remembers the order in which
//! the names arrived.

use vstd::prelude::*;

verus! {

/// The mapping that a list of distinct names and a list of values, one per
/// name, stand for.
pub open spec fn table_map<V>(names: Seq<Seq<char>>, items: Seq<V>) -> Map<Seq<char>, V> {
    Map::new(|name: Seq<char>| names.contains(name), |name: Seq<char>| items[names.index_of(name)])
}

/// A name that occurs at a place in a list of distinct names is looked up
/// there.
pub proof fn lemma_table_lookup<V>(names: Seq<Seq<char>>, items: Seq<V>, at: int)
    requires
        names.no_duplicates(),
        0 <= at < names.len(),
    ensures
        names.contains(names[at]),
        names.index_of(names[at]) == at,
        table_map(names, items).contains_key(names[at]),
        table_map(names, items)[names[at]] == items[at],
{
}

/// Replacing the value at a place replaces the value under its name.
pub proof fn lemma_table_update<V>(names: Seq<Seq<char>>, items: Seq<V>, at: int, value: V)
    requires
        names.no_duplicates(),
        names.len() == items.len(),
        0 <= at < names.len(),
    ensures
        table_map(names, items.update(at, value)) == table_map(names, items).insert(names[at], value),
{
    let before = table_map(names, items);
    let after = table_map(names, items.update(at, value));
    lemma_table_lookup(names, items.update(at, value), at);
    assert forall|name: Seq<char>| after.contains_key(name) implies #[trigger] after[name]
        == before.insert(names[at], value)[name] by {
        let i = names.index_of(name);
        lemma_table_lookup(names, items, i);
    }
    assert(after =~= before.insert(names[at], value));
}

/// Appending a new name with a value adds the value under that name.
pub proof fn lemma_table_push<V>(names: Seq<Seq<char>>, items: Seq<V>, name: Seq<char>, value: V)
    requires
        names.no_duplicates(),
        names.len() == items.len(),
        !names.contains(name),
    ensures
        names.push(name).no_duplicates(),
        table_map(names.push(name), items.push(value)) == table_map(names, items).insert(name, value),
{
    let longer = names.push(name);
    assert forall|i: int, j: int| 0 <= i < longer.len() && 0 <= j < longer.len() && i != j implies longer[i]
        != longer[j] by {
        if i < names.len() {
            assert(names.contains(names[i]));
        }
        if j < names.len() {
            assert(names.contains(names[j]));
        }
    }
    let before = table_map(names, items);
    let after = table_map(longer, items.push(value));
    assert(longer[names.len() as int] == name);
    assert forall|key: Seq<char>| after.contains_key(key) == before.insert(name, value).contains_key(
        key,
    ) by {
        if names.contains(key) {
            let i = names.index_of(key);
            assert(longer[i] == key);
        }
        if longer.contains(key) && key != name {
            let i = longer.index_of(key);
            assert(names[i] == key);
        }
    }
    assert forall|key: Seq<char>| after.contains_key(key) implies #[trigger] after[key]
        == before.insert(name, value)[key] by {
        let i = longer.index_of(key);
        lemma_table_lookup(longer, items.push(value), i);
        if i < names.len() {
            lemma_table_lookup(names, items, i);
        }
    }
    assert(after =~= before.insert(name, value));
}

/// Taking out the name and the value at a place removes the name.
pub proof fn lemma_table_remove<V>(names: Seq<Seq<char>>, items: Seq<V>, at: int)
    requires
        names.no_duplicates(),
        names.len() == items.len(),
        0 <= at < names.len(),
    ensures
        names.remove(at).no_duplicates(),
        !names.remove(at).contains(names[at]),
        table_map(names.remove(at), items.remove(at)) == table_map(names, items).remove(names[at]),
{
    let shorter = names.remove(at);
    let fewer = items.remove(at);
    assert forall|i: int| 0 <= i < shorter.len() implies shorter[i] == names[if i < at {
        i
    } else {
        i + 1
    }] by {}
    assert(shorter.no_duplicates());
    assert(!shorter.contains(names[at]));
    let before = table_map(names, items);
    let after = table_map(shorter, fewer);
    assert forall|key: Seq<char>| after.contains_key(key) == before.remove(names[at]).contains_key(
        key,
    ) by {
        if shorter.contains(key) {
            let i = shorter.index_of(key);
            assert(names[if i < at {
                i
            } else {
                i + 1
            }] == key);
        }
        if names.contains(key) && key != names[at] {
            let i = names.index_of(key);
            assert(shorter[if i < at {
                i
            } else {
                i - 1
            }] == key);
        }
    }
    assert forall|key: Seq<char>| after.contains_key(key) implies #[trigger] after[key]
        == before.remove(names[at])[key] by {
        let i = shorter.index_of(key);
        lemma_table_lookup(shorter, fewer, i);
        lemma_table_lookup(names, items, if i < at {
            i
        } else {
            i + 1
        });
    }
    assert(after =~= before.remove(names[at]));
}

/// Values under distinct names, in the order in which the names were first
/// inserted.
pub struct NameTable<V> {
    keys: Vec<String>,
    values: Vec<V>,
}

impl<V> View for NameTable<V> {
    type V = Map<Seq<char>, V>;

    open spec fn view(&self) -> Map<Seq<char>, V> {
        table_map(self.names(), self.items())
    }
}

impl<V> NameTable<V> {
    /// The names, in the order in which they were first inserted.
    pub closed spec fn names(&self) -> Seq<Seq<char>> {
        self.keys@.map_values(|key: String| key@)
    }

    /// The values, each at the place of its name.
    pub closed spec fn items(&self) -> Seq<V> {
        self.values@
    }

    /// The table's invariant, which `new` establishes and every operation
    /// keeps: one value per name, and no name twice.
    pub open spec fn well_formed(&self) -> bool {
        &&& self.names().len() == self.items().len()
        &&& self.names().no_duplicates()
    }

    /// An empty table.
    pub fn new() -> (table: Self)
        ensures
            table.names() == Seq::<Seq<char>>::empty(),
            table.items() == Seq::<V>::empty(),
            table@ == Map::<Seq<char>, V>::empty(),
            table.well_formed(),
    {
        let table = NameTable { keys: Vec::new(), values: Vec::new() };
        assert(table.names() =~= Seq::<Seq<char>>::empty());
        assert(table@ =~= Map::<Seq<char>, V>::empty());
        table
    }

    /// The number of names.
    pub fn len(&self) -> (count: usize)
        requires
            self.well_formed(),
        ensures
            count == self.names().len(),
            count == self.items().len(),
    {
        self.keys.len()
    }

    /// The place of a name, if the table holds it.
    pub fn position(&self, name: &String) -> (place: Option<usize>)
        requires
            self.well_formed(),
        ensures
            match place {
                Some(at) => at < self.names().len() && self.names()[at as int] == name@,
                None => !self.names().contains(name@),
            },
            place is Some <==> self@.contains_key(name@),
    {
        let mut i: usize = 0;
        while i < self.keys.len()
            invariant
                i <= self.keys.len(),
                forall|j: int| 0 <= j < i ==> self.names()[j] != name@,
            decreases self.keys.len() - i,
        {
            if self.keys[i] == *name {
                assert(self.names()[i as int] == name@);
                assert(self.names().contains(name@));
                return Some(i);
            }
            i += 1;
        }
        None
    }

    /// The name at a place.
    pub fn name_at(&self, at: usize) -> (name: &String)
        requires
            at < self.names().len(),
        ensures
            name@ == self.names()[at as int],
    {
        &self.keys[at]
    }

    /// The value at a place.
    pub fn value_at(&self, at: usize) -> (value: &V)
        requires
            at < self.items().len(),
        ensures
            *value == self.items()[at as int],
    {
        &self.values[at]
    }

    /// The value at a place, to be changed where it stands.
    pub fn value_at_mut(&mut self, at: usize) -> (value: &mut V)
        requires
            at < old(self).items().len(),
            old(self).well_formed(),
        ensures
            *value == old(self).items()[at as int],
            final(self).names() == old(self).names(),
            final(self).items() == old(self).items().update(at as int, *final(value)),
            final(self).well_formed(),
    {
        &mut self.values[at]
    }

    /// Puts a value under a name. A name that the table holds keeps its
    /// place and gives up its value, which is returned; a new name goes to
    /// the end.
    pub fn insert(&mut self, name: String, value: V) -> (replaced: Option<V>)
        requires
            old(self).well_formed(),
        ensures
            final(self)@ == old(self)@.insert(name@, value),
            final(self).well_formed(),
            match replaced {
                Some(previous) => exists|at: int|
                    0 <= at < old(self).names().len() && old(self).names()[at] == name@ && previous
                        == old(self).items()[at] && final(self).names() == old(self).names()
                        && final(self).items() == old(self).items().update(at, value),
                None => !old(self).names().contains(name@) && final(self).names() == old(self).names().push(name@) && final(self).items() == old(self).items().push(value),
            },
    {
        match self.position(&name) {
            Some(at) => {
                proof {
                    lemma_table_update(self.names(), self.items(), at as int, value);
                }
                self.values.push(value);
                let previous = self.values.swap_remove(at);
                assert(self.items() =~= old(self).items().update(at as int, value));
                Some(previous)
            },
            None => {
                proof {
                    lemma_table_push(self.names(), self.items(), name@, value);
                }
                self.keys.push(name);
                self.values.push(value);
                assert(self.names() =~= old(self).names().push(name@));
                None
            },
        }
    }

    /// The value under a name.
    pub fn get(&self, name: &str) -> (found: Option<&V>)
        requires
            self.well_formed(),
        ensures
            match found {
                Some(value) => self@.contains_key(name@) && *value == self@[name@],
                None => !self@.contains_key(name@),
            },
    {
        let key = name.to_owned();
        match self.position(&key) {
            Some(at) => {
                proof {
                    lemma_table_lookup(self.names(), self.items(), at as int);
                }
                Some(&self.values[at])
            },
            None => None,
        }
    }

    /// The value under a name, to be changed where it stands.
    pub fn get_mut(&mut self, name: &str) -> (found: Option<&mut V>)
        requires
            old(self).well_formed(),
        ensures
            final(self).names() == old(self).names(),
            final(self).well_formed(),
            match found {
                Some(value) => old(self)@.contains_key(name@) && *value == old(self)@[name@] && final(self)@ == old(self)@.insert(name@, *final(value)),
                None => !old(self)@.contains_key(name@) && final(self)@ == old(self)@,
            },
    {
        let key = name.to_owned();
        match self.position(&key) {
            Some(at) => {
                proof {
                    lemma_table_lookup(self.names(), self.items(), at as int);
                    assert forall|value: V| #[trigger]
                        table_map(self.names(), self.items().update(at as int, value)) == self@.insert(
                            name@,
                            value,
                        ) by {
                        lemma_table_update(self.names(), self.items(), at as int, value);
                    }
                }
                Some(&mut self.values[at])
            },
            None => None,
        }
    }

    /// Takes a name out of the table and returns its value.
    pub fn remove(&mut self, name: &str) -> (removed: Option<V>)
        requires
            old(self).well_formed(),
        ensures
            final(self)@ == old(self)@.remove(name@),
            final(self).well_formed(),
            match removed {
                Some(value) => old(self)@.contains_key(name@) && value == old(self)@[name@],
                None => !old(self)@.contains_key(name@),
            },
    {
        let key = name.to_owned();
        match self.position(&key) {
            Some(at) => {
                proof {
                    lemma_table_lookup(self.names(), self.items(), at as int);
                    lemma_table_remove(self.names(), self.items(), at as int);
                }
                self.keys.remove(at);
                let value = self.values.remove(at);
                assert(self.names() =~= old(self).names().remove(at as int));
                Some(value)
            },
            None => {
                assert(self@ =~= old(self)@.remove(name@));
                None
            },
        }
    }

    /// Empties the table.
    pub fn clear(&mut self)
        ensures
            final(self)@ == Map::<Seq<char>, V>::empty(),
            final(self).names() == Seq::<Seq<char>>::empty(),
            final(self).items() == Seq::<V>::empty(),
            final(self).well_formed(),
    {
        self.keys.clear();
        self.values.clear();
        assert(self.names() =~= Seq::<Seq<char>>::empty());
        assert(self@ =~= Map::<Seq<char>, V>::empty());
    }

    /// The names, in the order in which they were first inserted.
    pub fn name_list(&self) -> (list: Vec<String>)
        ensures
            list@.map_values(|name: String| name@) == self.names(),
    {
        let mut list: Vec<String> = Vec::new();
        let mut i: usize = 0;
        while i < self.keys.len()
            invariant
                i <= self.keys.len(),
                list.len() == i,
                forall|j: int| 0 <= j < i ==> list[j]@ == self.keys[j]@,
            decreases self.keys.len() - i,
        {
            list.push(self.keys[i].clone());
            i += 1;
        }
        assert(list@.map_values(|name: String| name@) =~= self.names());
        list
    }

    /// The values, each at the place of its name.
    pub fn values(&self) -> (values: &Vec<V>)
        ensures
            values@ == self.items(),
    {
        &self.values
    }
}

} // verus!
