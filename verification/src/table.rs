use vstd::prelude::*;
use vstd::string::*;

use crate::text::str_equal;

verus! {

/// A map from names to values that keeps its entries in the order in which
/// their names were first inserted. No name occurs twice.
#[derive(Debug)]
pub struct Table<V> {
    entries: Vec<(String, V)>,
}

/// The names of a sequence of entries, in order.
pub open spec fn entry_names<V>(entries: Seq<(String, V)>) -> Seq<Seq<char>> {
    Seq::new(entries.len(), |i: int| entries[i].0@)
}

/// The map that a sequence of entries builds up when each entry in turn is
/// stored under its name: where a name occurs again, the later value stays.
pub open spec fn map_of<T>(entries: Seq<(Seq<char>, T)>) -> Map<Seq<char>, T>
    decreases entries.len(),
{
    if entries.len() == 0 {
        Map::empty()
    } else {
        map_of(entries.drop_last()).insert(entries.last().0, entries.last().1)
    }
}

/// The names of a sequence of entries, in order.
pub open spec fn keys_of<T>(entries: Seq<(Seq<char>, T)>) -> Seq<Seq<char>> {
    entries.map_values(|entry: (Seq<char>, T)| entry.0)
}

impl<V> Table<V> {
    #[verifier::type_invariant]
    spec fn no_name_twice(&self) -> bool {
        entry_names(self.entries@).no_duplicates()
    }
}

impl<V: DeepView> Table<V> {
    /// The names of the table, in the order of their first insertion.
    pub closed spec fn names(&self) -> Seq<Seq<char>> {
        entry_names(self.entries@)
    }

    /// The values of the table, each at the position of its name in `names`.
    pub closed spec fn contents(&self) -> Seq<V::V> {
        Seq::new(self.entries@.len(), |i: int| self.entries@[i].1.deep_view())
    }

    /// An empty table.
    pub fn new() -> (table: Self)
        ensures
            table@ == Map::<Seq<char>, V::V>::empty(),
            table.names() == Seq::<Seq<char>>::empty(),
    {
        let table = Table { entries: Vec::new() };
        assert(table.names() =~= Seq::<Seq<char>>::empty());
        assert(table@ =~= Map::<Seq<char>, V::V>::empty());
        table
    }

    /// The number of entries.
    pub fn len(&self) -> (n: usize)
        ensures
            n == self.names().len(),
            n == self.contents().len(),
            self.names().no_duplicates(),
            self@.dom().finite(),
            n == self@.dom().len(),
    {
        proof {
            use_type_invariant(self);
            assert(self@.dom() =~= self.names().to_set());
            self.names().unique_seq_to_set();
            vstd::seq_lib::seq_to_set_is_finite(self.names());
        }
        self.entries.len()
    }

    /// The position of `name` among the entries, if it is there.
    fn position(&self, name: &str) -> (at: Option<usize>)
        ensures
            match at {
                Some(i) => i < self.names().len() && self.names()[i as int] == name@,
                None => !self.names().contains(name@),
            },
    {
        let mut i: usize = 0;
        while i < self.entries.len()
            invariant
                i <= self.entries.len(),
                forall|j: int| 0 <= j < i ==> self.names()[j] != name@,
            decreases self.entries.len() - i,
        {
            if str_equal(self.entries[i].0.as_str(), name) {
                return Some(i);
            }
            i += 1;
        }
        None
    }

    /// Whether the table has an entry for `name`.
    pub fn contains_key(&self, name: &str) -> (found: bool)
        ensures
            found == self@.contains_key(name@),
    {
        self.position(name).is_some()
    }

    /// The value stored for `name`, if there is one.
    pub fn get(&self, name: &str) -> (value: Option<&V>)
        ensures
            value is Some <==> self@.contains_key(name@),
            value is Some ==> value->0.deep_view() == self@[name@],
    {
        proof {
            use_type_invariant(self);
        }
        match self.position(name) {
            Some(i) => {
                assert(self.names().index_of(name@) == i);
                Some(&self.entries[i].1)
            },
            None => None,
        }
    }

    /// Stores `value` for `name`. An entry of that name keeps its position and
    /// takes the new value; a new name goes to the end.
    pub fn insert(&mut self, name: String, value: V)
        ensures
            final(self)@ == old(self)@.insert(name@, value.deep_view()),
            final(self).names() == if old(self)@.contains_key(name@) {
                old(self).names()
            } else {
                old(self).names().push(name@)
            },
    {
        proof {
            use_type_invariant(&*self);
        }
        let ghost before = *self;
        let ghost key = name@;
        let ghost val = value.deep_view();
        let at = self.position(name.as_str());
        let mut taken = Table { entries: Vec::new() };
        core::mem::swap(self, &mut taken);
        let mut entries = taken.entries;
        match at {
            Some(i) => {
                entries.set(i, (name, value));
                assert(entry_names(entries@) =~= before.names());
                *self = Table { entries };
                assert(self.names() =~= before.names());
                assert forall|k: Seq<char>| self@.contains_key(k) implies #[trigger] self@[k]
                    == before@.insert(key, val)[k] by {
                    let j = self.names().index_of(k);
                    if k != key {
                        assert(before.names()[j] == k);
                        assert(before.names().index_of(k) == j);
                    }
                }
                assert(self@ =~= before@.insert(key, val));
            },
            None => {
                entries.push((name, value));
                assert(entry_names(entries@) =~= before.names().push(key));
                *self = Table { entries };
                assert(self.names() =~= before.names().push(key));
                assert forall|k: Seq<char>| self@.contains_key(k) implies #[trigger] self@[k]
                    == before@.insert(key, val)[k] by {
                    let j = self.names().index_of(k);
                    if k != key {
                        assert(before.names()[j] == k);
                        assert(before.names().index_of(k) == j);
                    }
                }
                assert forall|k: Seq<char>| before@.insert(key, val).contains_key(k)
                    implies self@.contains_key(k) by {
                    if k != key {
                        let j = before.names().index_of(k);
                        assert(self.names()[j] == k);
                    } else {
                        assert(self.names()[before.names().len() as int] == key);
                    }
                }
                assert(self@ =~= before@.insert(key, val));
            },
        }
    }

    /// The name of the entry at position `i`.
    pub fn key_at(&self, i: usize) -> (name: &String)
        requires
            i < self.names().len(),
        ensures
            name@ == self.names()[i as int],
    {
        &self.entries[i].0
    }

    /// The value of the entry at position `i`.
    pub fn value_at(&self, i: usize) -> (value: &V)
        requires
            i < self.names().len(),
        ensures
            value.deep_view() == self.contents()[i as int],
            value.deep_view() == self@[self.names()[i as int]],
    {
        proof {
            use_type_invariant(self);
            assert(self.names().index_of(self.names()[i as int]) == i);
        }
        &self.entries[i].1
    }
}

impl<V: DeepView> View for Table<V> {
    type V = Map<Seq<char>, V::V>;

    /// The table as a map: each name of `names` with the value at its position.
    open spec fn view(&self) -> Map<Seq<char>, V::V> {
        Map::new(
            |name: Seq<char>| self.names().contains(name),
            |name: Seq<char>| self.contents()[self.names().index_of(name)],
        )
    }
}

} // verus!
