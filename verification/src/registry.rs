use vstd::prelude::*;
use vstd::string::*;

use crate::table::Table;
use crate::RAFAttribute;

verus! {

/// The registry of one scoring call: for each model-prefixed variable its
/// coefficient and whether a scoring pass has used it.
#[derive(Debug)]
pub struct CoefficientRegistry {
    pub attributes: Table<RAFAttribute>,
}

impl View for CoefficientRegistry {
    type V = Map<Seq<char>, RAFAttribute>;

    open spec fn view(&self) -> Map<Seq<char>, RAFAttribute> {
        self.attributes@
    }
}

/// The registry as it is built from a coefficient table: every variable of
/// the table with its coefficient, none of them used.
pub open spec fn fresh_registry(coefficients: Map<Seq<char>, u32>) -> Map<Seq<char>, RAFAttribute> {
    Map::new(
        |name: Seq<char>| coefficients.contains_key(name),
        |name: Seq<char>| RAFAttribute { coefficient: coefficients[name], is_true: false },
    )
}

/// The registry after `name` has been used: its entry, if there is one, is
/// flagged; nothing else changes.
pub open spec fn marked(registry: Map<Seq<char>, RAFAttribute>, name: Seq<char>) -> Map<
    Seq<char>,
    RAFAttribute,
> {
    if registry.contains_key(name) {
        registry.insert(
            name,
            RAFAttribute { coefficient: registry[name].coefficient, is_true: true },
        )
    } else {
        registry
    }
}

/// The used entries of a registry, in the order of `names`: each name that is
/// flagged, with its coefficient.
pub open spec fn used_entries(names: Seq<Seq<char>>, registry: Map<Seq<char>, RAFAttribute>) -> Seq<
    (Seq<char>, u32),
> {
    names.filter(|name: Seq<char>| registry[name].is_true).map_values(
        |name: Seq<char>| (name, registry[name].coefficient),
    )
}

impl CoefficientRegistry {
    /// Builds the registry of a coefficient table. The variables keep the
    /// order of the table.
    pub fn new(coefficients: &Table<u32>) -> (registry: Self)
        ensures
            registry@ == fresh_registry(coefficients@),
            registry.attributes.names() == coefficients.names(),
    {
        let mut attributes: Table<RAFAttribute> = Table::new();
        let n = coefficients.len();
        let mut i: usize = 0;
        while i < n
            invariant
                i <= n,
                n == coefficients.names().len(),
                coefficients.names().no_duplicates(),
                attributes.names() == coefficients.names().subrange(0, i as int),
                forall|name: Seq<char>| #[trigger]
                    attributes@.contains_key(name) ==> attributes@[name] == (RAFAttribute {
                        coefficient: coefficients@[name],
                        is_true: false,
                    }),
            decreases n - i,
        {
            let ghost before = attributes;
            let name = coefficients.key_at(i);
            let coefficient = *coefficients.value_at(i);
            assert(!attributes.names().contains(name@)) by {
                if attributes.names().contains(name@) {
                    let j = attributes.names().index_of(name@);
                    assert(coefficients.names()[j] == coefficients.names()[i as int]);
                }
            }
            attributes.insert(name.clone(), RAFAttribute { coefficient, is_true: false });
            assert(attributes.names() =~= coefficients.names().subrange(0, i + 1));
            i += 1;
        }
        assert(coefficients.names().subrange(0, n as int) =~= coefficients.names());
        assert(attributes@ =~= fresh_registry(coefficients@));
        CoefficientRegistry { attributes }
    }

    /// The coefficient of `name`, or `None` where the registry has no such
    /// variable.
    pub fn lookup(&self, name: &str) -> (coefficient: Option<u32>)
        ensures
            coefficient == (if self@.contains_key(name@) {
                Some(self@[name@].coefficient)
            } else {
                None
            }),
    {
        match self.attributes.get(name) {
            Some(attribute) => Some(attribute.coefficient),
            None => None,
        }
    }

    /// Whether `name` is a variable of the registry that has been used.
    pub fn is_used(&self, name: &str) -> (used: bool)
        ensures
            used == (self@.contains_key(name@) && self@[name@].is_true),
    {
        match self.attributes.get(name) {
            Some(attribute) => attribute.is_true,
            None => false,
        }
    }

    /// Flags `name` as used. A name that the registry does not hold changes
    /// nothing.
    pub fn mark_used(&mut self, name: &str)
        ensures
            final(self)@ == marked(old(self)@, name@),
            final(self).attributes.names() == old(self).attributes.names(),
    {
        let found = match self.attributes.get(name) {
            Some(attribute) => Some(attribute.coefficient),
            None => None,
        };
        match found {
            Some(coefficient) => {
                self.attributes.insert(
                    String::from_str(name),
                    RAFAttribute { coefficient, is_true: true },
                );
            },
            None => {},
        }
    }

    /// The variables that have been used, each with its coefficient, in the
    /// order of the registry.
    pub fn used_coefficients(&self) -> (used: Vec<(String, u32)>)
        ensures
            used.deep_view() == used_entries(self.attributes.names(), self@),
    {
        let ghost names = self.attributes.names();
        let ghost registry = self@;
        let ghost is_used = |name: Seq<char>| registry[name].is_true;
        let ghost entry = |name: Seq<char>| (name, registry[name].coefficient);
        let mut used: Vec<(String, u32)> = Vec::new();
        let n = self.attributes.len();
        let mut i: usize = 0;
        assert(names.subrange(0, 0) =~= Seq::<Seq<char>>::empty());
        assert(used.deep_view() =~= names.subrange(0, 0).filter(is_used).map_values(entry)) by {
            reveal(Seq::filter);
        }
        while i < n
            invariant
                i <= n,
                n == names.len(),
                names == self.attributes.names(),
                registry == self@,
                is_used == |name: Seq<char>| registry[name].is_true,
                entry == |name: Seq<char>| (name, registry[name].coefficient),
                used.deep_view() == names.subrange(0, i as int).filter(is_used).map_values(entry),
            decreases n - i,
        {
            let ghost before = used.deep_view();
            let attribute = self.attributes.value_at(i);
            proof {
                assert(names.subrange(0, i + 1) =~= names.subrange(0, i as int).push(
                    names[i as int],
                ));
                names.subrange(0, i as int).lemma_filter_push(names[i as int], is_used);
            }
            if attribute.is_true {
                used.push((self.attributes.key_at(i).clone(), attribute.coefficient));
                assert(used.deep_view() =~= before.push(entry(names[i as int])));
                assert(used.deep_view() =~= names.subrange(0, i + 1).filter(is_used).map_values(
                    entry,
                ));
            }
            i += 1;
        }
        assert(names.subrange(0, n as int) =~= names);
        used
    }
}

} // verus!
