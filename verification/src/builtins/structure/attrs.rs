//! Tables of values stored under names, and the attribute maps that are
//! made of them.

use ahash::AHashMap;
use vstd::prelude::*;
use crate::builtins::structure::pyobject::PyObject;
use crate::names::{names_get, names_insert, names_new, slot_names};

verus! {

/// A map from names to values. The names are kept in a hash map that
/// gives each its place in the vector of values.
#[derive(Debug)]
pub struct NameTable<T> {
    index: AHashMap<String, usize>,
    values: Vec<T>,
}

/// A map from attribute names to values.
pub type AttrMap = NameTable<PyObject>;

impl<T> View for NameTable<T> {
    type V = Map<Seq<char>, T>;

    closed spec fn view(&self) -> Map<Seq<char>, T> {
        Map::new(
            |name: Seq<char>| slot_names(self.index).contains_key(name),
            |name: Seq<char>| self.values@[slot_names(self.index)[name] as int],
        )
    }
}

impl<T> NameTable<T> {
    /// Every name has a place in the vector, and no two names share one.
    #[verifier::type_invariant]
    spec fn inv(self) -> bool {
        &&& forall|name: Seq<char>|
            #![trigger slot_names(self.index).contains_key(name)]
            slot_names(self.index).contains_key(name) ==> slot_names(self.index)[name]
                < self.values@.len()
        &&& forall|a: Seq<char>, b: Seq<char>|
            #[trigger] slot_names(self.index).contains_key(a) && #[trigger] slot_names(
                self.index,
            ).contains_key(b) && slot_names(self.index)[a] == slot_names(self.index)[b] ==> a == b
    }

    /// A map without entries.
    pub fn new() -> (r: NameTable<T>)
        ensures
            r@ == Map::<Seq<char>, T>::empty(),
    {
        let r = NameTable { index: names_new(), values: Vec::new() };
        assert(r@ =~= Map::<Seq<char>, T>::empty());
        r
    }

    /// The value stored under `name`, if there is one.
    pub fn get(&self, name: &str) -> (r: Option<&T>)
        ensures
            match r {
                Some(value) => self@.contains_key(name@) && *value == self@[name@],
                None => !self@.contains_key(name@),
            },
    {
        proof {
            use_type_invariant(self);
        }
        match names_get(&self.index, name) {
            Some(slot) => Some(&self.values[slot]),
            None => None,
        }
    }

    /// Whether a value is stored under `name`.
    pub fn contains_key(&self, name: &str) -> (r: bool)
        ensures
            r == self@.contains_key(name@),
    {
        names_get(&self.index, name).is_some()
    }

    /// Stores `value` under `name`, in place of what was stored there before.
    /// The values under other names stay.
    pub fn insert(&mut self, name: String, value: T)
        ensures
            final(self)@ == old(self)@.insert(name@, value),
    {
        let mut taken = NameTable::new();
        core::mem::swap(self, &mut taken);
        proof {
            use_type_invariant(&taken);
        }
        let ghost before = taken;
        let NameTable { mut index, mut values } = taken;
        match names_get(&index, name.as_str()) {
            Some(slot) => {
                values.set(slot, value);
            },
            None => {
                let slot = values.len();
                values.push(value);
                names_insert(&mut index, name, slot);
            },
        }
        *self = NameTable { index, values };
        assert(self@ =~= before@.insert(name@, value));
    }
}

} // verus!
