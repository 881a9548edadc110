//! Classes: a name, the classes it descends from, and what it defines.
//!
//! An internal class holds a table of native magic methods. When it is
//! finalized, each slot that it leaves empty is filled with what its
//! superclasses give, so that one lookup in its own table finds the method.

use std::rc::Rc;
use vstd::prelude::*;
use crate::builtins::structure::attrs::AttrMap;
use crate::builtins::structure::magic_methods::{PyMagicMethod, PyMagicMethods};
use crate::builtins::structure::native::PyInternalFunction;
use crate::builtins::structure::pyobject::{PyInternalObject, PyObject};
use crate::text::share;

verus! {

/// A class.
#[derive(Debug)]
pub enum PyClass {
    /// A class built by the program: its attributes are looked up by name,
    /// in the class and then in its superclasses.
    UserDefined { name: String, attributes: AttrMap, super_classes: Vec<Rc<PyClass>> },
    /// A native class: a table of magic methods and a map of static
    /// attributes.
    Internal {
        name: String,
        super_classes: Vec<Rc<PyClass>>,
        magic_methods: PyMagicMethods,
        attributes: AttrMap,
    },
}

/// The native callable `func` as a value.
pub open spec fn slot_value(func: PyInternalFunction) -> PyObject {
    PyObject::Internal(PyInternalObject::InternalFunction(func))
}

/// What the last entry for `m` in `list` sets, or `default` where the list
/// has no entry for `m`.
pub open spec fn latest(
    list: Seq<(PyMagicMethod, PyInternalFunction)>,
    m: PyMagicMethod,
    default: Option<PyInternalFunction>,
) -> Option<PyInternalFunction>
    decreases list.len(),
{
    if list.len() == 0 {
        default
    } else if list.last().0 == m {
        Some(list.last().1)
    } else {
        latest(list.drop_last(), m, default)
    }
}

/// An entry of the list wins over the default; without one the default
/// stands.
pub proof fn lemma_latest_default(
    list: Seq<(PyMagicMethod, PyInternalFunction)>,
    m: PyMagicMethod,
    default: Option<PyInternalFunction>,
)
    ensures
        latest(list, m, default) == (match latest(list, m, None) {
            Some(f) => Some(f),
            None => default,
        }),
    decreases list.len(),
{
    if list.len() > 0 && list.last().0 != m {
        lemma_latest_default(list.drop_last(), m, default);
    }
}

impl PyClass {
    /// The name of the class.
    pub open spec fn name_of(&self) -> Seq<char> {
        match self {
            PyClass::UserDefined { name, .. } => name@,
            PyClass::Internal { name, .. } => name@,
        }
    }

    /// The superclasses, in the order in which they were listed.
    pub open spec fn supers(&self) -> Seq<Rc<PyClass>> {
        match self {
            PyClass::UserDefined { super_classes, .. } => super_classes@,
            PyClass::Internal { super_classes, .. } => super_classes@,
        }
    }

    /// The attributes that the class holds by name.
    pub open spec fn attrs(&self) -> Map<Seq<char>, PyObject> {
        match self {
            PyClass::UserDefined { attributes, .. } => attributes@,
            PyClass::Internal { attributes, .. } => attributes@,
        }
    }

    /// What the class's own table holds for `m`; a user-defined class has no
    /// table.
    pub open spec fn own(&self, m: PyMagicMethod) -> Option<PyInternalFunction> {
        match self {
            PyClass::UserDefined { .. } => None,
            PyClass::Internal { magic_methods, .. } => magic_methods.slot(m),
        }
    }

    /// Whether the class itself defines `m`: a user-defined class by an
    /// attribute of that name, an internal class in its table.
    pub open spec fn defines(&self, m: PyMagicMethod) -> bool {
        match self {
            PyClass::UserDefined { attributes, .. } => attributes@.contains_key(m.name()),
            PyClass::Internal { magic_methods, .. } => magic_methods.slot(m) is Some,
        }
    }

    /// Whether the class and all the classes it descends from are internal.
    pub open spec fn is_native(&self) -> bool
        decreases self,
    {
        match self {
            PyClass::UserDefined { .. } => false,
            PyClass::Internal { super_classes, .. } => forall|i: int|
                0 <= i < super_classes@.len() ==> (#[trigger] super_classes@[i]).is_native(),
        }
    }

    /// The native implementation of `m` that the class has or inherits: its
    /// own where it has one, else the first that a depth-first search of the
    /// superclasses finds, in the order in which they were listed.
    pub open spec fn inherited(&self, m: PyMagicMethod) -> Option<PyInternalFunction>
        decreases self,
    {
        match self {
            PyClass::UserDefined { .. } => None,
            PyClass::Internal { magic_methods, super_classes, .. } => {
                if magic_methods.slot(m) is Some {
                    magic_methods.slot(m)
                } else {
                    Self::first_inherited(super_classes@, m, 0)
                }
            },
        }
    }

    /// The first implementation of `m` that one of `supers[from..]` has or
    /// inherits.
    pub open spec fn first_inherited(supers: Seq<Rc<PyClass>>, m: PyMagicMethod, from: int) -> Option<
        PyInternalFunction,
    >
        decreases supers, supers.len() - from,
    {
        if from < 0 || from >= supers.len() {
            None
        } else if supers[from].inherited(m) is Some {
            supers[from].inherited(m)
        } else {
            Self::first_inherited(supers, m, from + 1)
        }
    }

    /// Whether the class, or a class that it descends from through any chain
    /// of superclasses, has an implementation of `m` in its own table.
    pub open spec fn reaches(&self, m: PyMagicMethod) -> bool
        decreases self,
    {
        match self {
            PyClass::UserDefined { .. } => false,
            PyClass::Internal { magic_methods, super_classes, .. } => {
                magic_methods.slot(m) is Some || exists|i: int|
                    0 <= i < super_classes@.len() && (#[trigger] super_classes@[i]).reaches(m)
            },
        }
    }

    /// Whether the class's own table already holds all that it inherits.
    pub open spec fn is_flat(&self) -> bool {
        forall|m: PyMagicMethod| self.own(m) == self.inherited(m)
    }

    /// The class after it was finalized: the same class, with each slot of
    /// its table holding what the class has or inherits for that method. A
    /// user-defined class is left as it is.
    pub open spec fn is_finalized_from(&self, before: PyClass) -> bool {
        match before {
            PyClass::UserDefined { .. } => *self == before,
            PyClass::Internal { name, super_classes, attributes, .. } => {
                &&& self matches PyClass::Internal {
                    name: new_name,
                    super_classes: new_supers,
                    attributes: new_attributes,
                    ..
                }
                &&& new_name == name
                &&& new_supers == super_classes
                &&& new_attributes == attributes
                &&& forall|m: PyMagicMethod| self.own(m) == before.inherited(m)
            },
        }
    }

    /// The value that the class gives for the attribute `name`: for a
    /// user-defined class its own attribute, else what its superclasses
    /// give, the first listed first; for an internal class the magic method
    /// of that name in its own table, else its static attribute.
    pub open spec fn method_value(&self, name: Seq<char>) -> Option<PyObject>
        decreases self,
    {
        match self {
            PyClass::UserDefined { attributes, super_classes, .. } => {
                if attributes@.contains_key(name) {
                    Some(attributes@[name])
                } else {
                    Self::first_method_value(super_classes@, name, 0)
                }
            },
            PyClass::Internal { magic_methods, attributes, .. } => {
                match PyMagicMethod::named(name) {
                    Some(m) if magic_methods.slot(m) is Some => Some(
                        slot_value(magic_methods.slot(m).unwrap()),
                    ),
                    _ => if attributes@.contains_key(name) {
                        Some(attributes@[name])
                    } else {
                        None
                    },
                }
            },
        }
    }

    /// The first value that one of `supers[from..]` gives for `name`.
    pub open spec fn first_method_value(supers: Seq<Rc<PyClass>>, name: Seq<char>, from: int) -> Option<
        PyObject,
    >
        decreases supers, supers.len() - from,
    {
        if from < 0 || from >= supers.len() {
            None
        } else if supers[from].method_value(name) is Some {
            supers[from].method_value(name)
        } else {
            Self::first_method_value(supers, name, from + 1)
        }
    }

    /// The value that the class gives for the magic method `m`: for an
    /// internal class what its own table holds, for a user-defined class the
    /// attribute of that name, its own or inherited.
    pub open spec fn magic_value(&self, m: PyMagicMethod) -> Option<PyObject> {
        match self {
            PyClass::UserDefined { .. } => self.method_value(m.name()),
            PyClass::Internal { magic_methods, .. } => match magic_methods.slot(m) {
                Some(func) => Some(slot_value(func)),
                None => None,
            },
        }
    }

    /// A method that is reachable through the superclasses is inherited.
    pub proof fn lemma_reachable_is_inherited(&self, m: PyMagicMethod)
        requires
            self.reaches(m),
        ensures
            self.inherited(m) is Some,
        decreases self,
    {
        match self {
            PyClass::UserDefined { .. } => {},
            PyClass::Internal { magic_methods, super_classes, .. } => {
                if magic_methods.slot(m) is None {
                    let i = choose|i: int|
                        0 <= i < super_classes@.len() && (#[trigger] super_classes@[i]).reaches(m);
                    super_classes@[i].lemma_reachable_is_inherited(m);
                    Self::lemma_first_inherited_finds(super_classes@, m, 0, i);
                }
            },
        }
    }

    /// Where one of `supers[from..]` has or inherits `m`, the search from
    /// `from` finds an implementation.
    pub proof fn lemma_first_inherited_finds(supers: Seq<Rc<PyClass>>, m: PyMagicMethod, from: int, at: int)
        requires
            0 <= from <= at < supers.len(),
            supers[at].inherited(m) is Some,
        ensures
            Self::first_inherited(supers, m, from) is Some,
        decreases at - from,
    {
        if from < at && supers[from].inherited(m) is None {
            Self::lemma_first_inherited_finds(supers, m, from + 1, at);
        }
    }

    /// Flattening is complete: once an internal class is finalized, every
    /// magic method that is reachable from it through any chain of
    /// superclasses is found by a single lookup in its own table, and that
    /// lookup gives what the search of the hierarchy gave before.
    pub proof fn lemma_flattening_is_complete(before: PyClass, after: PyClass, m: PyMagicMethod)
        requires
            before is Internal,
            after.is_finalized_from(before),
        ensures
            after.own(m) == before.inherited(m),
            before.reaches(m) ==> after.own(m) is Some,
            after.inherited(m) == after.own(m),
            after.is_flat(),
    {
        if before.reaches(m) {
            before.lemma_reachable_is_inherited(m);
        }
        assert forall|x: PyMagicMethod| after.own(x) == after.inherited(x) by {
            Self::lemma_inherited_after(before, after, x);
        }
    }

    /// In a finalized class the search of the hierarchy gives what the own
    /// table gives.
    proof fn lemma_inherited_after(before: PyClass, after: PyClass, m: PyMagicMethod)
        requires
            before is Internal,
            after.is_finalized_from(before),
        ensures
            after.inherited(m) == after.own(m),
    {
        if after.own(m) is None {
            assert(before.inherited(m) is None);
            assert(before.own(m) is None);
            assert(after.supers() == before.supers());
            assert(Self::first_inherited(before.supers(), m, 0) is None);
        }
    }

    /// Whether the class is the internal class named `name` with the
    /// superclasses `supers` and no static attributes, finalized from the
    /// table `declared`: each slot holds what `declared` holds for it, or
    /// else what the superclasses give.
    pub open spec fn is_internal_class(
        &self,
        name: Seq<char>,
        supers: Seq<Rc<PyClass>>,
        declared: PyMagicMethods,
    ) -> bool {
        &&& *self is Internal
        &&& self.name_of() == name
        &&& self.supers() == supers
        &&& self.attrs() == Map::<Seq<char>, PyObject>::empty()
        &&& forall|m: PyMagicMethod|
            self.own(m) == (if declared.slot(m) is Some {
                declared.slot(m)
            } else {
                Self::first_inherited(supers, m, 0)
            })
    }

    /// The finalized internal class named `name` that descends from
    /// `super_classes` and declares the methods of `magic_methods`.
    pub fn new_internal(name: &str, super_classes: Vec<Rc<PyClass>>, magic_methods: PyMagicMethods) -> (r:
        PyClass)
        requires
            forall|i: int| 0 <= i < super_classes@.len() ==> (#[trigger] super_classes@[i]).is_native(),
        ensures
            r.is_internal_class(name@, super_classes@, magic_methods),
            r.is_native(),
    {
        let class = PyClass::Internal {
            name: name.to_owned(),
            super_classes,
            magic_methods,
            attributes: AttrMap::new(),
        };
        assert(class.is_native());
        class.create()
    }

    /// The name of the class.
    pub fn get_name(&self) -> (r: &String)
        ensures
            r@ == self.name_of(),
    {
        match self {
            PyClass::UserDefined { name, .. } => name,
            PyClass::Internal { name, .. } => name,
        }
    }

    /// The superclasses, in the order in which they were listed.
    pub fn get_super_classes(&self) -> (r: Vec<Rc<PyClass>>)
        ensures
            r@ == self.supers(),
    {
        let supers = match self {
            PyClass::UserDefined { super_classes, .. } => super_classes,
            PyClass::Internal { super_classes, .. } => super_classes,
        };
        let mut copy: Vec<Rc<PyClass>> = Vec::new();
        let mut i: usize = 0;
        while i < supers.len()
            invariant
                i <= supers.len(),
                copy@ == supers@.take(i as int),
            decreases supers.len() - i,
        {
            copy.push(share(&supers[i]));
            assert(copy@ =~= supers@.take(i + 1));
            i += 1;
        }
        assert(copy@ =~= supers@);
        copy
    }

    /// Whether the class itself defines `magic_method`: a user-defined class
    /// by an attribute of that name, an internal class in its table.
    pub fn defines_attribute(&self, magic_method: PyMagicMethod) -> (r: bool)
        ensures
            r == self.defines(magic_method),
    {
        match self {
            PyClass::UserDefined { attributes, .. } => attributes.contains_key(magic_method.as_str()),
            PyClass::Internal { magic_methods, .. } => magic_method.get_method(magic_methods).is_some(),
        }
    }

    /// Finalizes the class: an internal class gets each empty slot of its
    /// table filled with what its superclasses give for it; nothing else
    /// changes. A user-defined class is returned as it is.
    pub fn create(self) -> (r: Self)
        requires
            self is Internal ==> self.is_native(),
        ensures
            r.is_finalized_from(self),
    {
        match self {
            PyClass::UserDefined { .. } => self,
            PyClass::Internal { .. } => {
                let ghost before = self;
                let mut class = self;
                let attrs = class.get_super_magic_methods();
                class.load_super_magic_methods(attrs);
                proof {
                    assert forall|m: PyMagicMethod| class.own(m) == before.inherited(m) by {
                        lemma_latest_default(attrs@, m, before.own(m));
                    }
                }
                class
            },
        }
    }

    /// The methods that finalizing has to fill in: each magic method that the
    /// class leaves empty and a superclass gives, with what it gives.
    pub fn get_super_magic_methods(&self) -> (r: Vec<(PyMagicMethod, PyInternalFunction)>)
        requires
            self is Internal ==> self.is_native(),
        ensures
            self is UserDefined ==> r@.len() == 0,
            forall|m: PyMagicMethod|
                latest(r@, m, None) == (if self.own(m) is None {
                    self.inherited(m)
                } else {
                    None
                }),
    {
        let mut methods_to_set: Vec<(PyMagicMethod, PyInternalFunction)> = Vec::new();
        if let PyClass::Internal { .. } = self {
            let all = PyMagicMethod::all();
            let mut i: usize = 0;
            while i < all.len()
                invariant
                    i <= all.len(),
                    all@ == PyMagicMethod::every(),
                    self is Internal,
                    self.is_native(),
                    forall|m: PyMagicMethod|
                        latest(methods_to_set@, m, None) == (if self.own(m) is None && (exists|j: int|
                            0 <= j < i && all@[j] == m) {
                            self.inherited(m)
                        } else {
                            None
                        }),
                decreases all.len() - i,
            {
                let magic_method_type = all[i];
                let ghost before = methods_to_set@;
                let ghost mut pushed = false;
                proof {
                    assert forall|j: int| 0 <= j < i implies all@[j] != magic_method_type by {
                        lemma_every_is_distinct(j, i as int);
                    }
                }
                if !self.defines_attribute(magic_method_type) {
                    if let Some(super_method) = self.search_for_magic_method_internal(
                        magic_method_type,
                    ) {
                        methods_to_set.push((magic_method_type, super_method));
                        proof {
                            pushed = true;
                            assert(methods_to_set@.drop_last() =~= before);
                            assert(methods_to_set@.last() == (magic_method_type, super_method));
                        }
                    }
                }
                proof {
                    assert forall|m: PyMagicMethod|
                        latest(methods_to_set@, m, None) == (if self.own(m) is None && (exists|j: int|
                            0 <= j < i + 1 && all@[j] == m) {
                            self.inherited(m)
                        } else {
                            None
                        }) by {
                        let had = exists|j: int| 0 <= j < i && all@[j] == m;
                        let has = exists|j: int| 0 <= j < i + 1 && all@[j] == m;
                        assert(latest(before, m, None) == (if self.own(m) is None && had {
                            self.inherited(m)
                        } else {
                            None
                        }));
                        if m == magic_method_type {
                            assert(all@[i as int] == m);
                            assert(has);
                            assert(!had);
                            if pushed {
                                assert(latest(methods_to_set@, m, None) == self.inherited(m));
                            } else {
                                assert(methods_to_set@ == before);
                            }
                        } else {
                            if has {
                                let j = choose|j: int| 0 <= j < i + 1 && all@[j] == m;
                                assert(0 <= j < i && all@[j] == m);
                            }
                            if had {
                                let j = choose|j: int| 0 <= j < i && all@[j] == m;
                                assert(0 <= j < i + 1 && all@[j] == m);
                            }
                            assert(had == has);
                            if pushed {
                                assert(latest(methods_to_set@, m, None) == latest(before, m, None));
                            } else {
                                assert(methods_to_set@ == before);
                            }
                        }
                    }
                }
                i += 1;
            }
            proof {
                assert forall|m: PyMagicMethod|
                    latest(methods_to_set@, m, None) == (if self.own(m) is None {
                        self.inherited(m)
                    } else {
                        None
                    }) by {
                    PyMagicMethod::lemma_every_is_complete(m);
                    let j = choose|j: int| 0 <= j < all@.len() && all@[j] == m;
                    assert(0 <= j < i && all@[j] == m);
                }
            }
        }
        methods_to_set
    }

    /// Writes each entry of `methods_to_set` into the class's table, in
    /// order. A user-defined class has no table and stays as it is.
    pub fn load_super_magic_methods(&mut self, methods_to_set: Vec<(PyMagicMethod, PyInternalFunction)>)
        ensures
            *old(self) is UserDefined ==> *final(self) == *old(self),
            *old(self) is Internal ==> *final(self) is Internal,
            final(self).name_of() == old(self).name_of(),
            final(self).supers() == old(self).supers(),
            *old(self) matches PyClass::Internal { name, super_classes, attributes, .. } ==> (*final(self) matches PyClass::Internal { name: n2, super_classes: s2, attributes: a2, .. } && n2
                == name && s2 == super_classes && a2 == attributes),
            *old(self) is Internal ==> forall|m: PyMagicMethod|
                final(self).own(m) == latest(methods_to_set@, m, old(self).own(m)),
    {
        match self {
            PyClass::Internal { magic_methods, .. } => {
                let ghost start = *magic_methods;
                let mut i: usize = 0;
                while i < methods_to_set.len()
                    invariant
                        i <= methods_to_set.len(),
                        forall|m: PyMagicMethod|
                            magic_methods.slot(m) == latest(
                                methods_to_set@.take(i as int),
                                m,
                                start.slot(m),
                            ),
                    decreases methods_to_set.len() - i,
                {
                    let (magic_method_type, super_method) = methods_to_set[i];
                    magic_methods.set_method(&magic_method_type, super_method);
                    proof {
                        assert(methods_to_set@.take(i + 1).drop_last() =~= methods_to_set@.take(
                            i as int,
                        ));
                    }
                    i += 1;
                }
                proof {
                    assert(methods_to_set@.take(i as int) =~= methods_to_set@);
                }
            },
            PyClass::UserDefined { .. } => {},
        }
    }

    /// The native implementation of `magic_method` that the class has or
    /// inherits, found by searching the hierarchy.
    pub fn search_for_magic_method_internal(&self, magic_method: PyMagicMethod) -> (r: Option<
        PyInternalFunction,
    >)
        requires
            self.is_native(),
        ensures
            r == self.inherited(magic_method),
        decreases self,
    {
        match self {
            PyClass::UserDefined { .. } => unreached(),
            PyClass::Internal { magic_methods, super_classes, .. } => {
                let search_result = magic_methods.get_method(&magic_method);
                if search_result.is_some() {
                    return search_result;
                }
                let mut i: usize = 0;
                while i < super_classes.len()
                    invariant
                        i <= super_classes.len(),
                        self.is_native(),
                        *self matches PyClass::Internal { super_classes: s, magic_methods: t, .. } && s
                            == super_classes && t == magic_methods,
                        magic_methods.slot(magic_method) is None,
                        Self::first_inherited(super_classes@, magic_method, 0) == Self::first_inherited(
                            super_classes@,
                            magic_method,
                            i as int,
                        ),
                    decreases super_classes.len() - i,
                {
                    assert(super_classes@[i as int].is_native());
                    let attr = super_classes[i].search_for_magic_method_internal(magic_method);
                    if attr.is_some() {
                        return attr;
                    }
                    i += 1;
                }
                None
            },
        }
    }

    /// The native implementation of `magic_method` in the class's own table.
    pub fn get_magic_method_internal(&self, magic_method: PyMagicMethod) -> (r: Option<
        PyInternalFunction,
    >)
        requires
            self is Internal,
        ensures
            r == self.own(magic_method),
    {
        match self {
            PyClass::UserDefined { .. } => unreached(),
            PyClass::Internal { magic_methods, .. } => magic_methods.get_method(&magic_method),
        }
    }

    /// The value that the class gives for `magic_method`; `None` where it
    /// gives none.
    pub fn search_for_magic_method(&self, magic_method: PyMagicMethod) -> (r: Option<PyObject>)
        ensures
            r == self.magic_value(magic_method),
    {
        match self {
            PyClass::UserDefined { .. } => self.search_for_method(magic_method.as_str()),
            PyClass::Internal { magic_methods, .. } => match magic_methods.get_method(&magic_method) {
                Some(func) => Some(PyObject::new_internal_func(func)),
                None => None,
            },
        }
    }

    /// The value that the class gives for the attribute `method_name`;
    /// `None` where it gives none.
    pub fn search_for_method(&self, method_name: &str) -> (r: Option<PyObject>)
        ensures
            r == self.method_value(method_name@),
        decreases self,
    {
        match self {
            PyClass::UserDefined { attributes, super_classes, .. } => {
                if let Some(value) = attributes.get(method_name) {
                    return Some(value.clone());
                }
                let mut i: usize = 0;
                while i < super_classes.len()
                    invariant
                        i <= super_classes.len(),
                        *self matches PyClass::UserDefined { super_classes: s, attributes: a, .. } && s
                            == super_classes && a == attributes,
                        !attributes@.contains_key(method_name@),
                        Self::first_method_value(super_classes@, method_name@, 0)
                            == Self::first_method_value(super_classes@, method_name@, i as int),
                    decreases super_classes.len() - i,
                {
                    let found = super_classes[i].search_for_method(method_name);
                    if found.is_some() {
                        return found;
                    }
                    i += 1;
                }
                None
            },
            PyClass::Internal { magic_methods, attributes, .. } => {
                if let Some(magic_method) = PyMagicMethod::from_string(method_name) {
                    if let Some(method) = magic_methods.get_method(&magic_method) {
                        return Some(PyObject::new_internal_func(method));
                    }
                }
                match attributes.get(method_name) {
                    Some(value) => Some(value.clone()),
                    None => None,
                }
            },
        }
    }
}

/// No magic method occurs twice in `every()`.
pub proof fn lemma_every_is_distinct(i: int, j: int)
    requires
        0 <= i < PyMagicMethod::every().len(),
        0 <= j < PyMagicMethod::every().len(),
        i != j,
    ensures
        PyMagicMethod::every()[i] != PyMagicMethod::every()[j],
{
}

} // verus!
