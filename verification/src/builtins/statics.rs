//! The values that exist once: `True`, `False` and `None`.

use vstd::prelude::*;
use crate::builtins::structure::pyobject::{PyImmutableObject, PyObject};

verus! {

/// The shared scalars.
#[derive(Debug)]
pub struct Statics {
    pub true_: PyObject,
    pub false_: PyObject,
    pub none_: PyObject,
}

impl Statics {
    /// Each field holds the scalar that it is named after.
    pub open spec fn wf(&self) -> bool {
        &&& self.true_ == PyObject::Immutable(PyImmutableObject::Bool(true))
        &&& self.false_ == PyObject::Immutable(PyImmutableObject::Bool(false))
        &&& self.none_ == PyObject::Immutable(PyImmutableObject::NoneValue)
    }

    /// The shared scalars.
    pub fn new() -> (r: Self)
        ensures
            r.wf(),
    {
        Statics {
            true_: PyObject::create_new_bool(true),
            false_: PyObject::create_new_bool(false),
            none_: PyObject::create_new_none(),
        }
    }

    /// The boolean `value`.
    pub fn get_bool(&self, value: bool) -> (r: &PyObject)
        requires
            self.wf(),
        ensures
            *r == PyObject::Immutable(PyImmutableObject::Bool(value)),
    {
        if value {
            &self.true_
        } else {
            &self.false_
        }
    }

    /// `None`.
    pub fn none(&self) -> (r: &PyObject)
        requires
            self.wf(),
        ensures
            *r == PyObject::Immutable(PyImmutableObject::NoneValue),
    {
        &self.none_
    }
}

} // verus!
