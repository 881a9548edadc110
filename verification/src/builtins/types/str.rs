//! Texts: what `str()` and `repr()` make of a value.

use vstd::prelude::*;
use crate::builtins::outcome::{carried_out, join3};
use crate::builtins::semantics::{py_repr as repr_outcome, py_str as str_outcome};
use crate::builtins::structure::magic_methods::PyMagicMethod;
use crate::builtins::structure::pyobject::{FuncReturnType, PyImmutableObject, PyObject};
use crate::builtins::types::object::raise_missing_method;
use crate::builtins::types::pybool::call_conversion;
use crate::builtins::types::pyfloat::FloatHost;
use crate::pyarena::PyArena;

verus! {

/// What `str()` makes of `obj`: a text as it is, else what the value's
/// `__str__` yields, or its `__repr__` where it has no `__str__`.
pub fn py_str_tmp<H: FloatHost>(obj: &PyObject, arena: &mut PyArena, host: &H, fuel: usize) -> (r: FuncReturnType)
    requires
        old(arena).wf(),
    ensures
        carried_out(old(arena), final(arena), str_outcome(old(arena).world_of(host), obj@, old(arena)@, fuel as nat), r),
    decreases fuel, 2int, 0int,
{
    if let PyObject::Immutable(PyImmutableObject::Str(_)) = obj {
        return Ok(obj.clone());
    }
    match obj.get_magic_method(&PyMagicMethod::Str, arena) {
        Some(str_fn) => call_conversion(PyMagicMethod::Str, &str_fn, obj, arena, host, fuel),
        None => py_repr(obj, arena, host, fuel),
    }
}

/// What `repr()` makes of `obj`: a text in quotes, else what the value's
/// `__repr__` yields. A value without `__repr__` raises a `TypeError`.
pub fn py_repr<H: FloatHost>(obj: &PyObject, arena: &mut PyArena, host: &H, fuel: usize) -> (r: FuncReturnType)
    requires
        old(arena).wf(),
    ensures
        carried_out(old(arena), final(arena), repr_outcome(old(arena).world_of(host), obj@, old(arena)@, fuel as nat), r),
    decreases fuel, 1int, 1int,
{
    if let PyObject::Immutable(PyImmutableObject::Str(text)) = obj {
        return Ok(PyObject::new_string(join3("'", text.as_str(), "'")));
    }
    match obj.get_magic_method(&PyMagicMethod::Repr, arena) {
        Some(repr_fn) => call_conversion(PyMagicMethod::Repr, &repr_fn, obj, arena, host, fuel),
        None => Err(raise_missing_method(arena, obj, PyMagicMethod::Repr)),
    }
}

} // verus!
