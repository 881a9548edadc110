//! `NoneType`, the class of `None`.

use std::rc::Rc;
use vstd::prelude::*;
use vstd::string::StringExecFns;
use crate::builtins::function_utils::raise_type_error;
use crate::builtins::outcome::{answers, join3, views};
use crate::builtins::semantics::{none_new, none_repr};
use crate::builtins::structure::pyexception::PyException;
use crate::builtins::structure::pyobject::{FuncReturnType, PyImmutableObject, PyObject};
use crate::pyarena::PyArena;
use crate::builtins::structure::magic_methods::{empty_methods, py_magic_methods_defaults, PyMagicMethods};
use crate::builtins::structure::native::{NewFuncType, PyInternalFunction, UnaryFuncType};
use crate::builtins::structure::pyclass::PyClass;

verus! {

/// The magic methods that `NoneType` declares.
pub open spec fn none_methods() -> PyMagicMethods {
    PyMagicMethods {
        __new__: Some(PyInternalFunction::NewFunc(NewFuncType::NoneType)),
        __repr__: Some(PyInternalFunction::UnaryFunc(UnaryFuncType::NoneRepr)),
        ..empty_methods()
    }
}

/// The class `NoneType`.
pub fn get_none_class(object_class: Rc<PyClass>) -> (r: PyClass)
    requires
        object_class.is_native(),
    ensures
        r.is_internal_class("NoneType"@, seq![object_class], none_methods()),
        r.is_native(),
{
    let supers = vec![object_class];
    assert(supers@ =~= seq![object_class]);
    PyClass::new_internal(
        "NoneType",
        supers,
        PyMagicMethods {
            __new__: Some(PyInternalFunction::NewFunc(NewFuncType::NoneType)),
            __repr__: Some(PyInternalFunction::UnaryFunc(UnaryFuncType::NoneRepr)),
            ..py_magic_methods_defaults()
        },
    )
}


/// Checks that the value is `None`.
pub fn expect_none(pyobj: &PyObject, arena: &PyArena) -> (r: Result<(), PyException>)
    requires
        arena.wf(),
    ensures
        match none_repr(arena.world(), arena@.heap, pyobj@) {
            Ok(_) => r is Ok,
            Err(error) => r matches Err(e) && e@ == error,
        },
{
    match pyobj {
        PyObject::Immutable(PyImmutableObject::NoneValue) => Ok(()),
        _ => {
            let name = pyobj.class_name(arena);
            Err(
                raise_type_error(
                    arena,
                    join3("'", name.as_str(), "' object cannot be interpreted as a NoneType"),
                ),
            )
        },
    }
}

/// `None`. It takes no arguments.
pub fn none__new__(arena: &PyArena, _pyclass: Rc<PyClass>, pyargs: &[PyObject]) -> (r: FuncReturnType)
    requires
        arena.wf(),
    ensures
        answers(
            match none_new(arena.world(), views(pyargs@), arena@) {
                Some(outcome) => Some(outcome.result),
                None => None,
            },
            r,
        ),
{
    if pyargs.len() != 0 {
        return Err(raise_type_error(arena, String::from_str("NoneType takes no arguments")));
    }
    Ok(arena.statics.none().clone())
}

/// The text `None`.
pub fn none__repr__(arena: &PyArena, pyself: &PyObject) -> (r: FuncReturnType)
    requires
        arena.wf(),
    ensures
        answers(Some(none_repr(arena.world(), arena@.heap, pyself@)), r),
{
    expect_none(pyself, arena)?;
    Ok(PyObject::new_string(String::from_str("None")))
}

} // verus!
