//! `object`, the root of the class hierarchy.

use vstd::prelude::*;
use std::rc::Rc;
use vstd::string::StringExecFns;
use crate::builtins::function_utils::{call_function, raise_too_deep, raise_type_error};
use crate::builtins::outcome::{answers, carried_out, join3, join5, views};
use crate::builtins::semantics::{missing_method, object_init, object_new, object_repr, object_str};
use crate::builtins::structure::magic_methods::PyMagicMethod;
use crate::builtins::structure::pyexception::PyException;
use crate::builtins::structure::pyinstance::PyInstance;
use crate::builtins::structure::pyobject::{
    EmptyFuncReturnType,
    FuncReturnType,
    PyInternalObject,
    PyMutableObject,
    PyObject,
    PyObjectView,
};
use crate::builtins::types::pyfloat::FloatHost;
use crate::pyarena::PyArena;
use crate::text::{share, usize_to_string};
use crate::builtins::structure::magic_methods::{empty_methods, py_magic_methods_defaults, PyMagicMethods};
use crate::builtins::structure::native::{InitFuncType, NewFuncType, PyInternalFunction, UnaryFuncType};
use crate::builtins::structure::pyclass::PyClass;

verus! {

/// The magic methods that `object` declares.
pub open spec fn object_methods() -> PyMagicMethods {
    PyMagicMethods {
        __new__: Some(PyInternalFunction::NewFunc(NewFuncType::Object)),
        __init__: Some(PyInternalFunction::InitFunc(InitFuncType::Object)),
        __str__: Some(PyInternalFunction::UnaryFunc(UnaryFuncType::ObjectStr)),
        __repr__: Some(PyInternalFunction::UnaryFunc(UnaryFuncType::ObjectRepr)),
        ..empty_methods()
    }
}

/// The class `object`.
pub fn get_object_class() -> (r: PyClass)
    ensures
        r.is_internal_class("object"@, Seq::empty(), object_methods()),
        r.is_native(),
{
    PyClass::new_internal(
        "object",
        Vec::new(),
        PyMagicMethods {
            __new__: Some(PyInternalFunction::NewFunc(NewFuncType::Object)),
            __init__: Some(PyInternalFunction::InitFunc(InitFuncType::Object)),
            __str__: Some(PyInternalFunction::UnaryFunc(UnaryFuncType::ObjectStr)),
            __repr__: Some(PyInternalFunction::UnaryFunc(UnaryFuncType::ObjectRepr)),
            ..py_magic_methods_defaults()
        },
    )
}


/// The class that the value is.
pub fn expect_class(pyobj: &PyObject) -> (r: Rc<PyClass>)
    requires
        pyobj@ is Class,
    ensures
        pyobj@ == PyObjectView::Class(r),
{
    match pyobj {
        PyObject::Internal(PyInternalObject::InternalClass(class)) => share(class),
        _ => unreached(),
    }
}

/// The `TypeError` for a value whose class does not give `m`.
pub fn raise_missing_method(arena: &PyArena, value: &PyObject, m: PyMagicMethod) -> (e: PyException)
    requires
        arena.wf(),
    ensures
        e@ == missing_method(arena.world(), arena@.heap, value@, m),
{
    let name = value.class_name(arena);
    raise_type_error(arena, join5("cannot find method '", m.as_str(), "' in '", name.as_str(), "' object"))
}

/// Makes a new instance of `pyclass` without storage. Arguments are
/// refused where the class has no `__init__` to take them.
pub fn object__new__(arena: &mut PyArena, pyclass: Rc<PyClass>, pyargs: &[PyObject]) -> (r: FuncReturnType)
    requires
        old(arena).wf(),
    ensures
        carried_out(
            old(arena),
            final(arena),
            object_new(old(arena).world(), pyclass, views(pyargs@), old(arena)@),
            r,
        ),
{
    if !pyclass.defines_attribute(PyMagicMethod::Init) && pyargs.len() > 0 {
        return Err(raise_type_error(arena, String::from_str("object() takes no arguments")));
    }
    Ok(arena.allocate(PyMutableObject::Instance(PyInstance::new_empty(pyclass))))
}

/// Initializes an instance: there is nothing to do. Arguments are refused
/// where the class of the instance has no `__new__` to take them.
pub fn object__init__(arena: &PyArena, pyself: &PyObject, pyargs: &[PyObject]) -> (r: EmptyFuncReturnType)
    requires
        arena.wf(),
    ensures
        answers(Some(object_init(arena.world(), pyself@, views(pyargs@), arena@)), r),
{
    let defines_new = match pyself.find_class(arena) {
        Some(pyclass) => pyclass.defines_attribute(PyMagicMethod::New),
        None => false,
    };
    if !defines_new && pyargs.len() > 0 {
        return Err(
            raise_type_error(
                arena,
                String::from_str(
                    "object.__init__() takes exactly one argument (the instance to initialize)",
                ),
            ),
        );
    }
    Ok(())
}

/// The text that shows an object that has no text of its own: the name of
/// its type and, for an object of the heap, its place there.
pub fn object__repr__(arena: &PyArena, pyself: &PyObject) -> (r: FuncReturnType)
    requires
        arena.wf(),
    ensures
        r matches Ok(text) && text@ == PyObjectView::Str(object_repr(arena.world(), arena@.heap, pyself@)),
{
    let name = pyself.class_name(arena);
    let text = match pyself {
        PyObject::Mutable(pointer) => {
            let place = usize_to_string(pointer.slot);
            join5("<", name.as_str(), " object at ", place.as_str(), ">")
        },
        _ => join3("<", name.as_str(), " object>"),
    };
    Ok(PyObject::new_string(text))
}

/// The text of an object: what its `__repr__` yields.
pub fn object__str__<H: FloatHost>(arena: &mut PyArena, host: &H, pyself: &PyObject, fuel: usize) -> (r:
    FuncReturnType)
    requires
        old(arena).wf(),
    ensures
        carried_out(
            old(arena),
            final(arena),
            object_str(old(arena).world_of(host), pyself@, old(arena)@, fuel as nat),
            r,
        ),
    decreases fuel, 4int, 0int,
{
    let str_func = match pyself.get_magic_method(&PyMagicMethod::Repr, arena) {
        Some(func) => func,
        None => {
            return Err(raise_missing_method(arena, pyself, PyMagicMethod::Repr));
        },
    };
    if fuel == 0 {
        return Err(raise_too_deep(arena));
    }
    let args = [pyself.clone()];
    assert(views(args@) =~= seq![pyself@]);
    call_function(&str_func, &args, arena, host, fuel - 1)
}

} // verus!
