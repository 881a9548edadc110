//! `bool`: truth values, a kind of `int`.

use std::rc::Rc;
use vstd::prelude::*;
use vstd::string::StringExecFns;
use crate::builtins::function_utils::{call_function_1_arg_min, raise_too_deep, raise_type_error};
use crate::builtins::outcome::{answers, carried_out, join3, views};
use crate::builtins::semantics::{
    bad_argument,
    bad_conversion,
    bool_bool,
    bool_int,
    bool_new,
    bool_repr,
    converted,
    not_a_bool,
    truthy,
};
use crate::builtins::structure::magic_methods::PyMagicMethod;
use crate::builtins::structure::pyexception::PyException;
use crate::builtins::structure::pyobject::{FuncReturnType, PyImmutableObject, PyObject, PyObjectView};
use crate::builtins::types::pyfloat::{float_is_zero, FloatHost};
use crate::pyarena::PyArena;
use crate::builtins::structure::magic_methods::{empty_methods, py_magic_methods_defaults, PyMagicMethods};
use crate::builtins::structure::native::{NewFuncType, PyInternalFunction, UnaryFuncType};
use crate::builtins::structure::pyclass::PyClass;

verus! {

/// The magic methods that `bool` declares.
pub open spec fn bool_methods() -> PyMagicMethods {
    PyMagicMethods {
        __new__: Some(PyInternalFunction::NewFunc(NewFuncType::Bool)),
        __repr__: Some(PyInternalFunction::UnaryFunc(UnaryFuncType::BoolRepr)),
        __bool__: Some(PyInternalFunction::UnaryFunc(UnaryFuncType::BoolBool)),
        __int__: Some(PyInternalFunction::UnaryFunc(UnaryFuncType::BoolInt)),
        ..empty_methods()
    }
}

/// The class `bool`.
pub fn get_bool_class(int_class: Rc<PyClass>) -> (r: PyClass)
    requires
        int_class.is_native(),
    ensures
        r.is_internal_class("bool"@, seq![int_class], bool_methods()),
        r.is_native(),
{
    let supers = vec![int_class];
    assert(supers@ =~= seq![int_class]);
    PyClass::new_internal(
        "bool",
        supers,
        PyMagicMethods {
            __new__: Some(PyInternalFunction::NewFunc(NewFuncType::Bool)),
            __repr__: Some(PyInternalFunction::UnaryFunc(UnaryFuncType::BoolRepr)),
            __bool__: Some(PyInternalFunction::UnaryFunc(UnaryFuncType::BoolBool)),
            __int__: Some(PyInternalFunction::UnaryFunc(UnaryFuncType::BoolInt)),
            ..py_magic_methods_defaults()
        },
    )
}


/// The boolean that the value is.
pub fn expect_bool(pyobj: &PyObject, arena: &PyArena) -> (r: Result<bool, PyException>)
    requires
        arena.wf(),
    ensures
        match pyobj@ {
            PyObjectView::Bool(value) => r == Ok::<bool, PyException>(value),
            _ => r matches Err(e) && e@ == not_a_bool(arena.world(), arena@.heap, pyobj@),
        },
{
    match pyobj {
        PyObject::Immutable(PyImmutableObject::Bool(value)) => Ok(*value),
        _ => {
            let name = pyobj.class_name(arena);
            Err(
                raise_type_error(
                    arena,
                    join3("'", name.as_str(), "' object cannot be interpreted as a boolean"),
                ),
            )
        },
    }
}

/// The `TypeError` for an argument that a conversion cannot take.
pub fn raise_bad_argument(arena: &PyArena, what: &str, value: &PyObject) -> (e: PyException)
    requires
        arena.wf(),
    ensures
        e@ == bad_argument(arena.world(), arena@.heap, what@, value@),
{
    let name = value.class_name(arena);
    raise_type_error(arena, join3(what, name.as_str(), "'"))
}

/// The `TypeError` for a conversion method that returned a value of
/// another type.
pub fn raise_bad_conversion(arena: &PyArena, value: &PyObject, what: &str) -> (e: PyException)
    requires
        arena.wf(),
    ensures
        e@ == bad_conversion(arena.world(), arena@.heap, value@, what@),
{
    let name = value.class_name(arena);
    let mut message = name;
    message.append(what);
    raise_type_error(arena, message)
}

/// Calls the conversion method `func` of `value`.
pub fn call_conversion<H: FloatHost>(
    m: PyMagicMethod,
    func: &PyObject,
    value: &PyObject,
    arena: &mut PyArena,
    host: &H,
    fuel: usize,
) -> (r: FuncReturnType)
    requires
        old(arena).wf(),
    ensures
        carried_out(
            old(arena),
            final(arena),
            converted(old(arena).world_of(host), m, func@, value@, old(arena)@, fuel as nat),
            r,
        ),
    decreases fuel, 1int, 0int,
{
    if fuel == 0 {
        return Err(raise_too_deep(arena));
    }
    let no_args: [PyObject; 0] = [];
    assert(views(no_args@) =~= Seq::empty());
    call_function_1_arg_min(func, value, &no_args, arena, host, fuel - 1)
}

/// Whether an object that is no scalar counts as true: its `__bool__`
/// says so, and has to yield a boolean.
fn convert_mutable_to_bool<H: FloatHost>(pyobj: &PyObject, arena: &mut PyArena, host: &H, fuel: usize) -> (r: Result<
    bool,
    PyException,
>)
    requires
        old(arena).wf(),
        !(pyobj is Immutable),
    ensures
        carried_out(old(arena), final(arena), truthy(old(arena).world_of(host), pyobj@, old(arena)@, fuel as nat), r),
    decreases fuel, 2int, 0int,
{
    let bool_func = match pyobj.get_magic_method(&PyMagicMethod::Bool, arena) {
        Some(func) => func,
        None => {
            return Err(
                raise_bad_argument(
                    arena,
                    "bool() argument must be a string, a bytes-like object or a real number, not '",
                    pyobj,
                ),
            );
        },
    };
    let func_result = call_conversion(PyMagicMethod::Bool, &bool_func, pyobj, arena, host, fuel)?;
    match func_result {
        PyObject::Immutable(PyImmutableObject::Bool(value)) => Ok(value),
        _ => Err(
            raise_bad_conversion(
                arena,
                pyobj,
                ".__bool__ should return bool, returned (type {<other type>})",
            ),
        ),
    }
}

/// Whether a scalar counts as true: zero, the empty text and `None` do
/// not.
fn convert_immutable_to_bool(immutable_obj: &PyImmutableObject) -> (r: bool)
    ensures
        r == match *immutable_obj {
            PyImmutableObject::Bool(value) => value,
            PyImmutableObject::Int(value) => value != 0,
            PyImmutableObject::Float(bits) => !crate::builtins::types::pyfloat::is_zero_bits(bits),
            PyImmutableObject::Str(text) => text@.len() > 0,
            PyImmutableObject::NoneValue => false,
        },
{
    match immutable_obj {
        PyImmutableObject::Bool(value) => *value,
        PyImmutableObject::Int(value) => *value != 0,
        PyImmutableObject::Float(bits) => !float_is_zero(*bits),
        PyImmutableObject::Str(text) => text.as_str().unicode_len() > 0,
        PyImmutableObject::NoneValue => false,
    }
}

/// Whether the value counts as true.
pub fn convert_pyobj_to_bool<H: FloatHost>(pyobj: &PyObject, arena: &mut PyArena, host: &H, fuel: usize) -> (r: Result<
    bool,
    PyException,
>)
    requires
        old(arena).wf(),
    ensures
        carried_out(old(arena), final(arena), truthy(old(arena).world_of(host), pyobj@, old(arena)@, fuel as nat), r),
    decreases fuel, 2int, 1int,
{
    match pyobj {
        PyObject::Immutable(immutable) => Ok(convert_immutable_to_bool(immutable)),
        _ => convert_mutable_to_bool(pyobj, arena, host, fuel),
    }
}

/// `False` without an argument, else whether the first argument counts as
/// true.
pub fn bool__new__<H: FloatHost>(
    arena: &mut PyArena,
    host: &H,
    _pyclass: Rc<PyClass>,
    pyargs: &[PyObject],
    fuel: usize,
) -> (r: FuncReturnType)
    requires
        old(arena).wf(),
    ensures
        carried_out(
            old(arena),
            final(arena),
            bool_new(old(arena).world_of(host), views(pyargs@), old(arena)@, fuel as nat),
            r,
        ),
    decreases fuel, 3int, 0int,
{
    let value = if pyargs.len() > 0 {
        convert_pyobj_to_bool(&pyargs[0], arena, host, fuel)?
    } else {
        false
    };
    Ok(arena.statics.get_bool(value).clone())
}

/// The text `True` or `False`.
pub fn bool__repr__(arena: &PyArena, pyself: &PyObject) -> (r: FuncReturnType)
    requires
        arena.wf(),
    ensures
        answers(Some(bool_repr(arena.world(), arena@.heap, pyself@)), r),
{
    let value = expect_bool(pyself, arena)?;
    Ok(PyObject::new_string(if value { String::from_str("True") } else { String::from_str("False") }))
}

/// The boolean itself.
pub fn bool__bool__(arena: &PyArena, pyself: &PyObject) -> (r: FuncReturnType)
    requires
        arena.wf(),
    ensures
        answers(Some(bool_bool(arena.world(), arena@.heap, pyself@)), r),
{
    let value = expect_bool(pyself, arena)?;
    Ok(arena.statics.get_bool(value).clone())
}

/// One for `True`, zero for `False`.
pub fn bool__int__(arena: &PyArena, pyself: &PyObject) -> (r: FuncReturnType)
    requires
        arena.wf(),
    ensures
        answers(Some(bool_int(arena.world(), arena@.heap, pyself@)), r),
{
    let value = expect_bool(pyself, arena)?;
    Ok(PyObject::new_int(if value { 1 } else { 0 }))
}

} // verus!
