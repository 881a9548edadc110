//! The arithmetic operators.

use vstd::prelude::*;
use crate::builtins::function_utils::{call_function_1_arg_min, raise_type_error};
use crate::builtins::outcome::{carried_out, join3, join5, views};
use crate::builtins::semantics::{binary_op, declined, reflected_call, unsupported};
use crate::builtins::structure::magic_methods::PyMagicMethod;
use crate::builtins::structure::pyexception::PyException;
use crate::builtins::structure::pyobject::{FuncReturnType, PyObject};
use crate::builtins::types::pyfloat::FloatHost;
use crate::pyarena::PyArena;

verus! {

/// The `TypeError` for an operator that neither operand takes.
pub fn raise_unsupported(arena: &PyArena, op: &PyMagicMethod, left: &PyObject, right: &PyObject) -> (e:
    PyException)
    requires
        arena.wf(),
    ensures
        e@ == unsupported(arena.world(), arena@.heap, *op, left@, right@),
{
    let left_name = left.class_name(arena);
    let right_name = right.class_name(arena);
    let is_comparison = match op {
        PyMagicMethod::Eq => true,
        PyMagicMethod::Ne => true,
        PyMagicMethod::Lt => true,
        PyMagicMethod::Le => true,
        PyMagicMethod::Gt => true,
        PyMagicMethod::Ge => true,
        _ => false,
    };
    let head = if is_comparison {
        join3("'", op.display_name(), "' not supported between instances of '")
    } else {
        join3("unsupported operand type(s) for ", op.display_name(), ": '")
    };
    let message = join5(head.as_str(), left_name.as_str(), "' and '", right_name.as_str(), "'");
    raise_type_error(arena, message)
}

/// Whether the error is the signal by which an operand declines an
/// operator.
pub fn has_declined(arena: &PyArena, error: &PyException) -> (r: bool)
    ensures
        r == declined(arena.world(), error@),
{
    error.is_same_type(&arena.exceptions.not_implemented_error)
}

/// Applies the arithmetic operator `py_magic_method` to `left` and
/// `right`. The method of the left operand is called first; where it is
/// missing or declines with `NotImplementedError`, the reflected method of
/// the right operand is called with the operands swapped. Where neither
/// takes the operator, a `TypeError` names the operator and both types.
pub fn math_op<H: FloatHost>(
    left: PyObject,
    right: PyObject,
    py_magic_method: PyMagicMethod,
    arena: &mut PyArena,
    host: &H,
    fuel: usize,
) -> (r: FuncReturnType)
    requires
        old(arena).wf(),
        py_magic_method.is_arithmetic(),
    ensures
        carried_out(
            old(arena),
            final(arena),
            binary_op(old(arena).world_of(host), py_magic_method, left@, right@, old(arena)@, fuel as nat),
            r,
        ),
{
    if let Some(left_math_func) = left.get_magic_method(&py_magic_method, arena) {
        let args = [right.clone()];
        assert(views(args@) =~= seq![right@]);
        let math_result = call_function_1_arg_min(&left_math_func, &left, &args, arena, host, fuel);
        return match math_result {
            Ok(result) => Ok(result),
            Err(err) => {
                if has_declined(arena, &err) {
                    return right_hand_math_op(left, right, py_magic_method, arena, host, fuel);
                }
                Err(err)
            },
        };
    }
    right_hand_math_op(left, right, py_magic_method, arena, host, fuel)
}

/// The second half of an arithmetic operator: the reflected method of
/// `right` is called with the operands swapped.
pub fn right_hand_math_op<H: FloatHost>(
    left: PyObject,
    right: PyObject,
    py_magic_method: PyMagicMethod,
    arena: &mut PyArena,
    host: &H,
    fuel: usize,
) -> (r: FuncReturnType)
    requires
        old(arena).wf(),
        py_magic_method.is_arithmetic(),
    ensures
        carried_out(
            old(arena),
            final(arena),
            reflected_call(old(arena).world_of(host), py_magic_method, left@, right@, old(arena)@, fuel as nat),
            r,
        ),
{
    let mut right_method = py_magic_method;
    right_method.make_right_handed();
    if let Some(right_math_func) = right.get_magic_method(&right_method, arena) {
        let args = [left.clone()];
        assert(views(args@) =~= seq![left@]);
        let math_result = call_function_1_arg_min(&right_math_func, &right, &args, arena, host, fuel);
        return match math_result {
            Ok(result) => Ok(result),
            Err(err) => {
                if has_declined(arena, &err) {
                    return Err(raise_unsupported(arena, &py_magic_method, &left, &right));
                }
                Err(err)
            },
        };
    }
    Err(raise_unsupported(arena, &py_magic_method, &left, &right))
}

} // verus!
