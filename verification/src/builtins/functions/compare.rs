//! The comparisons.

use vstd::prelude::*;
use vstd::string::StringExecFns;
use crate::builtins::function_utils::call_function_1_arg_min;
use crate::builtins::functions::math_op::{has_declined, raise_unsupported};
use crate::builtins::outcome::{carried_out, views};
use crate::builtins::semantics::{binary_op, compare, reflected_call, same_identity};
use crate::builtins::structure::magic_methods::{flip_to_right_hand_op, PyMagicMethod};
use crate::builtins::structure::pyobject::{
    FuncReturnType,
    PyImmutableObject,
    PyInternalObject,
    PyObject,
    PyObjectView,
};
use crate::builtins::types::pyfloat::FloatHost;
use crate::parser::Comparator;
use crate::pyarena::PyArena;
use crate::text::str_eq;

verus! {

/// Compares `left` and `right`. Equality and the orderings go by the
/// operator protocol; `is` and `is not` compare identity and ask neither
/// class.
pub fn compare_op<H: FloatHost>(
    left: &PyObject,
    right: &PyObject,
    comp: &Comparator,
    arena: &mut PyArena,
    host: &H,
    fuel: usize,
) -> (r: FuncReturnType)
    requires
        old(arena).wf(),
    ensures
        carried_out(
            old(arena),
            final(arena),
            compare(old(arena).world_of(host), *comp, left@, right@, old(arena)@, fuel as nat),
            r,
        ),
{
    match comp {
        Comparator::Equal => left_hand_compare_op(&PyMagicMethod::Eq, left, right, arena, host, fuel),
        Comparator::NotEqual => left_hand_compare_op(&PyMagicMethod::Ne, left, right, arena, host, fuel),
        Comparator::LessThan => left_hand_compare_op(&PyMagicMethod::Lt, left, right, arena, host, fuel),
        Comparator::LessThanOrEqual => left_hand_compare_op(&PyMagicMethod::Le, left, right, arena, host, fuel),
        Comparator::GreaterThan => left_hand_compare_op(&PyMagicMethod::Gt, left, right, arena, host, fuel),
        Comparator::GreaterThanOrEqual => left_hand_compare_op(
            &PyMagicMethod::Ge,
            left,
            right,
            arena,
            host,
            fuel,
        ),
        Comparator::Is => Ok(is_compare(false, left, right, arena)),
        Comparator::IsNot => Ok(is_compare(true, left, right, arena)),
        _ => Err(
            arena.exceptions.not_implemented_error.instantiate(
                String::from_str("membership tests are not supported"),
            ),
        ),
    }
}

/// Whether `left` and `right` are the same object.
pub fn is_same_object(left: &PyObject, right: &PyObject) -> (r: bool)
    ensures
        r == same_identity(left@, right@),
{
    match (left, right) {
        (PyObject::Mutable(a), PyObject::Mutable(b)) => a.slot == b.slot,
        (PyObject::Immutable(a), PyObject::Immutable(b)) => match (a, b) {
            (PyImmutableObject::NoneValue, PyImmutableObject::NoneValue) => true,
            (PyImmutableObject::Int(x), PyImmutableObject::Int(y)) => *x == *y,
            (PyImmutableObject::Float(x), PyImmutableObject::Float(y)) => *x == *y,
            (PyImmutableObject::Bool(x), PyImmutableObject::Bool(y)) => *x == *y,
            (PyImmutableObject::Str(x), PyImmutableObject::Str(y)) => str_eq(x.as_str(), y.as_str()),
            _ => false,
        },
        (PyObject::Internal(a), PyObject::Internal(b)) => match (a, b) {
            (PyInternalObject::InternalFunction(f), PyInternalObject::InternalFunction(g)) => *f == *g,
            (PyInternalObject::InternalClass(c), PyInternalObject::InternalClass(d)) => str_eq(
                c.get_name().as_str(),
                d.get_name().as_str(),
            ),
            _ => false,
        },
        (PyObject::IteratorFlag(a), PyObject::IteratorFlag(b)) => *a == *b,
        _ => false,
    }
}

/// `left is right`, or `left is not right` where `not` is set.
pub fn is_compare(not: bool, left: &PyObject, right: &PyObject, arena: &PyArena) -> (r: PyObject)
    requires
        arena.wf(),
    ensures
        r@ == PyObjectView::Bool(same_identity(left@, right@) != not),
{
    arena.statics.get_bool(is_same_object(left, right) != not).clone()
}

/// The first half of a comparison: the method of `left` is called; where
/// it is missing or declines, the mirrored method of `right` is.
pub fn left_hand_compare_op<H: FloatHost>(
    op: &PyMagicMethod,
    left: &PyObject,
    right: &PyObject,
    arena: &mut PyArena,
    host: &H,
    fuel: usize,
) -> (r: FuncReturnType)
    requires
        old(arena).wf(),
        op.is_comparison(),
    ensures
        carried_out(
            old(arena),
            final(arena),
            binary_op(old(arena).world_of(host), *op, left@, right@, old(arena)@, fuel as nat),
            r,
        ),
{
    if let Some(left_compare_func) = left.get_magic_method(op, arena) {
        let args = [right.clone()];
        assert(views(args@) =~= seq![right@]);
        let left_compare = call_function_1_arg_min(&left_compare_func, left, &args, arena, host, fuel);
        return match left_compare {
            Ok(result) => Ok(result),
            Err(err) => {
                if has_declined(arena, &err) {
                    return right_hand_compare_op(op, left, right, arena, host, fuel);
                }
                Err(err)
            },
        };
    }
    right_hand_compare_op(op, left, right, arena, host, fuel)
}

/// The second half of a comparison: the mirrored method of `right` is
/// called with the operands swapped.
pub fn right_hand_compare_op<H: FloatHost>(
    op: &PyMagicMethod,
    left: &PyObject,
    right: &PyObject,
    arena: &mut PyArena,
    host: &H,
    fuel: usize,
) -> (r: FuncReturnType)
    requires
        old(arena).wf(),
        op.is_comparison(),
    ensures
        carried_out(
            old(arena),
            final(arena),
            reflected_call(old(arena).world_of(host), *op, left@, right@, old(arena)@, fuel as nat),
            r,
        ),
{
    let right_op = flip_to_right_hand_op(op);
    if let Some(right_compare_func) = right.get_magic_method(&right_op, arena) {
        let args = [left.clone()];
        assert(views(args@) =~= seq![left@]);
        let right_compare = call_function_1_arg_min(&right_compare_func, right, &args, arena, host, fuel);
        return match right_compare {
            Ok(result) => Ok(result),
            Err(err) => {
                if has_declined(arena, &err) {
                    return Err(raise_unsupported(arena, op, left, right));
                }
                Err(err)
            },
        };
    }
    Err(raise_unsupported(arena, op, left, right))
}

} // verus!
