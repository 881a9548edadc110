//! `int`: whole numbers.

use std::rc::Rc;
use vstd::prelude::*;
use crate::builtins::function_utils::raise_type_error;
use crate::builtins::outcome::{carried_out, views};
use crate::builtins::semantics::{int_new, to_int};
use crate::builtins::structure::magic_methods::PyMagicMethod;
use crate::builtins::types::pybool::{call_conversion, raise_bad_argument, raise_bad_conversion};
use crate::text::parse_int;
use crate::builtins::structure::magic_methods::{empty_methods, py_magic_methods_defaults, PyMagicMethods};
use vstd::arithmetic::power::{lemma_pow0, pow};
use vstd::string::StringExecFns;
use crate::builtins::outcome::{answers, join3, Answer};
use crate::builtins::structure::native::{BivariateFuncType, NewFuncType, PyInternalFunction, UnaryFuncType};
use crate::builtins::structure::pyclass::PyClass;
use crate::builtins::structure::pyexception::{PyException, PyExceptionView};
use crate::builtins::structure::pyobject::{FuncReturnType, PyImmutableObject, PyMutableObject, PyObject, PyObjectView};
use crate::builtins::types::pyfloat::{FloatHost, FloatOp};
use crate::pyarena::{PyArena, World};
use crate::text::{decimal, int_to_string};

verus! {

/// The magic methods that `int` declares.
pub open spec fn int_methods() -> PyMagicMethods {
    PyMagicMethods {
        __new__: Some(PyInternalFunction::NewFunc(NewFuncType::Int)),
        __repr__: Some(PyInternalFunction::UnaryFunc(UnaryFuncType::IntRepr)),
        __add__: Some(PyInternalFunction::BivariateFunc(BivariateFuncType::IntAdd)),
        __radd__: Some(PyInternalFunction::BivariateFunc(BivariateFuncType::IntAdd)),
        __sub__: Some(PyInternalFunction::BivariateFunc(BivariateFuncType::IntSub)),
        __rsub__: Some(PyInternalFunction::BivariateFunc(BivariateFuncType::IntRsub)),
        __mul__: Some(PyInternalFunction::BivariateFunc(BivariateFuncType::IntMul)),
        __rmul__: Some(PyInternalFunction::BivariateFunc(BivariateFuncType::IntMul)),
        __truediv__: Some(PyInternalFunction::BivariateFunc(BivariateFuncType::IntTrueDiv)),
        __rtruediv__: Some(PyInternalFunction::BivariateFunc(BivariateFuncType::IntRtrueDiv)),
        __pow__: Some(PyInternalFunction::BivariateFunc(BivariateFuncType::IntPow)),
        __rpow__: Some(PyInternalFunction::BivariateFunc(BivariateFuncType::IntRpow)),
        __eq__: Some(PyInternalFunction::BivariateFunc(BivariateFuncType::IntEq)),
        __ne__: Some(PyInternalFunction::BivariateFunc(BivariateFuncType::IntNe)),
        __lt__: Some(PyInternalFunction::BivariateFunc(BivariateFuncType::IntLt)),
        __le__: Some(PyInternalFunction::BivariateFunc(BivariateFuncType::IntLe)),
        __gt__: Some(PyInternalFunction::BivariateFunc(BivariateFuncType::IntGt)),
        __ge__: Some(PyInternalFunction::BivariateFunc(BivariateFuncType::IntGe)),
        ..empty_methods()
    }
}

/// The class `int`.
pub fn get_int_class(object_class: Rc<PyClass>) -> (r: PyClass)
    requires
        object_class.is_native(),
    ensures
        r.is_internal_class("int"@, seq![object_class], int_methods()),
        r.is_native(),
{
    let supers = vec![object_class];
    assert(supers@ =~= seq![object_class]);
    PyClass::new_internal(
        "int",
        supers,
        PyMagicMethods {
            __new__: Some(PyInternalFunction::NewFunc(NewFuncType::Int)),
            __repr__: Some(PyInternalFunction::UnaryFunc(UnaryFuncType::IntRepr)),
            __add__: Some(PyInternalFunction::BivariateFunc(BivariateFuncType::IntAdd)),
            __radd__: Some(PyInternalFunction::BivariateFunc(BivariateFuncType::IntAdd)),
            __sub__: Some(PyInternalFunction::BivariateFunc(BivariateFuncType::IntSub)),
            __rsub__: Some(PyInternalFunction::BivariateFunc(BivariateFuncType::IntRsub)),
            __mul__: Some(PyInternalFunction::BivariateFunc(BivariateFuncType::IntMul)),
            __rmul__: Some(PyInternalFunction::BivariateFunc(BivariateFuncType::IntMul)),
            __truediv__: Some(PyInternalFunction::BivariateFunc(BivariateFuncType::IntTrueDiv)),
            __rtruediv__: Some(PyInternalFunction::BivariateFunc(BivariateFuncType::IntRtrueDiv)),
            __pow__: Some(PyInternalFunction::BivariateFunc(BivariateFuncType::IntPow)),
            __rpow__: Some(PyInternalFunction::BivariateFunc(BivariateFuncType::IntRpow)),
            __eq__: Some(PyInternalFunction::BivariateFunc(BivariateFuncType::IntEq)),
            __ne__: Some(PyInternalFunction::BivariateFunc(BivariateFuncType::IntNe)),
            __lt__: Some(PyInternalFunction::BivariateFunc(BivariateFuncType::IntLt)),
            __le__: Some(PyInternalFunction::BivariateFunc(BivariateFuncType::IntLe)),
            __gt__: Some(PyInternalFunction::BivariateFunc(BivariateFuncType::IntGt)),
            __ge__: Some(PyInternalFunction::BivariateFunc(BivariateFuncType::IntGe)),
            ..py_magic_methods_defaults()
        },
    )
}

/// Whether `value` can be held as an integer of the runtime.
pub open spec fn fits(value: int) -> bool {
    i64::MIN <= value <= i64::MAX
}

/// The error for a value that is no integer where one is needed.
pub open spec fn not_an_int(w: World, kind_name: Seq<char>) -> PyExceptionView {
    w.exceptions.type_error@.with_message("'"@ + kind_name + "' object cannot be interpreted as an integer"@)
}

/// The error for an integer result that cannot be held.
pub open spec fn int_overflow(w: World) -> PyExceptionView {
    w.exceptions.overflow_error@.with_message("integer result out of range"@)
}

/// The integer that the value is.
pub fn expect_int(pyobj: &PyObject, arena: &PyArena) -> (r: Result<i64, PyException>)
    requires
        arena.wf(),
    ensures
        match pyobj@ {
            PyObjectView::Int(value) => r == Ok::<i64, PyException>(value),
            _ => r matches Err(e) && e@ == not_an_int(arena.world(), pyobj@.kind_name(&arena.globals, arena@.heap)),
        },
{
    match pyobj {
        PyObject::Immutable(PyImmutableObject::Int(value)) => Ok(*value),
        _ => {
            let name = pyobj.class_name(arena);
            let message = join3("'", name.as_str(), "' object cannot be interpreted as an integer");
            Err(arena.exceptions.type_error.instantiate(message))
        },
    }
}

/// The integer that an operand stands for: an integer itself, a boolean as
/// 1 or 0. No other value stands for one.
pub open spec fn promoted_int(value: PyObjectView) -> Option<i64> {
    match value {
        PyObjectView::Int(v) => Some(v),
        PyObjectView::Bool(b) => Some(if b { 1i64 } else { 0i64 }),
        _ => None,
    }
}

/// The integer that the operand stands for. A value that stands for none
/// declines with `NotImplementedError`.
pub fn expect_int_promotion(pyobj: &PyObject, arena: &PyArena) -> (r: Result<i64, PyException>)
    requires
        arena.wf(),
    ensures
        match promoted_int(pyobj@) {
            Some(value) => r == Ok::<i64, PyException>(value),
            None => r matches Err(e) && e@ == arena.world().exceptions.not_implemented_error@,
        },
{
    match pyobj {
        PyObject::Immutable(PyImmutableObject::Int(value)) => Ok(*value),
        PyObject::Immutable(PyImmutableObject::Bool(value)) => Ok(if *value { 1 } else { 0 }),
        _ => Err(arena.exceptions.not_implemented_error.empty()),
    }
}

/// The operands of an integer operator as integers.
pub fn parse_int_op_func_params(pyself: &PyObject, other: &PyObject, arena: &PyArena) -> (r: Result<
    (i64, i64),
    PyException,
>)
    requires
        arena.wf(),
    ensures
        match (promoted_int(pyself@), promoted_int(other@)) {
            (Some(a), Some(b)) => r == Ok::<(i64, i64), PyException>((a, b)),
            _ => r matches Err(e) && e@ == arena.world().exceptions.not_implemented_error@,
        },
{
    let self_value = expect_int_promotion(pyself, arena)?;
    let other_value = expect_int_promotion(other, arena)?;
    Ok((self_value, other_value))
}

/// The integer `value` where it can be held, else the overflow error.
pub open spec fn int_or_overflow(w: World, value: int) -> Answer {
    if fits(value) {
        Ok(PyObjectView::Int(value as i64))
    } else {
        Err(int_overflow(w))
    }
}

/// The float that the unit gives for `left op right`, both promoted from
/// integers. Without a unit there is no answer.
pub open spec fn int_as_float(w: World, op: FloatOp, left: i64, right: i64) -> Option<Answer> {
    match w.floats {
        Some(floats) => Some(
            Ok(PyObjectView::Float((floats.arith)(op, (floats.from_int)(left), (floats.from_int)(right)))),
        ),
        None => None,
    }
}

/// What an integer operator yields for the integers `a` and `b`, the first
/// being the operand whose method is called. A division, and a power with
/// a negative exponent, yield the float that the unit gives for the two
/// integers promoted; the reflected operators hand them over swapped.
pub open spec fn int_result(w: World, op: BivariateFuncType, a: i64, b: i64) -> Option<Answer> {
    match op {
        BivariateFuncType::IntAdd => Some(int_or_overflow(w, a + b)),
        BivariateFuncType::IntSub => Some(int_or_overflow(w, a - b)),
        BivariateFuncType::IntRsub => Some(int_or_overflow(w, b - a)),
        BivariateFuncType::IntMul => Some(int_or_overflow(w, a * b)),
        BivariateFuncType::IntTrueDiv => int_as_float(w, FloatOp::Div, a, b),
        BivariateFuncType::IntRtrueDiv => int_as_float(w, FloatOp::Div, b, a),
        BivariateFuncType::IntPow => if b < 0 {
            int_as_float(w, FloatOp::Pow, a, b)
        } else {
            Some(int_or_overflow(w, pow(a as int, b as nat)))
        },
        BivariateFuncType::IntRpow => if a < 0 {
            int_as_float(w, FloatOp::Pow, b, a)
        } else {
            Some(int_or_overflow(w, pow(b as int, a as nat)))
        },
        BivariateFuncType::IntEq => Some(Ok(PyObjectView::Bool(a == b))),
        BivariateFuncType::IntNe => Some(Ok(PyObjectView::Bool(a != b))),
        BivariateFuncType::IntLt => Some(Ok(PyObjectView::Bool(a < b))),
        BivariateFuncType::IntLe => Some(Ok(PyObjectView::Bool(a <= b))),
        BivariateFuncType::IntGt => Some(Ok(PyObjectView::Bool(a > b))),
        BivariateFuncType::IntGe => Some(Ok(PyObjectView::Bool(a >= b))),
        _ => None,
    }
}

/// What an integer operator yields for the operands `left` and `right`:
/// `NotImplementedError` where one of them does not stand for an integer.
pub open spec fn int_binary(w: World, op: BivariateFuncType, left: PyObjectView, right: PyObjectView) -> Option<
    Answer,
> {
    match (promoted_int(left), promoted_int(right)) {
        (Some(a), Some(b)) => int_result(w, op, a, b),
        _ => Some(Err(w.exceptions.not_implemented_error@)),
    }
}

fn overflow<T>(arena: &PyArena) -> (r: Result<T, PyException>)
    requires
        arena.wf(),
    ensures
        r matches Err(e) && e@ == int_overflow(arena.world()),
{
    Err(arena.exceptions.overflow_error.instantiate(String::from_str("integer result out of range")))
}

/// A power of minus one is one for an even exponent and minus one for an
/// odd one.
proof fn lemma_pow_minus_one(e: nat)
    ensures
        pow(-1, e) == (if e % 2 == 0 { 1int } else { -1int }),
    decreases e,
{
    reveal(pow);
    if e > 0 {
        lemma_pow_minus_one((e - 1) as nat);
    }
}

/// A power of zero is zero, but for the exponent zero; a power of one is
/// one.
proof fn lemma_pow_zero_one(e: nat)
    ensures
        pow(0, e) == (if e == 0 { 1int } else { 0int }),
        pow(1, e) == 1,
    decreases e,
{
    reveal(pow);
    if e > 0 {
        lemma_pow_zero_one((e - 1) as nat);
    }
}

/// The powers of a base of magnitude two or more grow in magnitude with the
/// exponent, and are never zero.
proof fn lemma_pow_grows(b: int, e1: nat, e2: nat)
    requires
        b >= 2 || b <= -2,
        e1 <= e2,
    ensures
        pow(b, e1) != 0,
        (if pow(b, e1) < 0 { -pow(b, e1) } else { pow(b, e1) }) <= (if pow(b, e2) < 0 {
            -pow(b, e2)
        } else {
            pow(b, e2)
        }),
        e1 < e2 ==> 2 * (if pow(b, e1) < 0 { -pow(b, e1) } else { pow(b, e1) }) <= (if pow(b, e2) < 0 {
            -pow(b, e2)
        } else {
            pow(b, e2)
        }),
    decreases e2,
{
    reveal(pow);
    if e1 == 0 && e2 == 0 {
    } else if e1 < e2 {
        lemma_pow_grows(b, e1, (e2 - 1) as nat);
        lemma_pow_grows(b, (e2 - 1) as nat, (e2 - 1) as nat);
        let x = pow(b, (e2 - 1) as nat);
        assert(pow(b, e2) == b * x);
        assert((if b * x < 0 { -(b * x) } else { b * x }) >= 2 * (if x < 0 { -x } else { x })) by (nonlinear_arith)
            requires
                b >= 2 || b <= -2,
                x != 0,
        ;
    } else {
        lemma_pow_grows(b, (e1 - 1) as nat, (e1 - 1) as nat);
        let x = pow(b, (e1 - 1) as nat);
        assert(pow(b, e1) == b * x);
        assert(b * x != 0) by (nonlinear_arith)
            requires
                b >= 2 || b <= -2,
                x != 0,
        ;
    }
}

/// `base` to the power of `exponent`, where it can be held.
fn checked_power(base: i64, exponent: i64) -> (r: Option<i64>)
    requires
        exponent >= 0,
    ensures
        r == (if fits(pow(base as int, exponent as nat)) {
            Some(pow(base as int, exponent as nat) as i64)
        } else {
            None
        }),
{
    proof {
        lemma_pow_zero_one(exponent as nat);
        lemma_pow_minus_one(exponent as nat);
    }
    if base == 0 {
        return Some(if exponent == 0 { 1 } else { 0 });
    }
    if base == 1 {
        return Some(1);
    }
    if base == -1 {
        return Some(if exponent % 2 == 0 { 1 } else { -1 });
    }
    let mut acc: i64 = 1;
    let mut i: i64 = 0;
    proof {
        lemma_pow0(base as int);
    }
    while i < exponent
        invariant
            0 <= i <= exponent,
            base >= 2 || base <= -2,
            acc == pow(base as int, i as nat),
        decreases exponent - i,
    {
        proof {
            reveal(pow);
            assert(pow(base as int, (i + 1) as nat) == base * pow(base as int, i as nat));
            assert(base * acc == acc * base) by (nonlinear_arith);
            assert(pow(base as int, (i + 1) as nat) == acc * base);
        }
        match acc.checked_mul(base) {
            Some(next) => {
                acc = next;
            },
            None => {
                proof {
                    lemma_pow_grows(base as int, (i + 1) as nat, exponent as nat);
                    assert(!fits(acc * base));
                }
                return None;
            },
        }
        i += 1;
    }
    Some(acc)
}

/// The sum of two integers.
pub fn int__add__(arena: &PyArena, pyself: &PyObject, other: &PyObject) -> (r: FuncReturnType)
    requires
        arena.wf(),
    ensures
        answers(int_binary(arena.world(), BivariateFuncType::IntAdd, pyself@, other@), r),
{
    let (self_value, other_value) = parse_int_op_func_params(pyself, other, arena)?;
    match self_value.checked_add(other_value) {
        Some(value) => Ok(PyObject::new_int(value)),
        None => overflow(arena),
    }
}

/// The difference of two integers.
pub fn int__sub__(arena: &PyArena, pyself: &PyObject, other: &PyObject) -> (r: FuncReturnType)
    requires
        arena.wf(),
    ensures
        answers(int_binary(arena.world(), BivariateFuncType::IntSub, pyself@, other@), r),
{
    let (self_value, other_value) = parse_int_op_func_params(pyself, other, arena)?;
    match self_value.checked_sub(other_value) {
        Some(value) => Ok(PyObject::new_int(value)),
        None => overflow(arena),
    }
}

/// The difference of two integers, the operands swapped.
pub fn int__rsub__(arena: &PyArena, pyself: &PyObject, other: &PyObject) -> (r: FuncReturnType)
    requires
        arena.wf(),
    ensures
        answers(int_binary(arena.world(), BivariateFuncType::IntRsub, pyself@, other@), r),
{
    let (self_value, other_value) = parse_int_op_func_params(pyself, other, arena)?;
    match other_value.checked_sub(self_value) {
        Some(value) => Ok(PyObject::new_int(value)),
        None => overflow(arena),
    }
}

/// The product of two integers.
pub fn int__mul__(arena: &PyArena, pyself: &PyObject, other: &PyObject) -> (r: FuncReturnType)
    requires
        arena.wf(),
    ensures
        answers(int_binary(arena.world(), BivariateFuncType::IntMul, pyself@, other@), r),
{
    let (self_value, other_value) = parse_int_op_func_params(pyself, other, arena)?;
    match self_value.checked_mul(other_value) {
        Some(value) => Ok(PyObject::new_int(value)),
        None => overflow(arena),
    }
}

/// Whether two integers are equal.
pub fn int__eq__(arena: &PyArena, pyself: &PyObject, other: &PyObject) -> (r: FuncReturnType)
    requires
        arena.wf(),
    ensures
        answers(int_binary(arena.world(), BivariateFuncType::IntEq, pyself@, other@), r),
{
    let (self_value, other_value) = parse_int_op_func_params(pyself, other, arena)?;
    Ok(arena.statics.get_bool(self_value == other_value).clone())
}

/// Whether two integers differ.
pub fn int__ne__(arena: &PyArena, pyself: &PyObject, other: &PyObject) -> (r: FuncReturnType)
    requires
        arena.wf(),
    ensures
        answers(int_binary(arena.world(), BivariateFuncType::IntNe, pyself@, other@), r),
{
    let (self_value, other_value) = parse_int_op_func_params(pyself, other, arena)?;
    Ok(arena.statics.get_bool(self_value != other_value).clone())
}

/// Whether the first integer is less than the second.
pub fn int__lt__(arena: &PyArena, pyself: &PyObject, other: &PyObject) -> (r: FuncReturnType)
    requires
        arena.wf(),
    ensures
        answers(int_binary(arena.world(), BivariateFuncType::IntLt, pyself@, other@), r),
{
    let (self_value, other_value) = parse_int_op_func_params(pyself, other, arena)?;
    Ok(arena.statics.get_bool(self_value < other_value).clone())
}

/// Whether the first integer is at most the second.
pub fn int__le__(arena: &PyArena, pyself: &PyObject, other: &PyObject) -> (r: FuncReturnType)
    requires
        arena.wf(),
    ensures
        answers(int_binary(arena.world(), BivariateFuncType::IntLe, pyself@, other@), r),
{
    let (self_value, other_value) = parse_int_op_func_params(pyself, other, arena)?;
    Ok(arena.statics.get_bool(self_value <= other_value).clone())
}

/// Whether the first integer is greater than the second.
pub fn int__gt__(arena: &PyArena, pyself: &PyObject, other: &PyObject) -> (r: FuncReturnType)
    requires
        arena.wf(),
    ensures
        answers(int_binary(arena.world(), BivariateFuncType::IntGt, pyself@, other@), r),
{
    let (self_value, other_value) = parse_int_op_func_params(pyself, other, arena)?;
    Ok(arena.statics.get_bool(self_value > other_value).clone())
}

/// Whether the first integer is at least the second.
pub fn int__ge__(arena: &PyArena, pyself: &PyObject, other: &PyObject) -> (r: FuncReturnType)
    requires
        arena.wf(),
    ensures
        answers(int_binary(arena.world(), BivariateFuncType::IntGe, pyself@, other@), r),
{
    let (self_value, other_value) = parse_int_op_func_params(pyself, other, arena)?;
    Ok(arena.statics.get_bool(self_value >= other_value).clone())
}

/// The quotient of two integers, always a float.
pub fn int__truediv__<H: FloatHost>(arena: &PyArena, host: &H, pyself: &PyObject, other: &PyObject) -> (r:
    FuncReturnType)
    requires
        arena.wf(),
    ensures
        answers(int_binary(arena.world_of(host), BivariateFuncType::IntTrueDiv, pyself@, other@), r),
{
    let (self_value, other_value) = parse_int_op_func_params(pyself, other, arena)?;
    Ok(PyObject::new_float(host.arith(FloatOp::Div, host.from_int(self_value), host.from_int(other_value))))
}

/// The quotient of two integers, the operands swapped, always a float.
pub fn int__rtruediv__<H: FloatHost>(arena: &PyArena, host: &H, pyself: &PyObject, other: &PyObject) -> (r:
    FuncReturnType)
    requires
        arena.wf(),
    ensures
        answers(int_binary(arena.world_of(host), BivariateFuncType::IntRtrueDiv, pyself@, other@), r),
{
    let (self_value, other_value) = parse_int_op_func_params(pyself, other, arena)?;
    Ok(PyObject::new_float(host.arith(FloatOp::Div, host.from_int(other_value), host.from_int(self_value))))
}

/// The power of two integers: an integer, or a float where the exponent is negative.
pub fn int__pow__<H: FloatHost>(arena: &PyArena, host: &H, pyself: &PyObject, other: &PyObject) -> (r:
    FuncReturnType)
    requires
        arena.wf(),
    ensures
        answers(int_binary(arena.world_of(host), BivariateFuncType::IntPow, pyself@, other@), r),
{
    let (self_value, other_value) = parse_int_op_func_params(pyself, other, arena)?;
    if other_value < 0 {
        return Ok(
            PyObject::new_float(host.arith(FloatOp::Pow, host.from_int(self_value), host.from_int(other_value))),
        );
    }
    match checked_power(self_value, other_value) {
        Some(value) => Ok(PyObject::new_int(value)),
        None => overflow(arena),
    }
}

/// The power of two integers, the operands swapped: an integer, or a float where the exponent is negative.
pub fn int__rpow__<H: FloatHost>(arena: &PyArena, host: &H, pyself: &PyObject, other: &PyObject) -> (r:
    FuncReturnType)
    requires
        arena.wf(),
    ensures
        answers(int_binary(arena.world_of(host), BivariateFuncType::IntRpow, pyself@, other@), r),
{
    let (self_value, other_value) = parse_int_op_func_params(pyself, other, arena)?;
    if self_value < 0 {
        return Ok(
            PyObject::new_float(host.arith(FloatOp::Pow, host.from_int(other_value), host.from_int(self_value))),
        );
    }
    match checked_power(other_value, self_value) {
        Some(value) => Ok(PyObject::new_int(value)),
        None => overflow(arena),
    }
}

/// What `int.__repr__` yields: the integer in decimal.
pub open spec fn int_repr(w: World, heap: Seq<PyMutableObject>, value: PyObjectView) -> Option<Answer> {
    match value {
        PyObjectView::Int(v) => Some(Ok(PyObjectView::Str(decimal(v as int)))),
        _ => Some(Err(not_an_int(w, value.kind_name(&w.globals, heap)))),
    }
}

/// The integer in decimal.
pub fn int__repr__(arena: &PyArena, pyself: &PyObject) -> (r: FuncReturnType)
    requires
        arena.wf(),
    ensures
        answers(int_repr(arena.world(), arena@.heap, pyself@), r),
{
    let value = expect_int(pyself, arena)?;
    Ok(PyObject::new_string(int_to_string(value)))
}


/// The integer that an object makes of itself: its `__int__` says so, and
/// has to yield an integer.
pub fn convert_mutable_to_int<H: FloatHost>(pyobj: &PyObject, arena: &mut PyArena, host: &H, fuel: usize) -> (r: Result<
    i64,
    PyException,
>)
    requires
        old(arena).wf(),
        pyobj is Mutable,
    ensures
        carried_out(old(arena), final(arena), to_int(old(arena).world_of(host), pyobj@, old(arena)@, fuel as nat), r),
    decreases fuel, 2int, 0int,
{
    let int_func = match pyobj.get_magic_method(&PyMagicMethod::Int, arena) {
        Some(func) => func,
        None => {
            return Err(
                raise_bad_argument(
                    arena,
                    "int() argument must be a string, a bytes-like object or a real number, not '",
                    pyobj,
                ),
            );
        },
    };
    let func_result = call_conversion(PyMagicMethod::Int, &int_func, pyobj, arena, host, fuel)?;
    match func_result {
        PyObject::Immutable(PyImmutableObject::Int(value)) => Ok(value),
        _ => Err(raise_bad_conversion(arena, pyobj, ".__int__ returned non-int (type {<other type>})")),
    }
}

/// The integer that a scalar stands for: a number as it is, a float cut
/// off, a text parsed.
pub fn convert_immutable_to_int<H: FloatHost>(pyobj: &PyObject, arena: &PyArena, host: &H) -> (r: Result<
    i64,
    PyException,
>)
    requires
        arena.wf(),
        pyobj is Immutable,
    ensures
        crate::builtins::outcome::answers(
            match to_int(arena.world_of(host), pyobj@, arena@, 0) {
                Some(outcome) => Some(outcome.result),
                None => None,
            },
            r,
        ),
{
    match pyobj {
        PyObject::Immutable(PyImmutableObject::Int(value)) => Ok(*value),
        PyObject::Immutable(PyImmutableObject::Bool(value)) => Ok(if *value { 1 } else { 0 }),
        PyObject::Immutable(PyImmutableObject::Float(bits)) => Ok(host.to_int(*bits)),
        PyObject::Immutable(PyImmutableObject::Str(text)) => match parse_int(text.as_str()) {
            Some(value) => Ok(value),
            None => Err(
                raise_type_error(
                    arena,
                    join3("invalid literal for int() with base 10: '", text.as_str(), "'"),
                ),
            ),
        },
        _ => Err(
            raise_bad_argument(
                arena,
                "int() argument must be a string, a bytes-like object or a real number, not '",
                pyobj,
            ),
        ),
    }
}

/// Zero without an argument, else the first argument as an integer.
pub fn int__new__<H: FloatHost>(
    arena: &mut PyArena,
    host: &H,
    _pyclass: Rc<PyClass>,
    pyargs: &[PyObject],
    fuel: usize,
) -> (r: FuncReturnType)
    requires
        old(arena).wf(),
    ensures
        carried_out(
            old(arena),
            final(arena),
            int_new(old(arena).world_of(host), views(pyargs@), old(arena)@, fuel as nat),
            r,
        ),
    decreases fuel, 3int, 0int,
{
    if pyargs.len() == 0 {
        return Ok(PyObject::new_int(0));
    }
    let value = &pyargs[0];
    let new_value = match value {
        PyObject::Immutable(_) => convert_immutable_to_int(value, arena, host)?,
        PyObject::Mutable(_) => convert_mutable_to_int(value, arena, host, fuel)?,
        _ => {
            return Err(
                raise_bad_argument(
                    arena,
                    "int() argument must be a string, a bytes-like object or a real number, not '",
                    value,
                ),
            );
        },
    };
    Ok(PyObject::new_int(new_value))
}

} // verus!
