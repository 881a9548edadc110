//! `float`: floating-point numbers, held as the bits of IEEE 754 doubles.

use std::rc::Rc;
use vstd::prelude::*;
use crate::builtins::outcome::{carried_out, views};
use crate::builtins::semantics::float_new;
use crate::builtins::structure::magic_methods::PyMagicMethod;
use crate::builtins::types::pybool::{call_conversion, raise_bad_argument, raise_bad_conversion};
use crate::builtins::structure::magic_methods::{empty_methods, py_magic_methods_defaults, PyMagicMethods};
use crate::builtins::outcome::{answers, join3, Answer};
use crate::builtins::structure::native::{BivariateFuncType, NewFuncType, PyInternalFunction, UnaryFuncType};
use crate::builtins::structure::pyclass::PyClass;
use crate::builtins::structure::pyexception::{PyException, PyExceptionView};
use crate::builtins::structure::pyobject::{FuncReturnType, PyImmutableObject, PyObject, PyObjectView};
use crate::builtins::structure::pyobject::PyMutableObject;
use crate::pyarena::{PyArena, World};

verus! {

/// The magic methods that `float` declares.
pub open spec fn float_methods() -> PyMagicMethods {
    PyMagicMethods {
        __new__: Some(PyInternalFunction::NewFunc(NewFuncType::Float)),
        __repr__: Some(PyInternalFunction::UnaryFunc(UnaryFuncType::FloatRepr)),
        __add__: Some(PyInternalFunction::BivariateFunc(BivariateFuncType::FloatAdd)),
        __radd__: Some(PyInternalFunction::BivariateFunc(BivariateFuncType::FloatAdd)),
        __sub__: Some(PyInternalFunction::BivariateFunc(BivariateFuncType::FloatSub)),
        __rsub__: Some(PyInternalFunction::BivariateFunc(BivariateFuncType::FloatRsub)),
        __mul__: Some(PyInternalFunction::BivariateFunc(BivariateFuncType::FloatMul)),
        __rmul__: Some(PyInternalFunction::BivariateFunc(BivariateFuncType::FloatMul)),
        __truediv__: Some(PyInternalFunction::BivariateFunc(BivariateFuncType::FloatTrueDiv)),
        __rtruediv__: Some(PyInternalFunction::BivariateFunc(BivariateFuncType::FloatRtrueDiv)),
        __pow__: Some(PyInternalFunction::BivariateFunc(BivariateFuncType::FloatPow)),
        __rpow__: Some(PyInternalFunction::BivariateFunc(BivariateFuncType::FloatRpow)),
        ..empty_methods()
    }
}

/// The class `float`.
pub fn get_float_class(object_class: Rc<PyClass>) -> (r: PyClass)
    requires
        object_class.is_native(),
    ensures
        r.is_internal_class("float"@, seq![object_class], float_methods()),
        r.is_native(),
{
    let supers = vec![object_class];
    assert(supers@ =~= seq![object_class]);
    PyClass::new_internal(
        "float",
        supers,
        PyMagicMethods {
            __new__: Some(PyInternalFunction::NewFunc(NewFuncType::Float)),
            __repr__: Some(PyInternalFunction::UnaryFunc(UnaryFuncType::FloatRepr)),
            __add__: Some(PyInternalFunction::BivariateFunc(BivariateFuncType::FloatAdd)),
            __radd__: Some(PyInternalFunction::BivariateFunc(BivariateFuncType::FloatAdd)),
            __sub__: Some(PyInternalFunction::BivariateFunc(BivariateFuncType::FloatSub)),
            __rsub__: Some(PyInternalFunction::BivariateFunc(BivariateFuncType::FloatRsub)),
            __mul__: Some(PyInternalFunction::BivariateFunc(BivariateFuncType::FloatMul)),
            __rmul__: Some(PyInternalFunction::BivariateFunc(BivariateFuncType::FloatMul)),
            __truediv__: Some(PyInternalFunction::BivariateFunc(BivariateFuncType::FloatTrueDiv)),
            __rtruediv__: Some(PyInternalFunction::BivariateFunc(BivariateFuncType::FloatRtrueDiv)),
            __pow__: Some(PyInternalFunction::BivariateFunc(BivariateFuncType::FloatPow)),
            __rpow__: Some(PyInternalFunction::BivariateFunc(BivariateFuncType::FloatRpow)),
            ..py_magic_methods_defaults()
        },
    )
}

/// An arithmetic operation on floats.
#[derive(Clone, Copy, Debug, PartialEq, Eq, Structural)]
pub enum FloatOp {
    Add,
    Sub,
    Mul,
    Div,
    Pow,
}

/// A text, as contracts speak of it.
pub type Text = Seq<char>;

/// The floating-point unit that the host of the runtime supplies. Floats are
/// handed to it and taken from it as the bits of IEEE 754 doubles.
///
/// The unit names what each of its operations gives for given arguments, and
/// the operation has to give that: an implementation has to be a function of
/// its arguments. Nothing else is assumed of it. The runtime proves nothing
/// of an implementation; what it states of floats, it states over these
/// names. The naming functions are never run: an implementation outside
/// verified code gives them no body of substance.
pub trait FloatHost {
    /// What `arith` gives.
    spec fn arith_of(&self, op: FloatOp, left: u64, right: u64) -> u64;

    /// `left op right`.
    fn arith(&self, op: FloatOp, left: u64, right: u64) -> (r: u64)
        ensures
            r == self.arith_of(op, left, right),
    ;

    /// What `from_int` gives.
    spec fn from_int_of(&self, value: i64) -> u64;

    /// The float nearest to `value`.
    fn from_int(&self, value: i64) -> (r: u64)
        ensures
            r == self.from_int_of(value),
    ;

    /// What `to_int` gives.
    spec fn to_int_of(&self, bits: u64) -> i64;

    /// The float cut off towards zero, as an integer.
    fn to_int(&self, bits: u64) -> (r: i64)
        ensures
            r == self.to_int_of(bits),
    ;

    /// What `repr` gives.
    spec fn repr_of(&self, bits: u64) -> Text;

    /// The text that shows the float.
    fn repr(&self, bits: u64) -> (r: String)
        ensures
            r@ == self.repr_of(bits),
    ;

    /// What `parse` gives.
    spec fn parse_of(&self, text: Text) -> Option<u64>;

    /// The float that `text` denotes, if it denotes one.
    fn parse(&self, text: &str) -> (r: Option<u64>)
        ensures
            r == self.parse_of(text@),
    ;
}

/// What a floating-point unit computes, as the meaning of programs speaks
/// of it.
pub struct FloatModel {
    pub arith: spec_fn(FloatOp, u64, u64) -> u64,
    pub from_int: spec_fn(i64) -> u64,
    pub to_int: spec_fn(u64) -> i64,
    pub repr: spec_fn(u64) -> Seq<char>,
    pub parse: spec_fn(Seq<char>) -> Option<u64>,
}

/// What the unit `host` computes.
pub open spec fn model_of<H: FloatHost>(host: &H) -> FloatModel {
    FloatModel {
        arith: |op: FloatOp, left: u64, right: u64| host.arith_of(op, left, right),
        from_int: |value: i64| host.from_int_of(value),
        to_int: |bits: u64| host.to_int_of(bits),
        repr: |bits: u64| host.repr_of(bits),
        parse: |text: Seq<char>| host.parse_of(text),
    }
}

/// Whether the value is a float.
pub open spec fn is_float(value: PyObjectView) -> bool {
    value is Float
}

/// Whether the float with the bits `bits` is zero, positive or negative.
pub open spec fn is_zero_bits(bits: u64) -> bool {
    bits == 0 || bits == 0x8000_0000_0000_0000u64
}

/// Whether the float with the bits `bits` is zero, positive or negative.
pub fn float_is_zero(bits: u64) -> (r: bool)
    ensures
        r == is_zero_bits(bits),
{
    bits == 0 || bits == 0x8000_0000_0000_0000u64
}

/// The error for a value that is no float where one is needed.
pub open spec fn not_a_float(w: World, kind_name: Seq<char>) -> PyExceptionView {
    w.exceptions.type_error@.with_message("'"@ + kind_name + "' object cannot be interpreted as an float"@)
}

/// The bits of the float that the value is.
pub fn expect_float(pyobj: &PyObject, arena: &PyArena) -> (r: Result<u64, PyException>)
    requires
        arena.wf(),
    ensures
        match pyobj@ {
            PyObjectView::Float(bits) => r == Ok::<u64, PyException>(bits),
            _ => r matches Err(e) && e@ == not_a_float(arena.world(), pyobj@.kind_name(&arena.globals, arena@.heap)),
        },
{
    match pyobj {
        PyObject::Immutable(PyImmutableObject::Float(bits)) => Ok(*bits),
        _ => {
            let name = pyobj.class_name(arena);
            let message = join3("'", name.as_str(), "' object cannot be interpreted as an float");
            Err(arena.exceptions.type_error.instantiate(message))
        },
    }
}

/// Whether the value can stand where a float operand is needed: floats,
/// integers and booleans can.
pub open spec fn promotes_to_float(value: PyObjectView) -> bool {
    value is Float || value is Int || value is Bool
}

/// The float that an operand stands for: a float itself, an integer or a
/// boolean as the unit promotes it. No other value stands for one.
pub open spec fn promoted_float(floats: FloatModel, value: PyObjectView) -> Option<u64> {
    match value {
        PyObjectView::Float(bits) => Some(bits),
        PyObjectView::Int(v) => Some((floats.from_int)(v)),
        PyObjectView::Bool(b) => Some((floats.from_int)(if b { 1i64 } else { 0i64 })),
        _ => None,
    }
}

/// The bits of the float that the operand stands for: a float itself, an
/// integer or boolean promoted. Any other value declines with
/// `NotImplementedError`.
pub fn expect_float_promotion<H: FloatHost>(pyobj: &PyObject, arena: &PyArena, host: &H) -> (r: Result<
    u64,
    PyException,
>)
    requires
        arena.wf(),
    ensures
        match promoted_float(model_of(host), pyobj@) {
            Some(bits) => r == Ok::<u64, PyException>(bits),
            None => r matches Err(e) && e@ == arena.world_of(host).exceptions.not_implemented_error@,
        },
{
    match pyobj {
        PyObject::Immutable(PyImmutableObject::Float(bits)) => Ok(*bits),
        PyObject::Immutable(PyImmutableObject::Int(value)) => Ok(host.from_int(*value)),
        PyObject::Immutable(PyImmutableObject::Bool(value)) => Ok(
            host.from_int(if *value { 1 } else { 0 }),
        ),
        _ => Err(arena.exceptions.not_implemented_error.empty()),
    }
}

/// What the float operator `which` asks of the unit for `x`, the float
/// whose method is called, and `y`, the other operand: the reflected
/// operators hand the operands over swapped.
pub open spec fn float_result(floats: FloatModel, which: BivariateFuncType, x: u64, y: u64) -> u64 {
    match which {
        BivariateFuncType::FloatAdd => (floats.arith)(FloatOp::Add, x, y),
        BivariateFuncType::FloatSub => (floats.arith)(FloatOp::Sub, x, y),
        BivariateFuncType::FloatRsub => (floats.arith)(FloatOp::Sub, y, x),
        BivariateFuncType::FloatMul => (floats.arith)(FloatOp::Mul, x, y),
        BivariateFuncType::FloatTrueDiv => (floats.arith)(FloatOp::Div, x, y),
        BivariateFuncType::FloatRtrueDiv => (floats.arith)(FloatOp::Div, y, x),
        BivariateFuncType::FloatPow => (floats.arith)(FloatOp::Pow, x, y),
        BivariateFuncType::FloatRpow => (floats.arith)(FloatOp::Pow, y, x),
        _ => x,
    }
}

/// What the float operator `which` yields for the operands `left`, whose
/// method is called, and `right`: a `TypeError` where `left` is no float,
/// `NotImplementedError` where `right` does not stand for a float, and
/// else the float that the unit gives for the operator. Without a unit
/// there is no answer.
pub open spec fn float_binary(
    w: World,
    heap: Seq<PyMutableObject>,
    which: BivariateFuncType,
    left: PyObjectView,
    right: PyObjectView,
) -> Option<Answer> {
    if !is_float(left) {
        Some(Err(not_a_float(w, left.kind_name(&w.globals, heap))))
    } else if !promotes_to_float(right) {
        Some(Err(w.exceptions.not_implemented_error@))
    } else {
        match w.floats {
            Some(floats) => Some(
                Ok(
                    PyObjectView::Float(
                        float_result(floats, which, left->Float_0, promoted_float(floats, right).unwrap()),
                    ),
                ),
            ),
            None => None,
        }
    }
}

/// The operands of a float operator as floats.
pub fn parse_float_op_func_params<H: FloatHost>(pyself: &PyObject, other: &PyObject, arena: &PyArena, host: &H) -> (r:
    Result<(u64, u64), PyException>)
    requires
        arena.wf(),
    ensures
        if !is_float(pyself@) {
            r matches Err(e) && e@ == not_a_float(arena.world_of(host), pyself@.kind_name(&arena.globals, arena@.heap))
        } else if !promotes_to_float(other@) {
            r matches Err(e) && e@ == arena.world_of(host).exceptions.not_implemented_error@
        } else {
            r == Ok::<(u64, u64), PyException>(
                (pyself@->Float_0, promoted_float(model_of(host), other@).unwrap()),
            )
        },
{
    let self_value = expect_float(pyself, arena)?;
    let other_value = expect_float_promotion(other, arena, host)?;
    Ok((self_value, other_value))
}

/// The sum `self + other`.
pub fn float__add__<H: FloatHost>(arena: &PyArena, host: &H, pyself: &PyObject, other: &PyObject) -> (r:
    FuncReturnType)
    requires
        arena.wf(),
    ensures
        answers(
            float_binary(arena.world_of(host), arena@.heap, BivariateFuncType::FloatAdd, pyself@, other@),
            r,
        ),
{
    let (self_value, other_value) = parse_float_op_func_params(pyself, other, arena, host)?;
    Ok(PyObject::new_float(host.arith(FloatOp::Add, self_value, other_value)))
}

/// The difference `self - other`.
pub fn float__sub__<H: FloatHost>(arena: &PyArena, host: &H, pyself: &PyObject, other: &PyObject) -> (r:
    FuncReturnType)
    requires
        arena.wf(),
    ensures
        answers(
            float_binary(arena.world_of(host), arena@.heap, BivariateFuncType::FloatSub, pyself@, other@),
            r,
        ),
{
    let (self_value, other_value) = parse_float_op_func_params(pyself, other, arena, host)?;
    Ok(PyObject::new_float(host.arith(FloatOp::Sub, self_value, other_value)))
}

/// The reflected difference `other - self`.
pub fn float__rsub__<H: FloatHost>(arena: &PyArena, host: &H, pyself: &PyObject, other: &PyObject) -> (r:
    FuncReturnType)
    requires
        arena.wf(),
    ensures
        answers(
            float_binary(arena.world_of(host), arena@.heap, BivariateFuncType::FloatRsub, pyself@, other@),
            r,
        ),
{
    let (self_value, other_value) = parse_float_op_func_params(pyself, other, arena, host)?;
    Ok(PyObject::new_float(host.arith(FloatOp::Sub, other_value, self_value)))
}

/// The product `self * other`.
pub fn float__mul__<H: FloatHost>(arena: &PyArena, host: &H, pyself: &PyObject, other: &PyObject) -> (r:
    FuncReturnType)
    requires
        arena.wf(),
    ensures
        answers(
            float_binary(arena.world_of(host), arena@.heap, BivariateFuncType::FloatMul, pyself@, other@),
            r,
        ),
{
    let (self_value, other_value) = parse_float_op_func_params(pyself, other, arena, host)?;
    Ok(PyObject::new_float(host.arith(FloatOp::Mul, self_value, other_value)))
}

/// The quotient `self / other`.
pub fn float__truediv__<H: FloatHost>(arena: &PyArena, host: &H, pyself: &PyObject, other: &PyObject) -> (r:
    FuncReturnType)
    requires
        arena.wf(),
    ensures
        answers(
            float_binary(arena.world_of(host), arena@.heap, BivariateFuncType::FloatTrueDiv, pyself@, other@),
            r,
        ),
{
    let (self_value, other_value) = parse_float_op_func_params(pyself, other, arena, host)?;
    Ok(PyObject::new_float(host.arith(FloatOp::Div, self_value, other_value)))
}

/// The reflected quotient `other / self`.
pub fn float__rtruediv__<H: FloatHost>(arena: &PyArena, host: &H, pyself: &PyObject, other: &PyObject) -> (r:
    FuncReturnType)
    requires
        arena.wf(),
    ensures
        answers(
            float_binary(arena.world_of(host), arena@.heap, BivariateFuncType::FloatRtrueDiv, pyself@, other@),
            r,
        ),
{
    let (self_value, other_value) = parse_float_op_func_params(pyself, other, arena, host)?;
    Ok(PyObject::new_float(host.arith(FloatOp::Div, other_value, self_value)))
}

/// The power `self ** other`.
pub fn float__pow__<H: FloatHost>(arena: &PyArena, host: &H, pyself: &PyObject, other: &PyObject) -> (r:
    FuncReturnType)
    requires
        arena.wf(),
    ensures
        answers(
            float_binary(arena.world_of(host), arena@.heap, BivariateFuncType::FloatPow, pyself@, other@),
            r,
        ),
{
    let (self_value, other_value) = parse_float_op_func_params(pyself, other, arena, host)?;
    Ok(PyObject::new_float(host.arith(FloatOp::Pow, self_value, other_value)))
}

/// The reflected power `other ** self`.
pub fn float__rpow__<H: FloatHost>(arena: &PyArena, host: &H, pyself: &PyObject, other: &PyObject) -> (r:
    FuncReturnType)
    requires
        arena.wf(),
    ensures
        answers(
            float_binary(arena.world_of(host), arena@.heap, BivariateFuncType::FloatRpow, pyself@, other@),
            r,
        ),
{
    let (self_value, other_value) = parse_float_op_func_params(pyself, other, arena, host)?;
    Ok(PyObject::new_float(host.arith(FloatOp::Pow, other_value, self_value)))
}

/// What `float.__repr__` yields: the text that the unit gives for the
/// float. Without a unit there is no answer.
pub open spec fn float_repr(w: World, heap: Seq<PyMutableObject>, value: PyObjectView) -> Option<Answer> {
    match value {
        PyObjectView::Float(bits) => match w.floats {
            Some(floats) => Some(Ok(PyObjectView::Str((floats.repr)(bits)))),
            None => None,
        },
        _ => Some(Err(not_a_float(w, value.kind_name(&w.globals, heap)))),
    }
}

/// The text that shows the float.
pub fn float__repr__<H: FloatHost>(arena: &PyArena, host: &H, pyself: &PyObject) -> (r: FuncReturnType)
    requires
        arena.wf(),
    ensures
        answers(float_repr(arena.world_of(host), arena@.heap, pyself@), r),
{
    let bits = expect_float(pyself, arena)?;
    Ok(PyObject::new_string(host.repr(bits)))
}

/// The float that an object makes of itself: its `__float__` says so, and
/// has to yield a float.
pub fn convert_mutable_to_float<H: FloatHost>(pyobj: &PyObject, arena: &mut PyArena, host: &H, fuel: usize) -> (r:
    FuncReturnType)
    requires
        old(arena).wf(),
        pyobj is Mutable,
    ensures
        carried_out(
            old(arena),
            final(arena),
            float_new(old(arena).world_of(host), seq![pyobj@], old(arena)@, fuel as nat),
            r,
        ),
    decreases fuel, 2int, 0int,
{
    let float_func = match pyobj.get_magic_method(&PyMagicMethod::Float, arena) {
        Some(func) => func,
        None => {
            return Err(
                raise_bad_argument(arena, "float() argument must be a string or a real number, not '", pyobj),
            );
        },
    };
    let func_result = call_conversion(PyMagicMethod::Float, &float_func, pyobj, arena, host, fuel)?;
    match func_result {
        PyObject::Immutable(PyImmutableObject::Float(bits)) => Ok(PyObject::new_float(bits)),
        _ => Err(
            raise_bad_conversion(arena, pyobj, ".__float__ returned non-float (type {<other type>})"),
        ),
    }
}

/// The float that a scalar stands for: a float as it is, an integer or a
/// boolean promoted by the host, a text read by the host. A text that the
/// host cannot read raises a `ValueError`.
pub fn convert_immutable_to_float<H: FloatHost>(pyobj: &PyObject, arena: &PyArena, host: &H) -> (r:
    FuncReturnType)
    requires
        arena.wf(),
        pyobj is Immutable,
    ensures
        answers(
            match float_new(arena.world_of(host), seq![pyobj@], arena@, 0) {
                Some(outcome) => Some(outcome.result),
                None => None,
            },
            r,
        ),
{
    match pyobj {
        PyObject::Immutable(PyImmutableObject::Int(value)) => Ok(PyObject::new_float(host.from_int(*value))),
        PyObject::Immutable(PyImmutableObject::Float(bits)) => Ok(PyObject::new_float(*bits)),
        PyObject::Immutable(PyImmutableObject::Bool(value)) => Ok(
            PyObject::new_float(host.from_int(if *value { 1 } else { 0 })),
        ),
        PyObject::Immutable(PyImmutableObject::Str(text)) => match host.parse(text.as_str()) {
            Some(bits) => Ok(PyObject::new_float(bits)),
            None => Err(
                arena.exceptions.value_error.instantiate(
                    join3("could not convert string to float: '", text.as_str(), "'"),
                ),
            ),
        },
        _ => Err(raise_bad_argument(arena, "float() argument must be a string or a real number, not '", pyobj)),
    }
}

/// Zero without an argument, else the first argument as a float.
pub fn float__new__<H: FloatHost>(
    arena: &mut PyArena,
    host: &H,
    _pyclass: Rc<PyClass>,
    pyargs: &[PyObject],
    fuel: usize,
) -> (r: FuncReturnType)
    requires
        old(arena).wf(),
    ensures
        carried_out(
            old(arena),
            final(arena),
            float_new(old(arena).world_of(host), views(pyargs@), old(arena)@, fuel as nat),
            r,
        ),
    decreases fuel, 3int, 0int,
{
    if pyargs.len() == 0 {
        return Ok(PyObject::new_float(0));
    }
    let value = &pyargs[0];
    match value {
        PyObject::Immutable(_) => convert_immutable_to_float(value, arena, host),
        PyObject::Mutable(_) => convert_mutable_to_float(value, arena, host, fuel),
        _ => Err(raise_bad_argument(arena, "float() argument must be a string or a real number, not '", value)),
    }
}

} // verus!
