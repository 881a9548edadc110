//! Identifiers of the native callables, grouped by call shape.
//!
//! A native callable is named by a value of one of these enums; the call
//! protocol maps the name to the function that implements it.

use vstd::prelude::*;

verus! {

/// Natives of the class-constructor shape `(class, args) -> value`.
#[derive(Clone, Copy, Debug, PartialEq, Eq, Structural)]
pub enum NewFuncType {
    Object,
    Int,
    Float,
    Bool,
    NoneType,
    Range,
    RangeIterator,
}

/// Natives of the instance-initializer shape `(instance, args) -> ()`.
#[derive(Clone, Copy, Debug, PartialEq, Eq, Structural)]
pub enum InitFuncType {
    Object,
}

/// Natives of the one-argument shape `(value) -> value`.
#[derive(Clone, Copy, Debug, PartialEq, Eq, Structural)]
pub enum UnaryFuncType {
    ObjectRepr,
    ObjectStr,
    IntRepr,
    FloatRepr,
    BoolRepr,
    BoolBool,
    BoolInt,
    NoneRepr,
    RangeRepr,
    RangeIter,
    RangeIteratorNext,
}

/// Natives of the two-argument shape `(value, value) -> value`.
#[derive(Clone, Copy, Debug, PartialEq, Eq, Structural)]
pub enum BivariateFuncType {
    IntAdd,
    IntSub,
    IntRsub,
    IntMul,
    IntTrueDiv,
    IntRtrueDiv,
    IntPow,
    IntRpow,
    IntEq,
    IntNe,
    IntLt,
    IntLe,
    IntGt,
    IntGe,
    FloatAdd,
    FloatSub,
    FloatRsub,
    FloatMul,
    FloatTrueDiv,
    FloatRtrueDiv,
    FloatPow,
    FloatRpow,
}

/// Natives of the variadic shape `(args[]) -> value`.
#[derive(Clone, Copy, Debug, PartialEq, Eq, Structural)]
pub enum ManyArgFuncType {
    Print,
}

/// A native callable together with its declared call shape.
#[derive(Clone, Copy, Debug, PartialEq, Eq, Structural)]
pub enum PyInternalFunction {
    NewFunc(NewFuncType),
    InitFunc(InitFuncType),
    UnaryFunc(UnaryFuncType),
    BivariateFunc(BivariateFuncType),
    ManyArgFunc(ManyArgFuncType),
}

} // verus!
