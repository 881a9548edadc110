//! The meaning of calls: what calling a value with arguments yields and how
//! it changes the state.
//!
//! Each function here says what the function of the runtime that it is named
//! after computes. `fuel` bounds how deep natives may call back into the call
//! protocol. What the floating-point unit computes is taken from the world.
//! An outcome of `None` says that a float was to be computed in a world
//! without a unit.

use std::rc::Rc;
use vstd::prelude::*;
use crate::builtins::outcome::{fails, lifted, yields, Answer, Outcome};
use crate::builtins::structure::magic_methods::PyMagicMethod;
use crate::builtins::structure::native::{
    BivariateFuncType,
    InitFuncType,
    NewFuncType,
    PyInternalFunction,
    UnaryFuncType,
};
use crate::builtins::structure::pyclass::{slot_value, PyClass};
use crate::builtins::structure::pyexception::PyExceptionView;
use crate::builtins::structure::pyinstance::{EmptyInternal, InstanceInternal, PyInstance};
use crate::builtins::structure::pyobject::{PyMutableObject, PyObjectView, PyPointer};
use crate::builtins::types::pyfloat::{float_binary, float_methods, float_repr, is_zero_bits, FloatOp};
use crate::builtins::types::pyint::{int_binary, int_methods, int_repr, not_an_int};
use crate::builtins::types::range::{RangeInstance, RangeIteratorInstance};
use crate::parser::Comparator;
use crate::pyarena::{State, World};
use crate::text::{decimal, digits, parsed_int};

verus! {

/// A `TypeError` with the message `message`.
pub open spec fn type_error(w: World, message: Seq<char>) -> PyExceptionView {
    w.exceptions.type_error@.with_message(message)
}

/// The error for a violation of the runtime's own contracts. Nothing in the
/// language handles it: it ends the evaluation.
pub open spec fn fatal(w: World, message: Seq<char>) -> PyExceptionView {
    w.exceptions.system_error@.with_message(message)
}

/// The error for calls nested deeper than the fuel allows.
pub open spec fn too_deep(w: World) -> PyExceptionView {
    w.exceptions.recursion_error@.with_message("maximum recursion depth exceeded"@)
}

/// Whether a native of the shape of `f` can be called with `count`
/// arguments.
pub open spec fn shape_accepts(f: PyInternalFunction, count: nat) -> bool {
    match f {
        PyInternalFunction::NewFunc(_) => count >= 1,
        PyInternalFunction::InitFunc(_) => count >= 1,
        PyInternalFunction::UnaryFunc(_) => count == 1,
        PyInternalFunction::BivariateFunc(_) => count == 2,
        PyInternalFunction::ManyArgFunc(_) => true,
    }
}

/// The name of the shape of `f`.
pub open spec fn shape_title(f: PyInternalFunction) -> Seq<char> {
    match f {
        PyInternalFunction::NewFunc(_) => "NewFunc"@,
        PyInternalFunction::InitFunc(_) => "InitFunc"@,
        PyInternalFunction::UnaryFunc(_) => "UnaryFunc"@,
        PyInternalFunction::BivariateFunc(_) => "BivariateFunc"@,
        PyInternalFunction::ManyArgFunc(_) => "ManyArgFunc"@,
    }
}

/// The error for a native called with a number of arguments that its shape
/// does not take.
pub open spec fn arity_error(w: World, f: PyInternalFunction, count: nat) -> PyExceptionView {
    fatal(
        w,
        "Trying to call "@ + shape_title(f) + " function type with "@ + digits(count) + " arguments"@,
    )
}

/// The error for a call of a value that cannot be called.
pub open spec fn not_callable(w: World, heap: Seq<PyMutableObject>, func: PyObjectView) -> PyExceptionView {
    type_error(w, "'"@ + func.kind_name(&w.globals, heap) + "' object is not callable"@)
}

/// The error for a class that lacks the protocol method `m`.
pub open spec fn lacks_method(w: World, class: Rc<PyClass>, m: PyMagicMethod) -> PyExceptionView {
    type_error(w, class.name_of() + " has no "@ + m.name() + " method"@)
}

/// The error for a value whose class does not give the method `m`.
pub open spec fn missing_method(w: World, heap: Seq<PyMutableObject>, value: PyObjectView, m: PyMagicMethod) -> PyExceptionView {
    type_error(
        w,
        "cannot find method '"@ + m.name() + "' in '"@ + value.kind_name(&w.globals, heap) + "' object"@,
    )
}

/// The error for an argument that a conversion cannot take. `what` names
/// the conversion and what it takes.
pub open spec fn bad_argument(w: World, heap: Seq<PyMutableObject>, what: Seq<char>, value: PyObjectView) -> PyExceptionView {
    type_error(w, what + value.kind_name(&w.globals, heap) + "'"@)
}

/// The error for a conversion method that returned a value of another
/// type. `what` names the method and what it should return.
pub open spec fn bad_conversion(w: World, heap: Seq<PyMutableObject>, value: PyObjectView, what: Seq<char>) -> PyExceptionView {
    type_error(w, value.kind_name(&w.globals, heap) + what)
}

/// The instance that `value` denotes in `heap`, if it denotes one.
pub open spec fn instance_at(heap: Seq<PyMutableObject>, value: PyObjectView) -> Option<PyInstance> {
    match value {
        PyObjectView::Mutable(pointer) => if pointer.slot < heap.len() {
            match heap[pointer.slot as int] {
                PyMutableObject::Instance(instance) => Some(instance),
                _ => None,
            }
        } else {
            None
        },
        _ => None,
    }
}

/// The payload of the range that `value` denotes, if it denotes one.
pub open spec fn range_of(heap: Seq<PyMutableObject>, value: PyObjectView) -> Option<RangeInstance> {
    match instance_at(heap, value) {
        Some(instance) => match instance.internal {
            InstanceInternal::Range(range) => Some(range),
            _ => None,
        },
        None => None,
    }
}

/// The payload of the range iterator that `value` denotes, if it denotes
/// one.
pub open spec fn iterator_of(heap: Seq<PyMutableObject>, value: PyObjectView) -> Option<RangeIteratorInstance> {
    match instance_at(heap, value) {
        Some(instance) => match instance.internal {
            InstanceInternal::RangeIterator(iterator) => Some(iterator),
            _ => None,
        },
        None => None,
    }
}

/// The outcome that adds `object` to the heap and yields the value that
/// denotes it.
pub open spec fn allocates(object: PyMutableObject, st: State) -> Option<Outcome<PyObjectView>> {
    yields(PyObjectView::Mutable(PyPointer { slot: st.heap.len() as usize }), st.allocated(object))
}

/// Calling `func` with `args`: a native is called where its shape takes
/// that many arguments, a class is constructed, and any other value cannot
/// be called.
pub open spec fn call(w: World, func: PyObjectView, args: Seq<PyObjectView>, st: State, fuel: nat) -> Option<
    Outcome<PyObjectView>,
>
    decreases fuel, 9int, 0int,
{
    match func {
        PyObjectView::Function(f) => if shape_accepts(f, args.len()) {
            native(w, f, args, st, fuel)
        } else {
            fails(arity_error(w, f, args.len()), st)
        },
        PyObjectView::Class(class) => construct(w, class, args, st, fuel),
        _ => fails(not_callable(w, st.heap, func), st),
    }
}

/// Calling `func` with `first` followed by `args`, as magic methods are
/// called. A class cannot be constructed this way. The error for a shape
/// that does not fit counts the arguments behind the first.
pub open spec fn call_method(
    w: World,
    func: PyObjectView,
    first: PyObjectView,
    args: Seq<PyObjectView>,
    st: State,
    fuel: nat,
) -> Option<Outcome<PyObjectView>>
    decreases fuel, 7int, 0int,
{
    match func {
        PyObjectView::Function(f) => if shape_accepts(f, args.len() + 1) {
            native(w, f, seq![first] + args, st, fuel)
        } else {
            fails(arity_error(w, f, args.len()), st)
        },
        PyObjectView::Class(_) => fails(
            fatal(w, "This function should not be used to initialize a class"@),
            st,
        ),
        _ => fails(not_callable(w, st.heap, func), st),
    }
}

/// Constructing an instance of `class`: `__new__` is called with the class
/// and the arguments and gives the instance, `__init__` is called with the
/// instance and the arguments, and the instance is the result. A failure of
/// either is the failure of the construction.
pub open spec fn construct(w: World, class: Rc<PyClass>, args: Seq<PyObjectView>, st: State, fuel: nat) -> Option<
    Outcome<PyObjectView>,
>
    decreases fuel, 8int, 0int,
{
    match class.magic_value(PyMagicMethod::New) {
        None => fails(lacks_method(w, class, PyMagicMethod::New), st),
        Some(new_func) => match class.magic_value(PyMagicMethod::Init) {
            None => fails(lacks_method(w, class, PyMagicMethod::Init), st),
            Some(init_func) => match call_method(w, new_func@, PyObjectView::Class(class), args, st, fuel) {
                None => None,
                Some(made) => match made.result {
                    Err(_) => Some(made),
                    Ok(instance) => match call_method(w, init_func@, instance, args, made.state, fuel) {
                        None => None,
                        Some(initialized) => match initialized.result {
                            Err(error) => fails(error, initialized.state),
                            Ok(_) => yields(instance, initialized.state),
                        },
                    },
                },
            },
        },
    }
}

/// Calling the native `f` with `args`, which its shape takes.
pub open spec fn native(w: World, f: PyInternalFunction, args: Seq<PyObjectView>, st: State, fuel: nat) -> Option<
    Outcome<PyObjectView>,
>
    recommends
        shape_accepts(f, args.len()),
    decreases fuel, 6int, 0int,
{
    match f {
        PyInternalFunction::NewFunc(which) => match args[0] {
            PyObjectView::Class(class) => new_native(w, which, class, args.skip(1), st, fuel),
            _ => fails(fatal(w, "Expected class"@), st),
        },
        PyInternalFunction::InitFunc(which) => match init_native(w, which, args[0], args.skip(1), st) {
            Ok(_) => yields(PyObjectView::NoneValue, st),
            Err(error) => fails(error, st),
        },
        PyInternalFunction::UnaryFunc(which) => unary_native(w, which, args[0], st, fuel),
        PyInternalFunction::BivariateFunc(which) => lifted(
            binary_native(w, st.heap, which, args[0], args[1]),
            st,
        ),
        PyInternalFunction::ManyArgFunc(which) => print(w, args, st, fuel),
    }
}

/// A native of the class-constructor shape.
pub open spec fn new_native(
    w: World,
    which: NewFuncType,
    class: Rc<PyClass>,
    args: Seq<PyObjectView>,
    st: State,
    fuel: nat,
) -> Option<Outcome<PyObjectView>>
    decreases fuel, 5int, 0int,
{
    match which {
        NewFuncType::Object => object_new(w, class, args, st),
        NewFuncType::Int => int_new(w, args, st, fuel),
        NewFuncType::Float => float_new(w, args, st, fuel),
        NewFuncType::Bool => bool_new(w, args, st, fuel),
        NewFuncType::NoneType => none_new(w, args, st),
        NewFuncType::Range => range_new(w, class, args, st),
        NewFuncType::RangeIterator => range_iterator_new(w, class, args, st),
    }
}

/// A native of the instance-initializer shape.
pub open spec fn init_native(
    w: World,
    which: InitFuncType,
    instance: PyObjectView,
    args: Seq<PyObjectView>,
    st: State,
) -> Result<(), PyExceptionView> {
    object_init(w, instance, args, st)
}

/// A native of the one-argument shape.
pub open spec fn unary_native(w: World, which: UnaryFuncType, value: PyObjectView, st: State, fuel: nat) -> Option<
    Outcome<PyObjectView>,
>
    decreases fuel, 5int, 0int,
{
    match which {
        UnaryFuncType::ObjectRepr => yields(PyObjectView::Str(object_repr(w, st.heap, value)), st),
        UnaryFuncType::ObjectStr => object_str(w, value, st, fuel),
        UnaryFuncType::IntRepr => lifted(int_repr(w, st.heap, value), st),
        UnaryFuncType::FloatRepr => lifted(float_repr(w, st.heap, value), st),
        UnaryFuncType::BoolRepr => lifted(Some(bool_repr(w, st.heap, value)), st),
        UnaryFuncType::BoolBool => lifted(Some(bool_bool(w, st.heap, value)), st),
        UnaryFuncType::BoolInt => lifted(Some(bool_int(w, st.heap, value)), st),
        UnaryFuncType::NoneRepr => lifted(Some(none_repr(w, st.heap, value)), st),
        UnaryFuncType::RangeRepr => lifted(Some(range_repr(w, st.heap, value)), st),
        UnaryFuncType::RangeIter => range_iter(w, value, st, fuel),
        UnaryFuncType::RangeIteratorNext => range_iterator_next(w, value, st),
    }
}

/// A native of the two-argument shape. None of them touches the state.
pub open spec fn binary_native(
    w: World,
    heap: Seq<PyMutableObject>,
    which: BivariateFuncType,
    left: PyObjectView,
    right: PyObjectView,
) -> Option<Answer> {
    match which {
        BivariateFuncType::FloatAdd => float_binary(w, heap, which, left, right),
        BivariateFuncType::FloatSub => float_binary(w, heap, which, left, right),
        BivariateFuncType::FloatRsub => float_binary(w, heap, which, left, right),
        BivariateFuncType::FloatMul => float_binary(w, heap, which, left, right),
        BivariateFuncType::FloatTrueDiv => float_binary(w, heap, which, left, right),
        BivariateFuncType::FloatRtrueDiv => float_binary(w, heap, which, left, right),
        BivariateFuncType::FloatPow => float_binary(w, heap, which, left, right),
        BivariateFuncType::FloatRpow => float_binary(w, heap, which, left, right),
        _ => int_binary(w, which, left, right),
    }
}

/// `object.__new__`: a new instance of `class` without storage. Arguments
/// are refused where the class has no `__init__` to take them.
pub open spec fn object_new(w: World, class: Rc<PyClass>, args: Seq<PyObjectView>, st: State) -> Option<
    Outcome<PyObjectView>,
> {
    if !class.defines(PyMagicMethod::Init) && args.len() > 0 {
        fails(type_error(w, "object() takes no arguments"@), st)
    } else {
        allocates(
            PyMutableObject::Instance(
                PyInstance {
                    class,
                    attributes: None,
                    internal: InstanceInternal::Empty(EmptyInternal {  }),
                },
            ),
            st,
        )
    }
}

/// `object.__init__`: nothing to do. Arguments are refused where the class
/// of the instance has no `__new__` to take them.
pub open spec fn object_init(w: World, instance: PyObjectView, args: Seq<PyObjectView>, st: State) -> Result<
    (),
    PyExceptionView,
> {
    let defines_new = match instance.class_of(&w.globals, st.heap) {
        Some(class) => class.defines(PyMagicMethod::New),
        None => false,
    };
    if !defines_new && args.len() > 0 {
        Err(
            type_error(
                w,
                "object.__init__() takes exactly one argument (the instance to initialize)"@,
            ),
        )
    } else {
        Ok(())
    }
}

/// `object.__repr__`: the name of the value's type and, for an object of
/// the heap, its place there.
pub open spec fn object_repr(w: World, heap: Seq<PyMutableObject>, value: PyObjectView) -> Seq<char> {
    match value {
        PyObjectView::Mutable(pointer) => "<"@ + value.kind_name(&w.globals, heap) + " object at "@ + digits(
            pointer.slot as nat,
        ) + ">"@,
        _ => "<"@ + value.kind_name(&w.globals, heap) + " object>"@,
    }
}

/// `object.__str__`: what the value's `__repr__` yields.
pub open spec fn object_str(w: World, value: PyObjectView, st: State, fuel: nat) -> Option<
    Outcome<PyObjectView>,
>
    decreases fuel, 4int, 0int,
{
    match value.method_of(PyMagicMethod::Repr, &w.globals, st.heap) {
        None => fails(missing_method(w, st.heap, value, PyMagicMethod::Repr), st),
        Some(repr_func) => if fuel == 0 {
            fails(too_deep(w), st)
        } else {
            call(w, repr_func, seq![value], st, (fuel - 1) as nat)
        },
    }
}

/// What the conversion method `m` of `value` yields, called without
/// further arguments.
pub open spec fn converted(w: World, m: PyMagicMethod, func: PyObjectView, value: PyObjectView, st: State, fuel: nat) -> Option<
    Outcome<PyObjectView>,
>
    decreases fuel, 1int, 0int,
{
    if fuel == 0 {
        fails(too_deep(w), st)
    } else {
        call_method(w, func, value, Seq::empty(), st, (fuel - 1) as nat)
    }
}

/// The integer that `int()` makes of `value`: a number as it is, a float
/// as the unit cuts it off, a text parsed, and any other value by its
/// `__int__`, which has to yield an integer.
pub open spec fn to_int(w: World, value: PyObjectView, st: State, fuel: nat) -> Option<Outcome<i64>>
    decreases fuel, 2int, 0int,
{
    match value {
        PyObjectView::Int(v) => yields(v, st),
        PyObjectView::Bool(b) => yields(if b { 1i64 } else { 0i64 }, st),
        PyObjectView::Float(bits) => match w.floats {
            Some(floats) => yields((floats.to_int)(bits), st),
            None => None,
        },
        PyObjectView::Str(text) => match parsed_int(text) {
            Some(v) => yields(v, st),
            None => fails(type_error(w, "invalid literal for int() with base 10: '"@ + text + "'"@), st),
        },
        PyObjectView::Mutable(_) => match value.method_of(PyMagicMethod::Int, &w.globals, st.heap) {
            Some(func) => match converted(w, PyMagicMethod::Int, func, value, st, fuel) {
                None => None,
                Some(outcome) => match outcome.result {
                    Err(error) => fails(error, outcome.state),
                    Ok(PyObjectView::Int(v)) => yields(v, outcome.state),
                    Ok(_) => fails(
                        bad_conversion(
                            w,
                            outcome.state.heap,
                            value,
                            ".__int__ returned non-int (type {<other type>})"@,
                        ),
                        outcome.state,
                    ),
                },
            },
            None => fails(bad_argument(w, st.heap, int_takes(), value), st),
        },
        _ => fails(bad_argument(w, st.heap, int_takes(), value), st),
    }
}

/// The start of the message that says what `int()` takes.
pub open spec fn int_takes() -> Seq<char> {
    "int() argument must be a string, a bytes-like object or a real number, not '"@
}

/// The start of the message that says what `float()` takes.
pub open spec fn float_takes() -> Seq<char> {
    "float() argument must be a string or a real number, not '"@
}

/// The start of the message that says what `bool()` takes.
pub open spec fn bool_takes() -> Seq<char> {
    "bool() argument must be a string, a bytes-like object or a real number, not '"@
}

/// `int.__new__`: zero without an argument, else the first argument as an
/// integer.
pub open spec fn int_new(w: World, args: Seq<PyObjectView>, st: State, fuel: nat) -> Option<
    Outcome<PyObjectView>,
>
    decreases fuel, 3int, 0int,
{
    if args.len() == 0 {
        yields(PyObjectView::Int(0), st)
    } else {
        match to_int(w, args[0], st, fuel) {
            None => None,
            Some(outcome) => match outcome.result {
                Ok(v) => yields(PyObjectView::Int(v), outcome.state),
                Err(error) => fails(error, outcome.state),
            },
        }
    }
}

/// The error for a text that denotes no float.
pub open spec fn no_float_in(w: World, text: Seq<char>) -> PyExceptionView {
    w.exceptions.value_error@.with_message("could not convert string to float: '"@ + text + "'"@)
}

/// `float.__new__`: zero without an argument, a float as it is, an integer
/// or boolean as the unit promotes it, a text as the unit reads it, and
/// any other value by its `__float__`, which has to yield a float.
pub open spec fn float_new(w: World, args: Seq<PyObjectView>, st: State, fuel: nat) -> Option<
    Outcome<PyObjectView>,
>
    decreases fuel, 3int, 0int,
{
    if args.len() == 0 {
        yields(PyObjectView::Float(0), st)
    } else {
        let value = args[0];
        match value {
            PyObjectView::Float(bits) => yields(PyObjectView::Float(bits), st),
            PyObjectView::Int(v) => match w.floats {
                Some(floats) => yields(PyObjectView::Float((floats.from_int)(v)), st),
                None => None,
            },
            PyObjectView::Bool(b) => match w.floats {
                Some(floats) => yields(PyObjectView::Float((floats.from_int)(if b { 1i64 } else { 0i64 })), st),
                None => None,
            },
            PyObjectView::Str(text) => match w.floats {
                Some(floats) => match (floats.parse)(text) {
                    Some(bits) => yields(PyObjectView::Float(bits), st),
                    None => fails(no_float_in(w, text), st),
                },
                None => None,
            },
            PyObjectView::Mutable(_) => match value.method_of(PyMagicMethod::Float, &w.globals, st.heap) {
                Some(func) => match converted(w, PyMagicMethod::Float, func, value, st, fuel) {
                    None => None,
                    Some(outcome) => match outcome.result {
                        Err(error) => fails(error, outcome.state),
                        Ok(PyObjectView::Float(bits)) => yields(PyObjectView::Float(bits), outcome.state),
                        Ok(_) => fails(
                            bad_conversion(
                                w,
                                outcome.state.heap,
                                value,
                                ".__float__ returned non-float (type {<other type>})"@,
                            ),
                            outcome.state,
                        ),
                    },
                },
                None => fails(bad_argument(w, st.heap, float_takes(), value), st),
            },
            _ => fails(bad_argument(w, st.heap, float_takes(), value), st),
        }
    }
}

/// Whether `value` counts as true: zero, the empty text and `None` do not,
/// every other scalar does. Any other value says so by its `__bool__`,
/// which has to yield a boolean.
pub open spec fn truthy(w: World, value: PyObjectView, st: State, fuel: nat) -> Option<Outcome<bool>>
    decreases fuel, 2int, 0int,
{
    match value {
        PyObjectView::Bool(b) => yields(b, st),
        PyObjectView::Int(v) => yields(v != 0, st),
        PyObjectView::Float(bits) => yields(!is_zero_bits(bits), st),
        PyObjectView::Str(text) => yields(text.len() > 0, st),
        PyObjectView::NoneValue => yields(false, st),
        _ => match value.method_of(PyMagicMethod::Bool, &w.globals, st.heap) {
            Some(func) => match converted(w, PyMagicMethod::Bool, func, value, st, fuel) {
                None => None,
                Some(outcome) => match outcome.result {
                    Err(error) => fails(error, outcome.state),
                    Ok(PyObjectView::Bool(b)) => yields(b, outcome.state),
                    Ok(_) => fails(
                        bad_conversion(
                            w,
                            outcome.state.heap,
                            value,
                            ".__bool__ should return bool, returned (type {<other type>})"@,
                        ),
                        outcome.state,
                    ),
                },
            },
            None => fails(bad_argument(w, st.heap, bool_takes(), value), st),
        },
    }
}

/// `bool.__new__`: false without an argument, else whether the first
/// argument counts as true.
pub open spec fn bool_new(w: World, args: Seq<PyObjectView>, st: State, fuel: nat) -> Option<
    Outcome<PyObjectView>,
>
    decreases fuel, 3int, 0int,
{
    if args.len() == 0 {
        yields(PyObjectView::Bool(false), st)
    } else {
        match truthy(w, args[0], st, fuel) {
            None => None,
            Some(outcome) => match outcome.result {
                Ok(b) => yields(PyObjectView::Bool(b), outcome.state),
                Err(error) => fails(error, outcome.state),
            },
        }
    }
}

/// The error for a value that is no boolean where one is needed.
pub open spec fn not_a_bool(w: World, heap: Seq<PyMutableObject>, value: PyObjectView) -> PyExceptionView {
    type_error(w, "'"@ + value.kind_name(&w.globals, heap) + "' object cannot be interpreted as a boolean"@)
}

/// `bool.__repr__`: `True` or `False`.
pub open spec fn bool_repr(w: World, heap: Seq<PyMutableObject>, value: PyObjectView) -> Answer {
    match value {
        PyObjectView::Bool(b) => Ok(PyObjectView::Str(if b { "True"@ } else { "False"@ })),
        _ => Err(not_a_bool(w, heap, value)),
    }
}

/// `bool.__bool__`: the boolean itself.
pub open spec fn bool_bool(w: World, heap: Seq<PyMutableObject>, value: PyObjectView) -> Answer {
    match value {
        PyObjectView::Bool(b) => Ok(PyObjectView::Bool(b)),
        _ => Err(not_a_bool(w, heap, value)),
    }
}

/// `bool.__int__`: one for true, zero for false.
pub open spec fn bool_int(w: World, heap: Seq<PyMutableObject>, value: PyObjectView) -> Answer {
    match value {
        PyObjectView::Bool(b) => Ok(PyObjectView::Int(if b { 1i64 } else { 0i64 })),
        _ => Err(not_a_bool(w, heap, value)),
    }
}

/// `NoneType.__new__`: `None`. It takes no arguments.
pub open spec fn none_new(w: World, args: Seq<PyObjectView>, st: State) -> Option<Outcome<PyObjectView>> {
    if args.len() == 0 {
        yields(PyObjectView::NoneValue, st)
    } else {
        fails(type_error(w, "NoneType takes no arguments"@), st)
    }
}

/// `NoneType.__repr__`: `None`.
pub open spec fn none_repr(w: World, heap: Seq<PyMutableObject>, value: PyObjectView) -> Answer {
    match value {
        PyObjectView::NoneValue => Ok(PyObjectView::Str("None"@)),
        _ => Err(
            type_error(
                w,
                "'"@ + value.kind_name(&w.globals, heap) + "' object cannot be interpreted as a NoneType"@,
            ),
        ),
    }
}

/// The integer that the argument of `range` at `at` is.
pub open spec fn range_argument(w: World, heap: Seq<PyMutableObject>, args: Seq<PyObjectView>, at: int) -> Result<
    i64,
    PyExceptionView,
> {
    match args[at] {
        PyObjectView::Int(v) => Ok(v),
        other => Err(not_an_int(w, other.kind_name(&w.globals, heap))),
    }
}

/// The bounds that the arguments of `range` give: one argument is the
/// stop, two are start and stop, a third is the step. The start is zero
/// and the step one where they are not given.
pub open spec fn range_bounds(w: World, heap: Seq<PyMutableObject>, args: Seq<PyObjectView>) -> Result<
    RangeInstance,
    PyExceptionView,
> {
    if args.len() == 0 {
        Err(type_error(w, "range expected at least 1 argument, got 0"@))
    } else {
        match range_argument(w, heap, args, 0) {
            Err(error) => Err(error),
            Ok(first) => if args.len() == 1 {
                Ok(RangeInstance { start: 0, stop: first, step: 1 })
            } else {
                match range_argument(w, heap, args, 1) {
                    Err(error) => Err(error),
                    Ok(second) => if args.len() == 2 {
                        Ok(RangeInstance { start: first, stop: second, step: 1 })
                    } else {
                        match range_argument(w, heap, args, 2) {
                            Err(error) => Err(error),
                            Ok(third) => Ok(RangeInstance { start: first, stop: second, step: third }),
                        }
                    },
                }
            },
        }
    }
}

/// `range.__new__`: a new range with the bounds that the arguments give.
pub open spec fn range_new(w: World, class: Rc<PyClass>, args: Seq<PyObjectView>, st: State) -> Option<
    Outcome<PyObjectView>,
> {
    match range_bounds(w, st.heap, args) {
        Err(error) => fails(error, st),
        Ok(range) => allocates(
            PyMutableObject::Instance(
                PyInstance { class, attributes: None, internal: InstanceInternal::Range(range) },
            ),
            st,
        ),
    }
}

/// The text that shows a range: its start and stop, and its step where
/// that is not one.
pub open spec fn range_text(range: RangeInstance) -> Seq<char> {
    if range.step == 1 {
        "range("@ + decimal(range.start as int) + ", "@ + decimal(range.stop as int) + ")"@
    } else {
        "range("@ + decimal(range.start as int) + ", "@ + decimal(range.stop as int) + ", "@ + decimal(
            range.step as int,
        ) + ")"@
    }
}

/// `range.__repr__`.
pub open spec fn range_repr(w: World, heap: Seq<PyMutableObject>, value: PyObjectView) -> Answer {
    match range_of(heap, value) {
        Some(range) => Ok(PyObjectView::Str(range_text(range))),
        None => Err(fatal(w, "Instance received is not of RangeInstance type"@)),
    }
}

/// `range.__iter__`: a new iterator over the range.
pub open spec fn range_iter(w: World, value: PyObjectView, st: State, fuel: nat) -> Option<
    Outcome<PyObjectView>,
>
    decreases fuel, 4int, 0int,
{
    if fuel == 0 {
        fails(too_deep(w), st)
    } else {
        construct(w, w.globals.range_iterator_class, seq![value], st, (fuel - 1) as nat)
    }
}

/// `range_iterator.__new__`: an iterator that stands at the start of the
/// range that is its one argument.
pub open spec fn range_iterator_new(w: World, class: Rc<PyClass>, args: Seq<PyObjectView>, st: State) -> Option<
    Outcome<PyObjectView>,
> {
    if args.len() == 0 {
        fails(type_error(w, "range_iterator expected at least 1 argument, got 0"@), st)
    } else if args.len() != 1 {
        fails(fatal(w, "range_iterator expected exactly 1 argument"@), st)
    } else {
        match range_of(st.heap, args[0]) {
            None => fails(fatal(w, "arg instance should be of RangeInstance type"@), st),
            Some(range) => allocates(
                PyMutableObject::Instance(
                    PyInstance {
                        class,
                        attributes: None,
                        internal: InstanceInternal::RangeIterator(
                            RangeIteratorInstance {
                                current: range.start,
                                stop: range.stop,
                                step: range.step,
                            },
                        ),
                    },
                ),
                st,
            ),
        }
    }
}

/// Whether the iterator has run past its stop, in the direction of its
/// step.
pub open spec fn exhausted(iterator: RangeIteratorInstance) -> bool {
    (iterator.step > 0 && iterator.current >= iterator.stop) || (iterator.step < 0 && iterator.current
        <= iterator.stop)
}

/// `current + step`, held at the ends of the integers.
pub open spec fn advanced(current: i64, step: i64) -> i64 {
    if current + step > i64::MAX {
        i64::MAX
    } else if current + step < i64::MIN {
        i64::MIN
    } else {
        (current + step) as i64
    }
}

/// `range_iterator.__next__`: the value at which the iterator stands, and
/// the iterator moved on by its step; `StopIteration` once it has run past
/// its stop.
pub open spec fn range_iterator_next(w: World, value: PyObjectView, st: State) -> Option<
    Outcome<PyObjectView>,
> {
    match iterator_of(st.heap, value) {
        None => fails(fatal(w, "instance is not RangeIteratorType"@), st),
        Some(iterator) => if exhausted(iterator) {
            fails(w.exceptions.stop_iteration@, st)
        } else {
            let instance = instance_at(st.heap, value).unwrap();
            let moved = PyMutableObject::Instance(
                PyInstance {
                    internal: InstanceInternal::RangeIterator(
                        RangeIteratorInstance {
                            current: advanced(iterator.current, iterator.step),
                            ..iterator
                        },
                    ),
                    ..instance
                },
            );
            yields(
                PyObjectView::Int(iterator.current),
                State { heap: st.heap.update(value->Mutable_0.slot as int, moved), ..st },
            )
        },
    }
}

/// What `str()` makes of `value`: a text as it is, else what the value's
/// `__str__` yields, or its `__repr__` where it has no `__str__`.
pub open spec fn py_str(w: World, value: PyObjectView, st: State, fuel: nat) -> Option<Outcome<PyObjectView>>
    decreases fuel, 2int, 0int,
{
    match value {
        PyObjectView::Str(text) => yields(value, st),
        _ => match value.method_of(PyMagicMethod::Str, &w.globals, st.heap) {
            Some(func) => converted(w, PyMagicMethod::Str, func, value, st, fuel),
            None => py_repr(w, value, st, fuel),
        },
    }
}

/// What `repr()` makes of `value`: a text in quotes, else what the value's
/// `__repr__` yields.
pub open spec fn py_repr(w: World, value: PyObjectView, st: State, fuel: nat) -> Option<Outcome<PyObjectView>>
    decreases fuel, 1int, 1int,
{
    match value {
        PyObjectView::Str(text) => yields(PyObjectView::Str("'"@ + text + "'"@), st),
        _ => match value.method_of(PyMagicMethod::Repr, &w.globals, st.heap) {
            Some(func) => converted(w, PyMagicMethod::Repr, func, value, st, fuel),
            None => fails(missing_method(w, st.heap, value, PyMagicMethod::Repr), st),
        },
    }
}

/// The texts `parts[from..]`, with one space between each two.
pub open spec fn joined(parts: Seq<Seq<char>>, from: int) -> Seq<char>
    decreases parts.len() - from,
{
    if from < 0 || from >= parts.len() {
        Seq::empty()
    } else if from == parts.len() - 1 {
        parts[from]
    } else {
        parts[from] + " "@ + joined(parts, from + 1)
    }
}

/// The error for a `__str__` that yields another value than a text.
pub open spec fn not_a_text(w: World, heap: Seq<PyMutableObject>, value: PyObjectView) -> PyExceptionView {
    type_error(w, "__str__ returned non-string (type "@ + value.kind_name(&w.globals, heap) + ")"@)
}

/// The texts that `str()` makes of `args[from..]`, in order, behind
/// `done`.
pub open spec fn print_parts(
    w: World,
    args: Seq<PyObjectView>,
    from: int,
    done: Seq<Seq<char>>,
    st: State,
    fuel: nat,
) -> Option<Outcome<Seq<Seq<char>>>>
    decreases fuel, 3int, args.len() - from,
{
    if from < 0 || from >= args.len() {
        yields(done, st)
    } else {
        match py_str(w, args[from], st, fuel) {
            None => None,
            Some(outcome) => match outcome.result {
                Err(error) => fails(error, outcome.state),
                Ok(PyObjectView::Str(text)) => print_parts(
                    w,
                    args,
                    from + 1,
                    done.push(text),
                    outcome.state,
                    fuel,
                ),
                Ok(other) => fails(not_a_text(w, outcome.state.heap, other), outcome.state),
            },
        }
    }
}

/// `print`: one line made of what `str()` makes of each argument, with one
/// space between each two. It yields `None`.
pub open spec fn print(w: World, args: Seq<PyObjectView>, st: State, fuel: nat) -> Option<
    Outcome<PyObjectView>,
>
    decreases fuel, 4int, 0int,
{
    match print_parts(w, args, 0, Seq::empty(), st, fuel) {
        None => None,
        Some(outcome) => match outcome.result {
            Err(error) => fails(error, outcome.state),
            Ok(parts) => yields(PyObjectView::NoneValue, outcome.state.printed(joined(parts, 0))),
        },
    }
}

/// The two ways of calling agree: a native that takes a first argument and
/// the further ones does the same whether the first argument is handed
/// over on its own or in front of the others.
pub proof fn lemma_both_conventions_agree(
    w: World,
    f: PyInternalFunction,
    first: PyObjectView,
    args: Seq<PyObjectView>,
    st: State,
    fuel: nat,
)
    requires
        shape_accepts(f, args.len() + 1),
    ensures
        call_method(w, PyObjectView::Function(f), first, args, st, fuel) == call(
            w,
            PyObjectView::Function(f),
            seq![first] + args,
            st,
            fuel,
        ),
{
    assert((seq![first] + args).len() == args.len() + 1);
}

/// Whether the error is the signal by which an operand declines an
/// operator: any `NotImplementedError`.
pub open spec fn declined(w: World, error: PyExceptionView) -> bool {
    error.same_kind(w.exceptions.not_implemented_error@)
}

/// The method that is tried on the right operand, with the operands
/// swapped, when the left operand does not take `op`: the reflected form of
/// an arithmetic operator, the mirror of a comparison.
pub open spec fn reflected_op(op: PyMagicMethod) -> PyMagicMethod {
    if op.is_comparison() {
        op.mirrored()
    } else {
        op.right_handed()
    }
}

/// The error for an operator that neither operand takes. It names the
/// operator and the types of both operands.
pub open spec fn unsupported(
    w: World,
    heap: Seq<PyMutableObject>,
    op: PyMagicMethod,
    left: PyObjectView,
    right: PyObjectView,
) -> PyExceptionView {
    if op.is_comparison() {
        type_error(
            w,
            "'"@ + op.title() + "' not supported between instances of '"@ + left.kind_name(&w.globals, heap)
                + "' and '"@ + right.kind_name(&w.globals, heap) + "'"@,
        )
    } else {
        type_error(
            w,
            "unsupported operand type(s) for "@ + op.title() + ": '"@ + left.kind_name(&w.globals, heap)
                + "' and '"@ + right.kind_name(&w.globals, heap) + "'"@,
        )
    }
}

/// The second half of an operator: the reflected method of the right
/// operand is called with the operands swapped, and what it yields is the
/// result. Where the right operand has no such method, or the method
/// declines, neither operand takes the operator.
pub open spec fn reflected_call(
    w: World,
    op: PyMagicMethod,
    left: PyObjectView,
    right: PyObjectView,
    st: State,
    fuel: nat,
) -> Option<Outcome<PyObjectView>> {
    match right.method_of(reflected_op(op), &w.globals, st.heap) {
        Some(func) => match call_method(w, func, right, seq![left], st, fuel) {
            None => None,
            Some(outcome) => match outcome.result {
                Err(error) => if declined(w, error) {
                    fails(unsupported(w, outcome.state.heap, op, left, right), outcome.state)
                } else {
                    Some(outcome)
                },
                Ok(_) => Some(outcome),
            },
        },
        None => fails(unsupported(w, st.heap, op, left, right), st),
    }
}

/// A binary operator: the method of the left operand is called with both
/// operands, and what it yields is the result. Where the left operand has
/// no such method, or the method declines, the right operand is asked. Any
/// other failure of the left operand's method is the failure of the
/// operator.
pub open spec fn binary_op(
    w: World,
    op: PyMagicMethod,
    left: PyObjectView,
    right: PyObjectView,
    st: State,
    fuel: nat,
) -> Option<Outcome<PyObjectView>> {
    match left.method_of(op, &w.globals, st.heap) {
        Some(func) => match call_method(w, func, left, seq![right], st, fuel) {
            None => None,
            Some(outcome) => match outcome.result {
                Err(error) => if declined(w, error) {
                    reflected_call(w, op, left, right, outcome.state, fuel)
                } else {
                    Some(outcome)
                },
                Ok(_) => Some(outcome),
            },
        },
        None => reflected_call(w, op, left, right, st, fuel),
    }
}

/// Whether the two values are the same object. Two handles are the same
/// object exactly when they denote the same place of the heap, whatever
/// the objects hold. A scalar has no place of its own: scalars are the same
/// when they are equal. Classes are the same when they have the same name.
pub open spec fn same_identity(left: PyObjectView, right: PyObjectView) -> bool {
    match (left, right) {
        (PyObjectView::Mutable(a), PyObjectView::Mutable(b)) => a == b,
        (PyObjectView::NoneValue, PyObjectView::NoneValue) => true,
        (PyObjectView::Int(a), PyObjectView::Int(b)) => a == b,
        (PyObjectView::Float(a), PyObjectView::Float(b)) => a == b,
        (PyObjectView::Bool(a), PyObjectView::Bool(b)) => a == b,
        (PyObjectView::Str(a), PyObjectView::Str(b)) => a == b,
        (PyObjectView::Function(a), PyObjectView::Function(b)) => a == b,
        (PyObjectView::Class(a), PyObjectView::Class(b)) => a.name_of() == b.name_of(),
        (PyObjectView::Flag(a), PyObjectView::Flag(b)) => a == b,
        _ => false,
    }
}

/// The magic method of an equality or ordering comparison.
pub open spec fn comparison_method(comp: Comparator) -> Option<PyMagicMethod> {
    match comp {
        Comparator::Equal => Some(PyMagicMethod::Eq),
        Comparator::NotEqual => Some(PyMagicMethod::Ne),
        Comparator::LessThan => Some(PyMagicMethod::Lt),
        Comparator::LessThanOrEqual => Some(PyMagicMethod::Le),
        Comparator::GreaterThan => Some(PyMagicMethod::Gt),
        Comparator::GreaterThanOrEqual => Some(PyMagicMethod::Ge),
        _ => None,
    }
}

/// The error for a membership test, which the runtime does not implement.
pub open spec fn no_membership(w: World) -> PyExceptionView {
    w.exceptions.not_implemented_error@.with_message("membership tests are not supported"@)
}

/// A comparison: equality and the orderings go by the operator protocol,
/// `is` and `is not` by identity alone, without asking either class.
pub open spec fn compare(
    w: World,
    comp: Comparator,
    left: PyObjectView,
    right: PyObjectView,
    st: State,
    fuel: nat,
) -> Option<Outcome<PyObjectView>> {
    match comp {
        Comparator::Is => yields(PyObjectView::Bool(same_identity(left, right)), st),
        Comparator::IsNot => yields(PyObjectView::Bool(!same_identity(left, right)), st),
        Comparator::In => fails(no_membership(w), st),
        Comparator::NotIn => fails(no_membership(w), st),
        _ => binary_op(w, comparison_method(comp).unwrap(), left, right, st, fuel),
    }
}

/// An operator that neither operand takes fails with a `TypeError` that
/// names the operator and the types of both operands.
pub proof fn lemma_operator_that_nobody_takes(
    w: World,
    op: PyMagicMethod,
    left: PyObjectView,
    right: PyObjectView,
    st: State,
    fuel: nat,
)
    requires
        left.method_of(op, &w.globals, st.heap) is None,
        right.method_of(reflected_op(op), &w.globals, st.heap) is None,
    ensures
        binary_op(w, op, left, right, st, fuel) == fails::<PyObjectView>(
            unsupported(w, st.heap, op, left, right),
            st,
        ),
        unsupported(w, st.heap, op, left, right).same_kind(w.exceptions.type_error@),
{
}

/// Where the left operand has no method for the operator, the reflected
/// method of the right operand is called with the operands swapped, and
/// what it yields is the result, unchanged, unless it declines in turn.
pub proof fn lemma_reflected_when_forward_is_absent(
    w: World,
    op: PyMagicMethod,
    left: PyObjectView,
    right: PyObjectView,
    func: PyObjectView,
    st: State,
    fuel: nat,
)
    requires
        left.method_of(op, &w.globals, st.heap) is None,
        right.method_of(reflected_op(op), &w.globals, st.heap) == Some(func),
        call_method(w, func, right, seq![left], st, fuel) matches Some(outcome) && !(outcome.result matches Err(
            error,
        ) && declined(w, error)),
    ensures
        binary_op(w, op, left, right, st, fuel) == call_method(w, func, right, seq![left], st, fuel),
{
}

/// Where the method of the left operand declines, the reflected method of
/// the right operand is called with the operands swapped, in the state
/// that the left operand's method left, and what it yields is the result,
/// unchanged, unless it declines in turn.
pub proof fn lemma_reflected_when_forward_declines(
    w: World,
    op: PyMagicMethod,
    left: PyObjectView,
    right: PyObjectView,
    forward: PyObjectView,
    func: PyObjectView,
    st: State,
    fuel: nat,
)
    requires
        left.method_of(op, &w.globals, st.heap) == Some(forward),
        call_method(w, forward, left, seq![right], st, fuel) matches Some(first) && (first.result matches Err(
            error,
        ) && declined(w, error)) && right.method_of(reflected_op(op), &w.globals, first.state.heap) == Some(
            func,
        ) && (call_method(w, func, right, seq![left], first.state, fuel) matches Some(outcome)
            && !(outcome.result matches Err(error) && declined(w, error))),
    ensures
        binary_op(w, op, left, right, st, fuel) == call_method(
            w,
            func,
            right,
            seq![left],
            call_method(w, forward, left, seq![right], st, fuel).unwrap().state,
            fuel,
        ),
{
}

/// A failure of the left operand's method that is no declining is the
/// failure of the operator: the right operand is not asked.
pub proof fn lemma_other_failures_propagate(
    w: World,
    op: PyMagicMethod,
    left: PyObjectView,
    right: PyObjectView,
    forward: PyObjectView,
    st: State,
    fuel: nat,
)
    requires
        left.method_of(op, &w.globals, st.heap) == Some(forward),
        call_method(w, forward, left, seq![right], st, fuel) matches Some(first) && (first.result matches Err(
            error,
        ) && !declined(w, error)),
    ensures
        binary_op(w, op, left, right, st, fuel) == call_method(w, forward, left, seq![right], st, fuel),
{
}

/// Identity is not equality: two objects made one after the other are
/// different objects though they hold the same, and an object is the same
/// object as itself.
pub proof fn lemma_identity_is_not_equality(object: PyMutableObject, st: State)
    requires
        st.heap.len() + 1 < usize::MAX,
    ensures
        ({
            let first = allocates(object, st).unwrap();
            let second = allocates(object, first.state).unwrap();
            let a = first.result->Ok_0;
            let b = second.result->Ok_0;
            &&& !same_identity(a, b)
            &&& same_identity(a, a)
            &&& same_identity(b, b)
            &&& second.state.heap[a->Mutable_0.slot as int] == second.state.heap[b->Mutable_0.slot as int]
        }),
{
}

/// The number of values of the range from `start` to `stop` by `step`: the
/// distance divided by the step, rounded up, and zero where the step
/// leads away from the stop.
pub open spec fn range_len(start: int, stop: int, step: int) -> nat
    recommends
        step != 0,
{
    if step > 0 && start < stop {
        ((stop - start + step - 1) / step) as nat
    } else if step < 0 && start > stop {
        ((start - stop - step - 1) / (-step)) as nat
    } else {
        0
    }
}

/// The iterator at the start of `range`.
pub open spec fn iterator_over(range: RangeInstance) -> RangeIteratorInstance {
    RangeIteratorInstance { current: range.start, stop: range.stop, step: range.step }
}

/// The iterator after `count` values were taken from it.
pub open spec fn iterator_after(iterator: RangeIteratorInstance, count: nat) -> RangeIteratorInstance
    decreases count,
{
    if count == 0 {
        iterator
    } else {
        let before = iterator_after(iterator, (count - 1) as nat);
        RangeIteratorInstance { current: advanced(before.current, before.step), ..before }
    }
}

/// `start + count * step`, held at the ends of the integers.
spec fn held(start: int, step: int, count: nat) -> int {
    let exact = start + count * step;
    if exact > i64::MAX {
        i64::MAX as int
    } else if exact < i64::MIN {
        i64::MIN as int
    } else {
        exact
    }
}

proof fn lemma_iterator_after(range: RangeInstance, count: nat)
    requires
        range.step != 0,
    ensures
        iterator_after(iterator_over(range), count).current == held(
            range.start as int,
            range.step as int,
            count,
        ),
        iterator_after(iterator_over(range), count).stop == range.stop,
        iterator_after(iterator_over(range), count).step == range.step,
    decreases count,
{
    if count > 0 {
        lemma_iterator_after(range, (count - 1) as nat);
        let step = range.step as int;
        let start = range.start as int;
        let before = (count - 1) as nat;
        assert(start + count * step == start + before * step + step) by (nonlinear_arith)
            requires
                before == count - 1,
        ;
        if step > 0 {
            assert(start + before * step >= start) by (nonlinear_arith)
                requires
                    step > 0,
                    before >= 0,
            ;
        } else {
            assert(start + before * step <= start) by (nonlinear_arith)
                requires
                    step < 0,
                    before >= 0,
            ;
        }
    }
}

proof fn lemma_range_len(start: int, stop: int, step: int, count: nat)
    requires
        step != 0,
        count <= range_len(start, stop, step),
    ensures
        step > 0 && count < range_len(start, stop, step) ==> start <= start + count * step < stop,
        step < 0 && count < range_len(start, stop, step) ==> start >= start + count * step > stop,
        step > 0 && count == range_len(start, stop, step) ==> start + count * step >= stop || start >= stop,
        step < 0 && count == range_len(start, stop, step) ==> start + count * step <= stop || start <= stop,
{
    let len = range_len(start, stop, step);
    if step > 0 && start < stop {
        let x = stop - start + step - 1;
        vstd::arithmetic::div_mod::lemma_fundamental_div_mod(x, step);
        vstd::arithmetic::div_mod::lemma_mod_bound(x, step);
        assert(step * len >= stop - start);
        assert(step * (len - 1) < stop - start) by (nonlinear_arith)
            requires
                x == step * len + x % step,
                0 <= x % step < step,
                x == stop - start + step - 1,
        ;
        if count < len {
            assert(count * step <= (len - 1) * step) by (nonlinear_arith)
                requires
                    count <= len - 1,
                    step > 0,
            ;
            assert((len - 1) * step == step * (len - 1)) by (nonlinear_arith);
            assert(count * step >= 0) by (nonlinear_arith)
                requires
                    step > 0,
            ;
        } else {
            assert(count * step == step * len) by (nonlinear_arith)
                requires
                    count == len,
            ;
        }
    } else if step < 0 && start > stop {
        let x = start - stop - step - 1;
        let back = -step;
        vstd::arithmetic::div_mod::lemma_fundamental_div_mod(x, back);
        vstd::arithmetic::div_mod::lemma_mod_bound(x, back);
        assert(back * len >= start - stop);
        assert(back * (len - 1) < start - stop) by (nonlinear_arith)
            requires
                x == back * len + x % back,
                0 <= x % back < back,
                x == start - stop + back - 1,
        ;
        if count < len {
            assert(count * step >= -(back * (len - 1))) by (nonlinear_arith)
                requires
                    count <= len - 1,
                    back > 0,
                    step == -back,
            ;
            assert(count * step <= 0) by (nonlinear_arith)
                requires
                    step < 0,
            ;
        } else {
            assert(count * step == -(back * len)) by (nonlinear_arith)
                requires
                    count == len,
                    step == -back,
            ;
        }
    }
}

/// The values of a range are its arithmetic progression: the iterator
/// over the range from `start` to `stop` by `step` yields `start`,
/// `start + step`, `start + 2 * step` and so on, each strictly before
/// `stop` in the direction of the step, and it is exhausted after exactly
/// `range_len(start, stop, step)` values.
pub proof fn lemma_range_is_a_progression(range: RangeInstance, count: nat)
    requires
        range.step != 0,
        count <= range_len(range.start as int, range.stop as int, range.step as int),
    ensures
        ({
            let iterator = iterator_after(iterator_over(range), count);
            let len = range_len(range.start as int, range.stop as int, range.step as int);
            &&& count < len ==> !exhausted(iterator) && iterator.current == range.start + count * range.step
            &&& count < len && range.step > 0 ==> iterator.current < range.stop
            &&& count < len && range.step < 0 ==> iterator.current > range.stop
            &&& count == len ==> exhausted(iterator)
        }),
{
    lemma_iterator_after(range, count);
    lemma_range_len(range.start as int, range.stop as int, range.step as int, count);
}

/// One step of an iterator: where it is not exhausted, `__next__` yields
/// the value at which it stands and leaves it moved on by one value;
/// where it is exhausted, `__next__` raises `StopIteration` and changes
/// nothing.
pub proof fn lemma_next_takes_one_value(w: World, value: PyObjectView, st: State, iterator: RangeIteratorInstance)
    requires
        iterator_of(st.heap, value) == Some(iterator),
    ensures
        exhausted(iterator) ==> range_iterator_next(w, value, st) == fails::<PyObjectView>(
            w.exceptions.stop_iteration@,
            st,
        ),
        !exhausted(iterator) ==> (range_iterator_next(w, value, st) matches Some(outcome) && outcome.result
            == Ok::<PyObjectView, PyExceptionView>(PyObjectView::Int(iterator.current)) && iterator_of(
            outcome.state.heap,
            value,
        ) == Some(iterator_after(iterator, 1)) && outcome.state.frames == st.frames && outcome.state.output
            == st.output),
{
    assert(iterator_after(iterator, 0) == iterator);
}

/// What the method `m` of a built-in class is, by the table that the class
/// declares or inherits.
proof fn lemma_builtin_method(w: World, value: PyObjectView, heap: Seq<PyMutableObject>, m: PyMagicMethod)
    requires
        w.globals.wf(),
        value is Int || value is Float,
    ensures
        value is Int ==> value.method_of(m, &w.globals, heap) == (match int_methods().slot(m) {
            Some(f) => Some(PyObjectView::Function(f)),
            None => match PyClass::first_inherited(seq![w.globals.object_class], m, 0) {
                Some(f) => Some(PyObjectView::Function(f)),
                None => None,
            },
        }),
        value is Float ==> value.method_of(m, &w.globals, heap) == (match float_methods().slot(m) {
            Some(f) => Some(PyObjectView::Function(f)),
            None => match PyClass::first_inherited(seq![w.globals.object_class], m, 0) {
                Some(f) => Some(PyObjectView::Function(f)),
                None => None,
            },
        }),
{
    let class = if value is Int {
        w.globals.int_class
    } else {
        w.globals.float_class
    };
    assert(value.class_of(&w.globals, heap) == Some(class));
    assert(*class is Internal);
    let own = class.own(m);
    assert(class.magic_value(m) == (match own {
        Some(func) => Some(slot_value(func)),
        None => None,
    }));
    if own is Some {
        assert(slot_value(own.unwrap())@ == PyObjectView::Function(own.unwrap()));
    }
}

/// An integer and a float, the integer on the left: the integer's method
/// declines, and the float's reflected method gives the answer, with the
/// operands swapped. The float that the unit is asked for is
/// `a + x`, `a - x`, `a * x`, `a / x` or `a ** x`, the integer promoted:
/// the reflected difference, quotient and power keep the integer on the
/// left.
pub proof fn lemma_int_with_float(w: World, op: PyMagicMethod, a: i64, x: u64, st: State, fuel: nat)
    requires
        w.globals.wf(),
        w.exceptions.wf(),
        w.floats is Some,
        op == (PyMagicMethod::Add { right: false }) || op == (PyMagicMethod::Sub { right: false }) || op == (
        PyMagicMethod::Mul { right: false }) || op == (PyMagicMethod::TrueDiv { right: false }) || op == (
        PyMagicMethod::Pow { right: false }),
    ensures
        ({
            let floats = w.floats.unwrap();
            let promoted = (floats.from_int)(a);
            let answer = match op {
                PyMagicMethod::Add { .. } => (floats.arith)(FloatOp::Add, x, promoted),
                PyMagicMethod::Sub { .. } => (floats.arith)(FloatOp::Sub, promoted, x),
                PyMagicMethod::Mul { .. } => (floats.arith)(FloatOp::Mul, x, promoted),
                PyMagicMethod::TrueDiv { .. } => (floats.arith)(FloatOp::Div, promoted, x),
                _ => (floats.arith)(FloatOp::Pow, promoted, x),
            };
            binary_op(w, op, PyObjectView::Int(a), PyObjectView::Float(x), st, fuel) == yields(
                PyObjectView::Float(answer),
                st,
            )
        }),
{
    let left = PyObjectView::Int(a);
    let right = PyObjectView::Float(x);
    lemma_builtin_method(w, left, st.heap, op);
    lemma_builtin_method(w, right, st.heap, reflected_op(op));
    let forward = left.method_of(op, &w.globals, st.heap).unwrap();
    let first = call_method(w, forward, left, seq![right], st, fuel);
    assert((seq![left] + seq![right])[0] == left);
    assert((seq![left] + seq![right])[1] == right);
    assert(first == fails::<PyObjectView>(w.exceptions.not_implemented_error@, st));
    let back = right.method_of(reflected_op(op), &w.globals, st.heap).unwrap();
    assert((seq![right] + seq![left])[0] == right);
    assert((seq![right] + seq![left])[1] == left);
    assert(call_method(w, back, right, seq![left], st, fuel) is Some);
}

/// Two integers divided give the float that the unit gives for their
/// quotient, both promoted; an integer to a negative integer power gives
/// the float that the unit gives for the power, both promoted.
pub proof fn lemma_int_gives_float(w: World, op: PyMagicMethod, a: i64, b: i64, st: State, fuel: nat)
    requires
        w.globals.wf(),
        w.exceptions.wf(),
        w.floats is Some,
        op == (PyMagicMethod::TrueDiv { right: false }) || (op == (PyMagicMethod::Pow { right: false }) && b < 0),
    ensures
        ({
            let floats = w.floats.unwrap();
            let answer = (floats.arith)(
                if op is TrueDiv {
                    FloatOp::Div
                } else {
                    FloatOp::Pow
                },
                (floats.from_int)(a),
                (floats.from_int)(b),
            );
            binary_op(w, op, PyObjectView::Int(a), PyObjectView::Int(b), st, fuel) == yields(
                PyObjectView::Float(answer),
                st,
            )
        }),
{
    let left = PyObjectView::Int(a);
    let right = PyObjectView::Int(b);
    lemma_builtin_method(w, left, st.heap, op);
    assert((seq![left] + seq![right])[0] == left);
    assert((seq![left] + seq![right])[1] == right);
}

} // verus!
