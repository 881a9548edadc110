//! The call protocol: calling natives by their shape, and constructing
//! instances of classes.

use std::rc::Rc;
use vstd::prelude::*;
use vstd::slice::slice_subrange;
use vstd::string::StringExecFns;
use crate::builtins::functions::print::py_print;
use crate::builtins::outcome::{carried_out, join3, join5, views};
use crate::builtins::semantics::{
    arity_error,
    call,
    call_method,
    construct,
    fatal,
    lacks_method,
    native,
    new_native,
    not_callable,
    shape_accepts,
    too_deep,
    type_error,
    unary_native,
};
use crate::builtins::structure::magic_methods::PyMagicMethod;
use crate::builtins::structure::native::{
    BivariateFuncType,
    InitFuncType,
    NewFuncType,
    PyInternalFunction,
    UnaryFuncType,
};
use crate::builtins::structure::pyclass::PyClass;
use crate::builtins::structure::pyexception::PyException;
use crate::builtins::structure::pyobject::{FuncReturnType, PyInternalObject, PyObject};
use crate::builtins::types::object::{object__init__, object__new__, object__repr__, object__str__};
use crate::builtins::types::pybool::{bool__bool__, bool__int__, bool__new__, bool__repr__};
use crate::builtins::types::pyfloat::{
    float__add__,
    float__mul__,
    float__new__,
    float__pow__,
    float__repr__,
    float__rpow__,
    float__rsub__,
    float__rtruediv__,
    float__sub__,
    float__truediv__,
    FloatHost,
};
use crate::builtins::types::pyint::{
    int__add__,
    int__eq__,
    int__ge__,
    int__gt__,
    int__le__,
    int__lt__,
    int__mul__,
    int__ne__,
    int__new__,
    int__pow__,
    int__repr__,
    int__rpow__,
    int__rsub__,
    int__rtruediv__,
    int__sub__,
    int__truediv__,
};
use crate::builtins::types::pynone::{none__new__, none__repr__};
use crate::builtins::types::range::{
    range__iter__,
    range__new__,
    range__repr__,
    range_iterator__new__,
    range_iterator__next__,
};
use crate::pyarena::PyArena;
use crate::text::{share, usize_to_string};

verus! {

/// A `TypeError` with the message `message`.
pub fn raise_type_error(arena: &PyArena, message: String) -> (e: PyException)
    requires
        arena.wf(),
    ensures
        e@ == type_error(arena.world(), message@),
{
    arena.exceptions.type_error.instantiate(message)
}

/// The error for a violation of the runtime's own contracts.
pub fn raise_fatal(arena: &PyArena, message: &str) -> (e: PyException)
    requires
        arena.wf(),
    ensures
        e@ == fatal(arena.world(), message@),
{
    arena.exceptions.system_error.instantiate(String::from_str(message))
}

/// The error for calls nested deeper than the fuel allows.
pub fn raise_too_deep(arena: &PyArena) -> (e: PyException)
    requires
        arena.wf(),
    ensures
        e@ == too_deep(arena.world()),
{
    arena.exceptions.recursion_error.instantiate(String::from_str("maximum recursion depth exceeded"))
}

/// Whether a native of the shape of `func` can be called with `count`
/// arguments.
pub fn accepts(func: &PyInternalFunction, count: usize) -> (r: bool)
    ensures
        r == shape_accepts(*func, count as nat),
{
    match func {
        PyInternalFunction::NewFunc(_) => count >= 1,
        PyInternalFunction::InitFunc(_) => count >= 1,
        PyInternalFunction::UnaryFunc(_) => count == 1,
        PyInternalFunction::BivariateFunc(_) => count == 2,
        PyInternalFunction::ManyArgFunc(_) => true,
    }
}

/// Whether a native of the shape of `func` can be called with a first
/// argument and `count` further ones.
pub fn accepts_after_first(func: &PyInternalFunction, count: usize) -> (r: bool)
    ensures
        r == shape_accepts(*func, count as nat + 1),
{
    match func {
        PyInternalFunction::NewFunc(_) => true,
        PyInternalFunction::InitFunc(_) => true,
        PyInternalFunction::UnaryFunc(_) => count == 0,
        PyInternalFunction::BivariateFunc(_) => count == 1,
        PyInternalFunction::ManyArgFunc(_) => true,
    }
}

fn wrong_arity(arena: &PyArena, func: &PyInternalFunction, count: usize) -> (e: PyException)
    requires
        arena.wf(),
    ensures
        e@ == arity_error(arena.world(), *func, count as nat),
{
    let shape = match func {
        PyInternalFunction::NewFunc(_) => "NewFunc",
        PyInternalFunction::InitFunc(_) => "InitFunc",
        PyInternalFunction::UnaryFunc(_) => "UnaryFunc",
        PyInternalFunction::BivariateFunc(_) => "BivariateFunc",
        PyInternalFunction::ManyArgFunc(_) => "ManyArgFunc",
    };
    let count_text = usize_to_string(count);
    let message = join5("Trying to call ", shape, " function type with ", count_text.as_str(), " arguments");
    arena.exceptions.system_error.instantiate(message)
}

fn cannot_call(arena: &PyArena, func: &PyObject) -> (e: PyException)
    requires
        arena.wf(),
    ensures
        e@ == not_callable(arena.world(), arena@.heap, func@),
{
    let name = func.class_name(arena);
    raise_type_error(arena, join3("'", name.as_str(), "' object is not callable"))
}

/// Calls `func` with `args`. A native is called by its shape, a class is
/// constructed, and any other value raises a `TypeError`. A native whose
/// shape does not take that many arguments ends the evaluation with a
/// `SystemError`.
pub fn call_function<H: FloatHost>(func: &PyObject, args: &[PyObject], arena: &mut PyArena, host: &H, fuel: usize) -> (r:
    FuncReturnType)
    requires
        old(arena).wf(),
    ensures
        carried_out(
            old(arena),
            final(arena),
            call(old(arena).world_of(host), func@, views(args@), old(arena)@, fuel as nat),
            r,
        ),
    decreases fuel, 9int, 0int,
{
    match func {
        PyObject::Internal(PyInternalObject::InternalFunction(internal)) => {
            if accepts(internal, args.len()) {
                eval_internal_func(*internal, args, arena, host, fuel)
            } else {
                Err(wrong_arity(arena, internal, args.len()))
            }
        },
        PyObject::Internal(PyInternalObject::InternalClass(pyclass)) => eval_obj_init(
            share(pyclass),
            args,
            arena,
            host,
            fuel,
        ),
        _ => Err(cannot_call(arena, func)),
    }
}

/// Calls `func` with `first_arg` followed by `args`, as magic methods are
/// called: the first argument need not be put in front of the others. A
/// class cannot be constructed this way.
pub fn call_function_1_arg_min<H: FloatHost>(
    func: &PyObject,
    first_arg: &PyObject,
    args: &[PyObject],
    arena: &mut PyArena,
    host: &H,
    fuel: usize,
) -> (r: FuncReturnType)
    requires
        old(arena).wf(),
    ensures
        carried_out(
            old(arena),
            final(arena),
            call_method(old(arena).world_of(host), func@, first_arg@, views(args@), old(arena)@, fuel as nat),
            r,
        ),
    decreases fuel, 7int, 0int,
{
    match func {
        PyObject::Internal(PyInternalObject::InternalFunction(internal)) => {
            if accepts_after_first(internal, args.len()) {
                eval_internal_func_1_arg_min(*internal, first_arg, args, arena, host, fuel)
            } else {
                Err(wrong_arity(arena, internal, args.len()))
            }
        },
        PyObject::Internal(PyInternalObject::InternalClass(_)) => Err(
            raise_fatal(arena, "This function should not be used to initialize a class"),
        ),
        _ => Err(cannot_call(arena, func)),
    }
}

/// The views of a part of the arguments are that part of their views.
pub proof fn lemma_views_skip(args: Seq<PyObject>, rest: Seq<PyObject>)
    requires
        args.len() >= 1,
        rest == args.subrange(1, args.len() as int),
    ensures
        views(rest) == views(args).skip(1),
{
    assert(views(rest) =~= views(args).skip(1));
}

/// Calls the native `func` with `args`, by its shape.
pub fn eval_internal_func<H: FloatHost>(
    func: PyInternalFunction,
    args: &[PyObject],
    arena: &mut PyArena,
    host: &H,
    fuel: usize,
) -> (r: FuncReturnType)
    requires
        old(arena).wf(),
        shape_accepts(func, args@.len()),
    ensures
        carried_out(
            old(arena),
            final(arena),
            native(old(arena).world_of(host), func, views(args@), old(arena)@, fuel as nat),
            r,
        ),
    decreases fuel, 6int, 1int,
{
    match func {
        PyInternalFunction::NewFunc(which) => {
            let rest = slice_subrange(args, 1, args.len());
            proof {
                lemma_views_skip(args@, rest@);
            }
            match &args[0] {
                PyObject::Internal(PyInternalObject::InternalClass(class)) => call_new(
                    which,
                    share(class),
                    rest,
                    arena,
                    host,
                    fuel,
                ),
                _ => Err(raise_fatal(arena, "Expected class")),
            }
        },
        PyInternalFunction::InitFunc(which) => {
            let rest = slice_subrange(args, 1, args.len());
            proof {
                lemma_views_skip(args@, rest@);
            }
            call_init(which, &args[0], rest, arena)?;
            Ok(PyObject::create_new_none())
        },
        PyInternalFunction::UnaryFunc(which) => call_unary(which, &args[0], arena, host, fuel),
        PyInternalFunction::BivariateFunc(which) => call_bivariate(which, &args[0], &args[1], arena, host),
        PyInternalFunction::ManyArgFunc(_) => py_print(arena, host, args, fuel),
    }
}

/// Calls the native `func` with `first_arg` followed by `args`, by its
/// shape.
pub fn eval_internal_func_1_arg_min<H: FloatHost>(
    func: PyInternalFunction,
    first_arg: &PyObject,
    args: &[PyObject],
    arena: &mut PyArena,
    host: &H,
    fuel: usize,
) -> (r: FuncReturnType)
    requires
        old(arena).wf(),
        shape_accepts(func, args@.len() + 1),
    ensures
        carried_out(
            old(arena),
            final(arena),
            native(old(arena).world_of(host), func, seq![first_arg@] + views(args@), old(arena)@, fuel as nat),
            r,
        ),
    decreases fuel, 6int, 2int,
{
    let ghost all = seq![first_arg@] + views(args@);
    proof {
        assert(all[0] == first_arg@);
        assert(all.skip(1) =~= views(args@));
        if args@.len() > 0 {
            assert(all[1] == args@[0]@);
        }
    }
    match func {
        PyInternalFunction::NewFunc(which) => match first_arg {
            PyObject::Internal(PyInternalObject::InternalClass(class)) => call_new(
                which,
                share(class),
                args,
                arena,
                host,
                fuel,
            ),
            _ => Err(raise_fatal(arena, "Expected class")),
        },
        PyInternalFunction::InitFunc(which) => {
            call_init(which, first_arg, args, arena)?;
            Ok(PyObject::create_new_none())
        },
        PyInternalFunction::UnaryFunc(which) => call_unary(which, first_arg, arena, host, fuel),
        PyInternalFunction::BivariateFunc(which) => call_bivariate(which, first_arg, &args[0], arena, host),
        PyInternalFunction::ManyArgFunc(_) => {
            let mut all_args: Vec<PyObject> = Vec::new();
            all_args.push(first_arg.clone());
            let mut i: usize = 0;
            assert(views(all_args@) =~= seq![first_arg@] + views(args@.take(0)));
            while i < args.len()
                invariant
                    i <= args.len(),
                    views(all_args@) == seq![first_arg@] + views(args@.take(i as int)),
                decreases args.len() - i,
            {
                let ghost gathered = all_args@;
                all_args.push(args[i].clone());
                assert(views(all_args@) =~= views(gathered).push(args@[i as int]@));
                assert(args@.take(i + 1) =~= args@.take(i as int).push(args@[i as int]));
                assert(views(args@.take(i + 1)) =~= views(args@.take(i as int)).push(args@[i as int]@));
                assert(views(all_args@) =~= seq![first_arg@] + views(args@.take(i + 1)));
                i += 1;
            }
            assert(args@.take(i as int) =~= args@);
            py_print(arena, host, all_args.as_slice(), fuel)
        },
    }
}

/// Calls a native of the class-constructor shape.
pub fn call_new<H: FloatHost>(
    which: NewFuncType,
    class: Rc<PyClass>,
    args: &[PyObject],
    arena: &mut PyArena,
    host: &H,
    fuel: usize,
) -> (r: FuncReturnType)
    requires
        old(arena).wf(),
    ensures
        carried_out(
            old(arena),
            final(arena),
            new_native(old(arena).world_of(host), which, class, views(args@), old(arena)@, fuel as nat),
            r,
        ),
    decreases fuel, 5int, 0int,
{
    match which {
        NewFuncType::Object => object__new__(arena, class, args),
        NewFuncType::Int => int__new__(arena, host, class, args, fuel),
        NewFuncType::Float => float__new__(arena, host, class, args, fuel),
        NewFuncType::Bool => bool__new__(arena, host, class, args, fuel),
        NewFuncType::NoneType => none__new__(arena, class, args),
        NewFuncType::Range => range__new__(arena, class, args),
        NewFuncType::RangeIterator => range_iterator__new__(arena, class, args),
    }
}

/// Calls a native of the instance-initializer shape.
pub fn call_init(which: InitFuncType, instance: &PyObject, args: &[PyObject], arena: &PyArena) -> (r: Result<
    (),
    PyException,
>)
    requires
        arena.wf(),
    ensures
        crate::builtins::outcome::answers(
            Some(crate::builtins::semantics::init_native(arena.world(), which, instance@, views(args@), arena@)),
            r,
        ),
{
    match which {
        InitFuncType::Object => object__init__(arena, instance, args),
    }
}

/// Calls a native of the one-argument shape.
pub fn call_unary<H: FloatHost>(which: UnaryFuncType, value: &PyObject, arena: &mut PyArena, host: &H, fuel: usize) -> (r:
    FuncReturnType)
    requires
        old(arena).wf(),
    ensures
        carried_out(
            old(arena),
            final(arena),
            unary_native(old(arena).world_of(host), which, value@, old(arena)@, fuel as nat),
            r,
        ),
    decreases fuel, 5int, 0int,
{
    match which {
        UnaryFuncType::ObjectRepr => object__repr__(arena, value),
        UnaryFuncType::ObjectStr => object__str__(arena, host, value, fuel),
        UnaryFuncType::IntRepr => int__repr__(arena, value),
        UnaryFuncType::FloatRepr => float__repr__(arena, host, value),
        UnaryFuncType::BoolRepr => bool__repr__(arena, value),
        UnaryFuncType::BoolBool => bool__bool__(arena, value),
        UnaryFuncType::BoolInt => bool__int__(arena, value),
        UnaryFuncType::NoneRepr => none__repr__(arena, value),
        UnaryFuncType::RangeRepr => range__repr__(arena, value),
        UnaryFuncType::RangeIter => range__iter__(arena, host, value, fuel),
        UnaryFuncType::RangeIteratorNext => range_iterator__next__(arena, value),
    }
}

/// Calls a native of the two-argument shape. None of them touches the
/// arena.
pub fn call_bivariate<H: FloatHost>(
    which: BivariateFuncType,
    left: &PyObject,
    right: &PyObject,
    arena: &PyArena,
    host: &H,
) -> (r: FuncReturnType)
    requires
        arena.wf(),
    ensures
        crate::builtins::outcome::answers(
            crate::builtins::semantics::binary_native(arena.world_of(host), arena@.heap, which, left@, right@),
            r,
        ),
{
    match which {
        BivariateFuncType::IntAdd => int__add__(arena, left, right),
        BivariateFuncType::IntSub => int__sub__(arena, left, right),
        BivariateFuncType::IntRsub => int__rsub__(arena, left, right),
        BivariateFuncType::IntMul => int__mul__(arena, left, right),
        BivariateFuncType::IntTrueDiv => int__truediv__(arena, host, left, right),
        BivariateFuncType::IntRtrueDiv => int__rtruediv__(arena, host, left, right),
        BivariateFuncType::IntPow => int__pow__(arena, host, left, right),
        BivariateFuncType::IntRpow => int__rpow__(arena, host, left, right),
        BivariateFuncType::IntEq => int__eq__(arena, left, right),
        BivariateFuncType::IntNe => int__ne__(arena, left, right),
        BivariateFuncType::IntLt => int__lt__(arena, left, right),
        BivariateFuncType::IntLe => int__le__(arena, left, right),
        BivariateFuncType::IntGt => int__gt__(arena, left, right),
        BivariateFuncType::IntGe => int__ge__(arena, left, right),
        BivariateFuncType::FloatAdd => float__add__(arena, host, left, right),
        BivariateFuncType::FloatSub => float__sub__(arena, host, left, right),
        BivariateFuncType::FloatRsub => float__rsub__(arena, host, left, right),
        BivariateFuncType::FloatMul => float__mul__(arena, host, left, right),
        BivariateFuncType::FloatTrueDiv => float__truediv__(arena, host, left, right),
        BivariateFuncType::FloatRtrueDiv => float__rtruediv__(arena, host, left, right),
        BivariateFuncType::FloatPow => float__pow__(arena, host, left, right),
        BivariateFuncType::FloatRpow => float__rpow__(arena, host, left, right),
    }
}

fn without_method(arena: &PyArena, class: &Rc<PyClass>, m: PyMagicMethod) -> (e: PyException)
    requires
        arena.wf(),
    ensures
        e@ == lacks_method(arena.world(), *class, m),
{
    let mut message = join3(class.get_name().as_str(), " has no ", m.as_str());
    message.append(" method");
    raise_type_error(arena, message)
}

/// Constructs an instance of `pyclass`: `__new__` makes the instance from
/// the class and the arguments, `__init__` is then called with the
/// instance and the arguments, and the instance is returned, whatever
/// `__init__` returns. A class that lacks one of the two raises a
/// `TypeError` that names the missing method.
pub fn eval_obj_init<H: FloatHost>(pyclass: Rc<PyClass>, args: &[PyObject], arena: &mut PyArena, host: &H, fuel: usize) -> (r:
    FuncReturnType)
    requires
        old(arena).wf(),
    ensures
        carried_out(
            old(arena),
            final(arena),
            construct(old(arena).world_of(host), pyclass, views(args@), old(arena)@, fuel as nat),
            r,
        ),
    decreases fuel, 8int, 0int,
{
    let new_func = match pyclass.search_for_magic_method(PyMagicMethod::New) {
        Some(func) => func,
        None => {
            return Err(without_method(arena, &pyclass, PyMagicMethod::New));
        },
    };
    let init_func = match pyclass.search_for_magic_method(PyMagicMethod::Init) {
        Some(func) => func,
        None => {
            return Err(without_method(arena, &pyclass, PyMagicMethod::Init));
        },
    };
    let class_value = PyObject::new_internal_class(share(&pyclass));
    let new_object = call_function_1_arg_min(&new_func, &class_value, args, arena, host, fuel)?;
    let _init_rtn = call_function_1_arg_min(&init_func, &new_object, args, arena, host, fuel)?;
    Ok(new_object)
}

/// Constructs an instance of the internal class `pyclass`.
pub fn init_internal_class<H: FloatHost>(
    pyclass: Rc<PyClass>,
    args: &[PyObject],
    arena: &mut PyArena,
    host: &H,
    fuel: usize,
) -> (r: FuncReturnType)
    requires
        old(arena).wf(),
        *pyclass is Internal,
    ensures
        carried_out(
            old(arena),
            final(arena),
            construct(old(arena).world_of(host), pyclass, views(args@), old(arena)@, fuel as nat),
            r,
        ),
    decreases fuel, 8int, 1int,
{
    eval_obj_init(pyclass, args, arena, host, fuel)
}

} // verus!
