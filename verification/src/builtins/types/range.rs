//! `range` and its iterator.

use std::rc::Rc;
use vstd::prelude::*;
use crate::builtins::function_utils::{init_internal_class, raise_fatal, raise_too_deep, raise_type_error};
use crate::builtins::outcome::{answers, carried_out, join5, views};
use crate::builtins::semantics::{
    advanced,
    iterator_of,
    range_bounds,
    range_iter,
    range_iterator_new,
    range_iterator_next,
    range_new,
    range_of,
    range_repr,
    range_text,
};
use crate::builtins::structure::pyinstance::{InstanceInternal, PyInstance};
use crate::builtins::structure::pyobject::{FuncReturnType, PyMutableObject};
use crate::builtins::types::pyfloat::FloatHost;
use crate::builtins::types::pyint::expect_int;
use crate::pyarena::PyArena;
use crate::text::{int_to_string, share};
use vstd::string::StringExecFns;
use crate::builtins::structure::magic_methods::{empty_methods, py_magic_methods_defaults, PyMagicMethods};
use crate::builtins::structure::native::{NewFuncType, PyInternalFunction, UnaryFuncType};
use crate::builtins::structure::pyclass::PyClass;
use crate::builtins::structure::pyexception::{Exceptions, PyException};
use crate::builtins::structure::pyinstance::{PyInstanceInternal};
use crate::builtins::structure::pyobject::{EmptyFuncReturnType, PyImmutableObject, PyObject};
use crate::text::str_eq;

verus! {

/// The payload of a `range` instance. Its fields can be read, not written.
#[derive(Clone, Copy, Debug, PartialEq, Eq, Structural)]
pub struct RangeInstance {
    pub start: i64,
    pub stop: i64,
    pub step: i64,
}

/// The payload of a range iterator: the value it yields next, and where and
/// how it goes on.
#[derive(Clone, Copy, Debug, PartialEq, Eq, Structural)]
pub struct RangeIteratorInstance {
    pub current: i64,
    pub stop: i64,
    pub step: i64,
}

impl PyInstanceInternal for RangeInstance {
    open spec fn field(&self, key: Seq<char>) -> Option<PyObject> {
        if key == "start"@ {
            Some(PyObject::Immutable(PyImmutableObject::Int(self.start)))
        } else if key == "stop"@ {
            Some(PyObject::Immutable(PyImmutableObject::Int(self.stop)))
        } else if key == "step"@ {
            Some(PyObject::Immutable(PyImmutableObject::Int(self.step)))
        } else {
            None
        }
    }

    open spec fn read_only(&self, key: Seq<char>) -> bool {
        key == "start"@ || key == "stop"@ || key == "step"@
    }

    open spec fn accepts(&self, key: Seq<char>) -> bool {
        false
    }

    open spec fn written(&self, key: Seq<char>, value: PyObject) -> Self {
        *self
    }

    fn set_field(&mut self, key: String, _value: PyObject, exceptions: &Exceptions) -> (r: Option<
        EmptyFuncReturnType,
    >) {
        if str_eq(key.as_str(), "start") || str_eq(key.as_str(), "stop") || str_eq(
            key.as_str(),
            "step",
        ) {
            return Some(
                Err(exceptions.attribute_error.instantiate(String::from_str("readonly attribute"))),
            );
        }
        None
    }

    fn get_field(&self, key: &str) -> (r: Option<PyObject>) {
        if str_eq(key, "start") {
            Some(PyObject::new_int(self.start))
        } else if str_eq(key, "stop") {
            Some(PyObject::new_int(self.stop))
        } else if str_eq(key, "step") {
            Some(PyObject::new_int(self.step))
        } else {
            None
        }
    }
}

impl PyInstanceInternal for RangeIteratorInstance {
    open spec fn field(&self, key: Seq<char>) -> Option<PyObject> {
        None
    }

    open spec fn read_only(&self, key: Seq<char>) -> bool {
        false
    }

    open spec fn accepts(&self, key: Seq<char>) -> bool {
        false
    }

    open spec fn written(&self, key: Seq<char>, value: PyObject) -> Self {
        *self
    }

    fn set_field(&mut self, _key: String, _value: PyObject, _exceptions: &Exceptions) -> (r: Option<
        EmptyFuncReturnType,
    >) {
        None
    }

    fn get_field(&self, _key: &str) -> (r: Option<PyObject>) {
        None
    }
}


/// The magic methods that `range` declares.
pub open spec fn range_methods() -> PyMagicMethods {
    PyMagicMethods {
        __new__: Some(PyInternalFunction::NewFunc(NewFuncType::Range)),
        __repr__: Some(PyInternalFunction::UnaryFunc(UnaryFuncType::RangeRepr)),
        __iter__: Some(PyInternalFunction::UnaryFunc(UnaryFuncType::RangeIter)),
        ..empty_methods()
    }
}

/// The class `range`.
pub fn get_range_class(object_class: Rc<PyClass>) -> (r: PyClass)
    requires
        object_class.is_native(),
    ensures
        r.is_internal_class("range"@, seq![object_class], range_methods()),
        r.is_native(),
{
    let supers = vec![object_class];
    assert(supers@ =~= seq![object_class]);
    PyClass::new_internal(
        "range",
        supers,
        PyMagicMethods {
            __new__: Some(PyInternalFunction::NewFunc(NewFuncType::Range)),
            __repr__: Some(PyInternalFunction::UnaryFunc(UnaryFuncType::RangeRepr)),
            __iter__: Some(PyInternalFunction::UnaryFunc(UnaryFuncType::RangeIter)),
            ..py_magic_methods_defaults()
        },
    )
}

/// The magic methods that `range_iterator` declares.
pub open spec fn range_iterator_methods() -> PyMagicMethods {
    PyMagicMethods {
        __new__: Some(PyInternalFunction::NewFunc(NewFuncType::RangeIterator)),
        __next__: Some(PyInternalFunction::UnaryFunc(UnaryFuncType::RangeIteratorNext)),
        ..empty_methods()
    }
}

/// The class of the iterators over a `range`. It is not exposed by name.
pub fn get_range_iterator_class(object_class: Rc<PyClass>) -> (r: PyClass)
    requires
        object_class.is_native(),
    ensures
        r.is_internal_class("range_iterator"@, seq![object_class], range_iterator_methods()),
        r.is_native(),
{
    let supers = vec![object_class];
    assert(supers@ =~= seq![object_class]);
    PyClass::new_internal(
        "range_iterator",
        supers,
        PyMagicMethods {
            __new__: Some(PyInternalFunction::NewFunc(NewFuncType::RangeIterator)),
            __next__: Some(PyInternalFunction::UnaryFunc(UnaryFuncType::RangeIteratorNext)),
            ..py_magic_methods_defaults()
        },
    )
}


/// The payload of the range that `value` denotes, if it denotes one.
pub fn range_payload(arena: &PyArena, value: &PyObject) -> (r: Option<RangeInstance>)
    ensures
        r == range_of(arena@.heap, value@),
{
    match value {
        PyObject::Mutable(pointer) => match arena.object(*pointer) {
            Some(PyMutableObject::Instance(instance)) => match instance.internal {
                InstanceInternal::Range(range) => Some(range),
                _ => None,
            },
            _ => None,
        },
        _ => None,
    }
}

/// The payload of the range iterator that `value` denotes, if it denotes
/// one.
pub fn iterator_payload(arena: &PyArena, value: &PyObject) -> (r: Option<RangeIteratorInstance>)
    ensures
        r == iterator_of(arena@.heap, value@),
{
    match value {
        PyObject::Mutable(pointer) => match arena.object(*pointer) {
            Some(PyMutableObject::Instance(instance)) => match instance.internal {
                InstanceInternal::RangeIterator(iterator) => Some(iterator),
                _ => None,
            },
            _ => None,
        },
        _ => None,
    }
}

/// The bounds that the arguments of `range` give.
pub fn parse_range_args(arena: &PyArena, args: &[PyObject]) -> (r: Result<RangeInstance, PyException>)
    requires
        arena.wf(),
    ensures
        match range_bounds(arena.world(), arena@.heap, views(args@)) {
            Ok(range) => r == Ok::<RangeInstance, PyException>(range),
            Err(error) => r matches Err(e) && e@ == error,
        },
{
    if args.len() == 0 {
        return Err(
            raise_type_error(arena, String::from_str("range expected at least 1 argument, got 0")),
        );
    }
    let first = expect_int(&args[0], arena)?;
    let mut start: i64 = 0;
    let stop: i64;
    let mut step: i64 = 1;
    if args.len() >= 2 {
        start = first;
        stop = expect_int(&args[1], arena)?;
        if args.len() >= 3 {
            step = expect_int(&args[2], arena)?;
        }
    } else {
        stop = first;
    }
    Ok(RangeInstance { start, stop, step })
}

/// A new range with the bounds that the arguments give: one argument is
/// the stop, two are start and stop, a third is the step.
pub fn range__new__(arena: &mut PyArena, pyclass: Rc<PyClass>, args: &[PyObject]) -> (r: FuncReturnType)
    requires
        old(arena).wf(),
    ensures
        carried_out(
            old(arena),
            final(arena),
            range_new(old(arena).world(), pyclass, views(args@), old(arena)@),
            r,
        ),
{
    let range = parse_range_args(arena, args)?;
    Ok(
        arena.allocate(
            PyMutableObject::Instance(PyInstance::new_empty_attrs(pyclass, InstanceInternal::Range(range))),
        ),
    )
}

/// The text that shows a range.
pub fn range__repr__(arena: &PyArena, pyself: &PyObject) -> (r: FuncReturnType)
    requires
        arena.wf(),
    ensures
        answers(Some(range_repr(arena.world(), arena@.heap, pyself@)), r),
{
    match range_payload(arena, pyself) {
        Some(range) => {
            let start = int_to_string(range.start);
            let stop = int_to_string(range.stop);
            if range.step == 1 {
                Ok(PyObject::new_string(join5("range(", start.as_str(), ", ", stop.as_str(), ")")))
            } else {
                let step = int_to_string(range.step);
                let mut text = join5("range(", start.as_str(), ", ", stop.as_str(), ", ");
                text.append(step.as_str());
                text.append(")");
                assert(text@ =~= range_text(range));
                Ok(PyObject::new_string(text))
            }
        },
        None => Err(raise_fatal(arena, "Instance received is not of RangeInstance type")),
    }
}

/// A new iterator over the range.
pub fn range__iter__<H: FloatHost>(arena: &mut PyArena, host: &H, pyself: &PyObject, fuel: usize) -> (r:
    FuncReturnType)
    requires
        old(arena).wf(),
    ensures
        carried_out(
            old(arena),
            final(arena),
            range_iter(old(arena).world_of(host), pyself@, old(arena)@, fuel as nat),
            r,
        ),
    decreases fuel, 4int, 0int,
{
    if fuel == 0 {
        return Err(raise_too_deep(arena));
    }
    let args = [pyself.clone()];
    assert(views(args@) =~= seq![pyself@]);
    let class = share(&arena.globals.range_iterator_class);
    init_internal_class(class, &args, arena, host, fuel - 1)
}

/// An iterator that stands at the start of the range that is its one
/// argument.
pub fn range_iterator__new__(arena: &mut PyArena, pyclass: Rc<PyClass>, args: &[PyObject]) -> (r:
    FuncReturnType)
    requires
        old(arena).wf(),
    ensures
        carried_out(
            old(arena),
            final(arena),
            range_iterator_new(old(arena).world(), pyclass, views(args@), old(arena)@),
            r,
        ),
{
    if args.len() == 0 {
        return Err(
            raise_type_error(
                arena,
                String::from_str("range_iterator expected at least 1 argument, got 0"),
            ),
        );
    }
    if args.len() != 1 {
        return Err(raise_fatal(arena, "range_iterator expected exactly 1 argument"));
    }
    let range = match range_payload(arena, &args[0]) {
        Some(range) => range,
        None => {
            return Err(raise_fatal(arena, "arg instance should be of RangeInstance type"));
        },
    };
    Ok(
        arena.allocate(
            PyMutableObject::Instance(
                PyInstance::new_empty_attrs(
                    pyclass,
                    InstanceInternal::RangeIterator(
                        RangeIteratorInstance { current: range.start, stop: range.stop, step: range.step },
                    ),
                ),
            ),
        ),
    )
}

/// `current + step`, held at the ends of the integers.
pub fn advance(current: i64, step: i64) -> (r: i64)
    ensures
        r == advanced(current, step),
{
    match current.checked_add(step) {
        Some(next) => next,
        None => if step > 0 {
            i64::MAX
        } else {
            i64::MIN
        },
    }
}

/// The value at which the iterator stands; the iterator moves on by its
/// step. Once it has run past its stop, `StopIteration`.
pub fn range_iterator__next__(arena: &mut PyArena, pyself: &PyObject) -> (r: FuncReturnType)
    requires
        old(arena).wf(),
    ensures
        carried_out(
            old(arena),
            final(arena),
            range_iterator_next(old(arena).world(), pyself@, old(arena)@),
            r,
        ),
{
    let iterator = match iterator_payload(arena, pyself) {
        Some(iterator) => iterator,
        None => {
            return Err(raise_fatal(arena, "instance is not RangeIteratorType"));
        },
    };
    if (iterator.step > 0 && iterator.current >= iterator.stop) || (iterator.step < 0 && iterator.current
        <= iterator.stop) {
        return Err(arena.exceptions.stop_iteration.empty());
    }
    let moved = RangeIteratorInstance { current: advance(iterator.current, iterator.step), ..iterator };
    let pointer = *pyself.expect_mutable();
    let ghost before = arena@;
    let object = pointer.borrow_mut(&mut arena.heap);
    let instance = object.expect_instance_mut();
    instance.internal = InstanceInternal::RangeIterator(moved);
    assert(arena@.frames == before.frames);
    assert(arena@.output == before.output);
    Ok(PyObject::new_int(iterator.current))
}

} // verus!
