//! Values.
//!
//! A value is an immutable scalar, a handle to a mutable object in the
//! heap, a native callable or a class, or a control-flow flag.

use std::rc::Rc;
use vstd::prelude::*;
use vstd::string::StringExecFns;
use crate::builtins::globals::Globals;
use crate::builtins::structure::magic_methods::PyMagicMethod;
use crate::builtins::structure::native::PyInternalFunction;
use crate::builtins::structure::pyexception::Exceptions;
use crate::pyarena::PyArena;
use crate::builtins::structure::pyclass::PyClass;
use crate::builtins::structure::pyexception::PyException;
use crate::builtins::structure::pyinstance::{PyInstance, PyInstanceInternal};
use crate::parser::CodeBlock;
use crate::text::share;

verus! {

/// A value.
#[derive(Debug)]
pub enum PyObject {
    Immutable(PyImmutableObject),
    Mutable(PyPointer),
    Internal(PyInternalObject),
    IteratorFlag(PyIteratorFlag),
}

/// An immutable scalar. A float is held as the bits of its IEEE 754 double.
#[derive(Debug)]
pub enum PyImmutableObject {
    NoneValue,
    Int(i64),
    Float(u64),
    Bool(bool),
    Str(String),
}

/// A native callable or a class, as a first-class value.
#[derive(Debug)]
pub enum PyInternalObject {
    InternalFunction(PyInternalFunction),
    InternalClass(Rc<PyClass>),
}

/// An object with identity and state of its own; it lives in the heap.
#[derive(Debug)]
pub enum PyMutableObject {
    Instance(PyInstance),
    Function(PyFunction),
}

/// A function defined in the language.
#[derive(Debug)]
pub struct PyFunction {
    pub name: String,
    pub args: Vec<String>,
    pub body: Vec<CodeBlock>,
}

/// A signal that steers a loop, carried where a value is carried.
#[derive(Clone, Copy, Debug, PartialEq, Eq, Structural)]
pub enum PyIteratorFlag {
    Break,
    Continue,
    StopIteration,
}

/// What a value is, apart from how its text is stored.
pub enum PyObjectView {
    NoneValue,
    Int(i64),
    Float(u64),
    Bool(bool),
    Str(Seq<char>),
    Mutable(PyPointer),
    Function(PyInternalFunction),
    Class(Rc<PyClass>),
    Flag(PyIteratorFlag),
}

impl View for PyObject {
    type V = PyObjectView;

    open spec fn view(&self) -> PyObjectView {
        match self {
            PyObject::Immutable(PyImmutableObject::NoneValue) => PyObjectView::NoneValue,
            PyObject::Immutable(PyImmutableObject::Int(value)) => PyObjectView::Int(*value),
            PyObject::Immutable(PyImmutableObject::Float(bits)) => PyObjectView::Float(*bits),
            PyObject::Immutable(PyImmutableObject::Bool(value)) => PyObjectView::Bool(*value),
            PyObject::Immutable(PyImmutableObject::Str(text)) => PyObjectView::Str(text@),
            PyObject::Mutable(pointer) => PyObjectView::Mutable(*pointer),
            PyObject::Internal(PyInternalObject::InternalFunction(func)) => PyObjectView::Function(*func),
            PyObject::Internal(PyInternalObject::InternalClass(class)) => PyObjectView::Class(*class),
            PyObject::IteratorFlag(flag) => PyObjectView::Flag(*flag),
        }
    }
}

/// What a function of the runtime returns: a value, or the exception raised.
pub type FuncReturnType = Result<PyObject, PyException>;

/// What a function of the runtime returns that has no value to give.
pub type EmptyFuncReturnType = Result<(), PyException>;

/// The identity of a mutable object: its place in the heap. Two handles
/// denote the same object exactly when they are equal.
#[derive(Clone, Copy, Debug, PartialEq, Eq, Structural)]
pub struct PyPointer {
    pub slot: usize,
}

/// The store of the mutable objects. An object keeps its place for as long as
/// the heap lives.
#[derive(Debug)]
pub struct Heap {
    pub objects: Vec<PyMutableObject>,
}

impl View for Heap {
    type V = Seq<PyMutableObject>;

    open spec fn view(&self) -> Seq<PyMutableObject> {
        self.objects@
    }
}

impl Heap {
    /// A heap without objects.
    pub fn new() -> (r: Heap)
        ensures
            r@.len() == 0,
    {
        Heap { objects: Vec::new() }
    }
}

impl PyPointer {
    /// Whether the handle denotes an object of `heap`.
    pub open spec fn is_in(self, heap: Heap) -> bool {
        self.slot < heap@.len()
    }

    /// Stores `value` as a new object of `heap` and returns its handle. The
    /// objects that were there keep their places and states.
    pub fn new(value: PyMutableObject, heap: &mut Heap) -> (r: PyPointer)
        ensures
            final(heap)@ == old(heap)@.push(value),
            r.slot == old(heap)@.len(),
    {
        let slot = heap.objects.len();
        heap.objects.push(value);
        PyPointer { slot }
    }

    /// The object that the handle denotes.
    pub fn borrow<'a>(&self, heap: &'a Heap) -> (r: &'a PyMutableObject)
        requires
            self.is_in(*heap),
        ensures
            *r == heap@[self.slot as int],
    {
        &heap.objects[self.slot]
    }

    /// The object that the handle denotes, for writing: what the caller
    /// leaves in it is the object's new state, and no other object changes.
    pub fn borrow_mut<'a>(&self, heap: &'a mut Heap) -> (r: &'a mut PyMutableObject)
        requires
            self.is_in(*old(heap)),
        ensures
            *r == old(heap)@[self.slot as int],
            final(heap)@ == old(heap)@.update(self.slot as int, *final(r)),
    {
        &mut heap.objects[self.slot]
    }
}

impl Clone for PyImmutableObject {
    fn clone(&self) -> (r: Self)
        ensures
            r == *self,
    {
        match self {
            PyImmutableObject::NoneValue => PyImmutableObject::NoneValue,
            PyImmutableObject::Int(value) => PyImmutableObject::Int(*value),
            PyImmutableObject::Float(bits) => PyImmutableObject::Float(*bits),
            PyImmutableObject::Bool(value) => PyImmutableObject::Bool(*value),
            PyImmutableObject::Str(text) => PyImmutableObject::Str(text.clone()),
        }
    }
}

impl Clone for PyInternalObject {
    fn clone(&self) -> (r: Self)
        ensures
            r == *self,
    {
        match self {
            PyInternalObject::InternalFunction(func) => PyInternalObject::InternalFunction(*func),
            PyInternalObject::InternalClass(class) => PyInternalObject::InternalClass(share(class)),
        }
    }
}

impl Clone for PyObject {
    fn clone(&self) -> (r: Self)
        ensures
            r == *self,
    {
        match self {
            PyObject::Immutable(inner) => PyObject::Immutable(inner.clone()),
            PyObject::Mutable(pointer) => PyObject::Mutable(*pointer),
            PyObject::Internal(inner) => PyObject::Internal(inner.clone()),
            PyObject::IteratorFlag(flag) => PyObject::IteratorFlag(*flag),
        }
    }
}

impl PyObject {
    pub fn new_string(value: String) -> (r: Self)
        ensures
            r == PyObject::Immutable(PyImmutableObject::Str(value)),
    {
        Self::new_immutable(PyImmutableObject::Str(value))
    }

    pub fn new_int(value: i64) -> (r: Self)
        ensures
            r == PyObject::Immutable(PyImmutableObject::Int(value)),
    {
        Self::new_immutable(PyImmutableObject::Int(value))
    }

    /// The float whose IEEE 754 double has the bits `value`.
    pub fn new_float(value: u64) -> (r: Self)
        ensures
            r == PyObject::Immutable(PyImmutableObject::Float(value)),
    {
        Self::new_immutable(PyImmutableObject::Float(value))
    }

    pub fn new_internal_class(value: Rc<PyClass>) -> (r: Self)
        ensures
            r == PyObject::Internal(PyInternalObject::InternalClass(value)),
    {
        Self::new_internal(PyInternalObject::InternalClass(value))
    }

    pub fn new_internal_func(value: PyInternalFunction) -> (r: Self)
        ensures
            r == PyObject::Internal(PyInternalObject::InternalFunction(value)),
    {
        Self::new_internal(PyInternalObject::InternalFunction(value))
    }

    /// Stores `value` in `heap` and returns the value that denotes it.
    pub fn new_mutable(value: PyMutableObject, heap: &mut Heap) -> (r: Self)
        ensures
            final(heap)@ == old(heap)@.push(value),
            r == PyObject::Mutable(PyPointer { slot: old(heap)@.len() as usize }),
    {
        PyObject::Mutable(PyPointer::new(value, heap))
    }

    pub fn new_immutable(value: PyImmutableObject) -> (r: Self)
        ensures
            r == PyObject::Immutable(value),
    {
        PyObject::Immutable(value)
    }

    pub fn new_internal(value: PyInternalObject) -> (r: Self)
        ensures
            r == PyObject::Internal(value),
    {
        PyObject::Internal(value)
    }

    pub fn break_() -> (r: Self)
        ensures
            r == PyObject::IteratorFlag(PyIteratorFlag::Break),
    {
        PyObject::IteratorFlag(PyIteratorFlag::Break)
    }

    pub fn continue_() -> (r: Self)
        ensures
            r == PyObject::IteratorFlag(PyIteratorFlag::Continue),
    {
        PyObject::IteratorFlag(PyIteratorFlag::Continue)
    }

    pub fn create_new_none() -> (r: Self)
        ensures
            r == PyObject::Immutable(PyImmutableObject::NoneValue),
    {
        PyObject::Immutable(PyImmutableObject::NoneValue)
    }

    pub fn create_new_bool(value: bool) -> (r: Self)
        ensures
            r == PyObject::Immutable(PyImmutableObject::Bool(value)),
    {
        Self::new_immutable(PyImmutableObject::Bool(value))
    }

    pub fn stop_iteration() -> (r: Self)
        ensures
            r == PyObject::IteratorFlag(PyIteratorFlag::StopIteration),
    {
        PyObject::IteratorFlag(PyIteratorFlag::StopIteration)
    }

    /// The scalar that an immutable value holds.
    pub fn expect_immutable(&self) -> (r: &PyImmutableObject)
        requires
            self is Immutable,
        ensures
            *self == PyObject::Immutable(*r),
    {
        match self {
            PyObject::Immutable(inner) => inner,
            _ => unreached(),
        }
    }

    /// The callable or class that an internal value holds.
    pub fn expect_internal(&self) -> (r: &PyInternalObject)
        requires
            self is Internal,
        ensures
            *self == PyObject::Internal(*r),
    {
        match self {
            PyObject::Internal(inner) => inner,
            _ => unreached(),
        }
    }

    /// The handle that a mutable value holds.
    pub fn expect_mutable(&self) -> (r: &PyPointer)
        requires
            self is Mutable,
        ensures
            *self == PyObject::Mutable(*r),
    {
        match self {
            PyObject::Mutable(inner) => inner,
            _ => unreached(),
        }
    }
}

impl PyImmutableObject {
    /// The class of the scalar. Strings have no class.
    pub open spec fn class_in(&self, globals: &Globals) -> Option<Rc<PyClass>> {
        match self {
            PyImmutableObject::NoneValue => Some(globals.none_class),
            PyImmutableObject::Int(_) => Some(globals.int_class),
            PyImmutableObject::Float(_) => Some(globals.float_class),
            PyImmutableObject::Bool(_) => Some(globals.bool_class),
            PyImmutableObject::Str(_) => None,
        }
    }

    /// The class of the scalar.
    pub fn get_class<'a>(&self, arena: &'a PyArena) -> (r: &'a Rc<PyClass>)
        requires
            !(self is Str),
        ensures
            Some(*r) == self.class_in(&arena.globals),
    {
        match self {
            PyImmutableObject::NoneValue => &arena.globals.none_class,
            PyImmutableObject::Int(_) => &arena.globals.int_class,
            PyImmutableObject::Float(_) => &arena.globals.float_class,
            PyImmutableObject::Bool(_) => &arena.globals.bool_class,
            PyImmutableObject::Str(_) => unreached(),
        }
    }

    /// The text that a string holds.
    pub fn expect_string(&self) -> (r: String)
        requires
            self is Str,
        ensures
            *self == PyImmutableObject::Str(r),
    {
        match self {
            PyImmutableObject::Str(text) => text.clone(),
            _ => unreached(),
        }
    }

    /// The value that the scalar's class gives for `py_magic_method`.
    pub fn get_magic_method(&self, py_magic_method: &PyMagicMethod, arena: &PyArena) -> (r: Option<PyObject>)
        ensures
            r == match self.class_in(&arena.globals) {
                Some(class) => class.magic_value(*py_magic_method),
                None => None,
            },
    {
        match self {
            PyImmutableObject::Str(_) => None,
            _ => self.get_class(arena).search_for_magic_method(*py_magic_method),
        }
    }
}

impl PyInternalObject {
    /// The native callable that the value holds.
    pub fn expect_internal_slot(&self) -> (r: PyInternalFunction)
        requires
            self is InternalFunction,
        ensures
            *self == PyInternalObject::InternalFunction(r),
    {
        match self {
            PyInternalObject::InternalFunction(slot) => *slot,
            _ => unreached(),
        }
    }

    /// The native callable that the value holds.
    pub fn expect_internal_function(&self) -> (r: PyInternalFunction)
        requires
            self is InternalFunction,
        ensures
            *self == PyInternalObject::InternalFunction(r),
    {
        self.expect_internal_slot()
    }
}

impl PyMutableObject {
    /// The class of the object. Functions have no class.
    pub open spec fn class(&self) -> Option<Rc<PyClass>> {
        match self {
            PyMutableObject::Instance(instance) => Some(instance.class),
            PyMutableObject::Function(_) => None,
        }
    }

    /// The class of an instance.
    pub fn get_class(&self) -> (r: &Rc<PyClass>)
        requires
            self is Instance,
        ensures
            Some(*r) == self.class(),
    {
        match self {
            PyMutableObject::Instance(py_instance) => py_instance.get_class(),
            PyMutableObject::Function(_) => unreached(),
        }
    }

    /// The value of the field `name` of an instance.
    pub fn get_field(&self, name: &str, exceptions: &Exceptions) -> (r: FuncReturnType)
        requires
            self is Instance,
            exceptions.wf(),
        ensures
            match self->Instance_0.field_value(name@) {
                Some(value) => r == Ok::<PyObject, PyException>(value),
                None => r matches Err(e) && e@ == crate::builtins::structure::pyinstance::no_attribute_error(
                    *exceptions,
                    self->Instance_0.class.name_of(),
                    name@,
                ),
            },
    {
        match self {
            PyMutableObject::Instance(instance) => instance.get_field(name, exceptions),
            PyMutableObject::Function(_) => unreached(),
        }
    }

    /// The instance that the object is.
    pub fn expect_instance(&self) -> (r: &PyInstance)
        requires
            self is Instance,
        ensures
            *r == self->Instance_0,
    {
        match self {
            PyMutableObject::Instance(instance) => instance,
            _ => unreached(),
        }
    }

    /// The instance that the object is, for writing.
    pub fn expect_instance_mut(&mut self) -> (r: &mut PyInstance)
        requires
            *old(self) is Instance,
        ensures
            *r == old(self)->Instance_0,
            *final(self) == PyMutableObject::Instance(*final(r)),
    {
        match self {
            PyMutableObject::Instance(instance) => instance,
            _ => unreached(),
        }
    }

    /// The value that the object's class gives for `py_magic_method`.
    pub fn get_magic_method(&self, py_magic_method: &PyMagicMethod) -> (r: Option<PyObject>)
        ensures
            r == match self.class() {
                Some(class) => class.magic_value(*py_magic_method),
                None => None,
            },
    {
        match self {
            PyMutableObject::Instance(instance) => instance.get_class().search_for_magic_method(
                *py_magic_method,
            ),
            PyMutableObject::Function(_) => None,
        }
    }
}

impl PyObjectView {
    /// The class of the value: that of a scalar by its kind, that of an
    /// instance as the heap holds it. Strings, callables, classes, flags and
    /// handles that denote nothing have none.
    pub open spec fn class_of(self, globals: &Globals, heap: Seq<PyMutableObject>) -> Option<Rc<PyClass>> {
        match self {
            PyObjectView::NoneValue => Some(globals.none_class),
            PyObjectView::Int(_) => Some(globals.int_class),
            PyObjectView::Float(_) => Some(globals.float_class),
            PyObjectView::Bool(_) => Some(globals.bool_class),
            PyObjectView::Mutable(pointer) => if pointer.slot < heap.len() {
                heap[pointer.slot as int].class()
            } else {
                None
            },
            _ => None,
        }
    }

    /// The name of the value's type as error messages show it: the name of
    /// its class where it has one.
    pub open spec fn kind_name(self, globals: &Globals, heap: Seq<PyMutableObject>) -> Seq<char> {
        match self.class_of(globals, heap) {
            Some(class) => class.name_of(),
            None => match self {
                PyObjectView::Mutable(_) => "function"@,
                PyObjectView::Function(_) => "builtin_function_or_method"@,
                PyObjectView::Class(_) => "type"@,
                PyObjectView::Flag(_) => "flag"@,
                _ => "str"@,
            },
        }
    }

    /// The value that the value's class gives for `m`; `None` where the
    /// value has no class or the class gives none.
    pub open spec fn method_of(self, m: PyMagicMethod, globals: &Globals, heap: Seq<PyMutableObject>) -> Option<
        PyObjectView,
    > {
        match self.class_of(globals, heap) {
            Some(class) => match class.magic_value(m) {
                Some(value) => Some(value@),
                None => None,
            },
            None => None,
        }
    }
}

impl PyObject {
    /// The class of the value, if it has one.
    pub fn find_class(&self, arena: &PyArena) -> (r: Option<Rc<PyClass>>)
        ensures
            r == self@.class_of(&arena.globals, arena@.heap),
    {
        match self {
            PyObject::Immutable(inner) => match inner {
                PyImmutableObject::Str(_) => None,
                _ => Some(share(inner.get_class(arena))),
            },
            PyObject::Mutable(pointer) => match arena.object(*pointer) {
                Some(PyMutableObject::Instance(instance)) => Some(share(instance.get_class())),
                _ => None,
            },
            PyObject::Internal(_) => None,
            PyObject::IteratorFlag(_) => None,
        }
    }

    /// The value that the value's class gives for `py_magic_method`.
    pub fn get_magic_method(&self, py_magic_method: &PyMagicMethod, arena: &PyArena) -> (r: Option<PyObject>)
        ensures
            match r {
                Some(value) => Some(value@) == self@.method_of(*py_magic_method, &arena.globals, arena@.heap),
                None => self@.method_of(*py_magic_method, &arena.globals, arena@.heap) is None,
            },
    {
        match self.find_class(arena) {
            Some(class) => class.search_for_magic_method(*py_magic_method),
            None => None,
        }
    }

    /// The class of a value that has one.
    pub fn clone_class(&self, arena: &PyArena) -> (r: Rc<PyClass>)
        requires
            self@.class_of(&arena.globals, arena@.heap) is Some,
        ensures
            Some(r) == self@.class_of(&arena.globals, arena@.heap),
    {
        match self.find_class(arena) {
            Some(class) => class,
            None => unreached(),
        }
    }

    /// The name of the value's type as error messages show it.
    pub fn class_name(&self, arena: &PyArena) -> (r: String)
        ensures
            r@ == self@.kind_name(&arena.globals, arena@.heap),
    {
        match self.find_class(arena) {
            Some(class) => class.get_name().clone(),
            None => match self {
                PyObject::Immutable(_) => String::from_str("str"),
                PyObject::Mutable(_) => String::from_str("function"),
                PyObject::Internal(PyInternalObject::InternalFunction(_)) => String::from_str(
                    "builtin_function_or_method",
                ),
                PyObject::Internal(PyInternalObject::InternalClass(_)) => String::from_str("type"),
                PyObject::IteratorFlag(_) => String::from_str("flag"),
            },
        }
    }
}

impl PyObject {
    /// The instance that the value denotes in `heap`, if it denotes one.
    pub open spec fn instance_in(&self, heap: Seq<PyMutableObject>) -> Option<PyInstance> {
        match self {
            PyObject::Mutable(pointer) => if pointer.slot < heap.len() {
                match heap[pointer.slot as int] {
                    PyMutableObject::Instance(instance) => Some(instance),
                    _ => None,
                }
            } else {
                None
            },
            _ => None,
        }
    }

    /// The attribute `name` of the value: the field of an instance, and
    /// for any other value what its class gives under that name.
    pub open spec fn attribute_value(&self, name: Seq<char>, globals: &Globals, heap: Seq<PyMutableObject>) -> Option<
        PyObject,
    > {
        match self.instance_in(heap) {
            Some(instance) => instance.field_value(name),
            None => match self@.class_of(globals, heap) {
                Some(class) => class.method_value(name),
                None => None,
            },
        }
    }

    /// Whether the value is the flag `flag`.
    pub fn is_flag_type(&self, flag: PyIteratorFlag) -> (r: bool)
        ensures
            r == (self@ == PyObjectView::Flag(flag)),
    {
        match self {
            PyObject::IteratorFlag(own) => *own == flag,
            _ => false,
        }
    }

    /// Whether the value is an ordinary value, no flag.
    pub fn is_not_flag(&self) -> (r: bool)
        ensures
            r == !(self@ is Flag),
    {
        match self {
            PyObject::IteratorFlag(_) => false,
            _ => true,
        }
    }

    /// The attribute `name` of the value, if it has one.
    pub fn get_attribute(&self, name: &str, arena: &PyArena) -> (r: Option<PyObject>)
        requires
            arena.wf(),
        ensures
            r == self.attribute_value(name@, &arena.globals, arena@.heap),
    {
        if let PyObject::Mutable(pointer) = self {
            if let Some(PyMutableObject::Instance(instance)) = arena.object(*pointer) {
                return match instance.get_field(name, &arena.exceptions) {
                    Ok(value) => Some(value),
                    Err(_) => None,
                };
            }
        }
        match self.find_class(arena) {
            Some(class) => class.search_for_method(name),
            None => None,
        }
    }

    /// Writes `value` to the field `name` of the instance that the value
    /// denotes. Every holder of a handle to the instance sees the write. No
    /// other object changes.
    pub fn set_attribute(&self, name: String, value: PyObject, arena: &mut PyArena) -> (r:
        EmptyFuncReturnType)
        requires
            old(arena).wf(),
            self.instance_in(old(arena)@.heap) is Some,
        ensures
            final(arena).wf(),
            final(arena).same_world(old(arena)),
            final(arena)@.frames == old(arena)@.frames,
            final(arena)@.output == old(arena)@.output,
            final(arena)@.heap.len() == old(arena)@.heap.len(),
            forall|i: int|
                0 <= i < old(arena)@.heap.len() && i != self->Mutable_0.slot ==> final(arena)@.heap[i] == old(
                    arena,
                )@.heap[i],
            self.instance_in(final(arena)@.heap) is Some,
            ({
                let before = self.instance_in(old(arena)@.heap).unwrap();
                let after = self.instance_in(final(arena)@.heap).unwrap();
                &&& after.class == before.class
                &&& before.internal.read_only(name@) ==> r is Err && after == before
                &&& !before.internal.read_only(name@) && before.internal.accepts(name@) ==> r is Ok && after.internal
                    == before.internal.written(name@, value)
                &&& !before.internal.read_only(name@) && !before.internal.accepts(name@) ==> match before.attributes {
                    Some(attributes) => r is Ok && (after.attributes matches Some(written) && written@
                        == attributes@.insert(name@, value)),
                    None => r is Err && after.attributes is None,
                }
            }),
    {
        let pointer = *self.expect_mutable();
        let ghost before = arena@;
        let object = pointer.borrow_mut(&mut arena.heap);
        let instance = object.expect_instance_mut();
        let result = instance.set_field(name, value, &arena.exceptions);
        assert(arena@.frames == before.frames);
        assert(arena@.output == before.output);
        result
    }
}

} // verus!
