//! The built-in classes and functions, and the names under which a program
//! sees them.

use std::rc::Rc;
use vstd::prelude::*;
use vstd::string::StringExecFns;
use crate::builtins::structure::native::{ManyArgFuncType, PyInternalFunction};
use crate::builtins::structure::pyclass::PyClass;
use crate::builtins::structure::pyobject::{PyInternalObject, PyObject};
use crate::builtins::types::object::{get_object_class, object_methods};
use crate::builtins::types::pybool::{bool_methods, get_bool_class};
use crate::builtins::types::pyfloat::{float_methods, get_float_class};
use crate::builtins::types::pyint::{get_int_class, int_methods};
use crate::builtins::types::pynone::{get_none_class, none_methods};
use crate::builtins::types::range::{
    get_range_class,
    get_range_iterator_class,
    range_iterator_methods,
    range_methods,
};
use crate::pyarena::FrameView;
use crate::text::share;

verus! {

/// The built-in classes and the `print` function.
#[derive(Debug)]
pub struct Globals {
    pub object_class: Rc<PyClass>,
    pub none_class: Rc<PyClass>,
    pub int_class: Rc<PyClass>,
    pub bool_class: Rc<PyClass>,
    pub float_class: Rc<PyClass>,
    pub range_class: Rc<PyClass>,
    pub range_iterator_class: Rc<PyClass>,
    pub print_func: PyInternalFunction,
}

/// The class `class` as a value.
pub open spec fn class_value(class: Rc<PyClass>) -> PyObject {
    PyObject::Internal(PyInternalObject::InternalClass(class))
}

impl Globals {
    /// Each class is the finalized built-in class of its name: `bool`
    /// descends from `int`, every other class from `object`.
    pub open spec fn wf(&self) -> bool {
        &&& self.object_class.is_internal_class("object"@, Seq::empty(), object_methods())
        &&& self.none_class.is_internal_class("NoneType"@, seq![self.object_class], none_methods())
        &&& self.int_class.is_internal_class("int"@, seq![self.object_class], int_methods())
        &&& self.bool_class.is_internal_class("bool"@, seq![self.int_class], bool_methods())
        &&& self.float_class.is_internal_class("float"@, seq![self.object_class], float_methods())
        &&& self.range_class.is_internal_class("range"@, seq![self.object_class], range_methods())
        &&& self.range_iterator_class.is_internal_class(
            "range_iterator"@,
            seq![self.object_class],
            range_iterator_methods(),
        )
        &&& self.print_func == PyInternalFunction::ManyArgFunc(ManyArgFuncType::Print)
    }

    /// The names that a program sees, each with its value.
    pub open spec fn exposed(&self) -> Seq<(Seq<char>, PyObject)> {
        seq![
            ("object"@, class_value(self.object_class)),
            ("int"@, class_value(self.int_class)),
            ("bool"@, class_value(self.bool_class)),
            ("float"@, class_value(self.float_class)),
            ("range"@, class_value(self.range_class)),
            ("print"@, PyObject::Internal(PyInternalObject::InternalFunction(self.print_func))),
        ]
    }

    /// The frame after each of `bindings[from..]` was bound by name, in
    /// order.
    pub open spec fn bound_into(frame: FrameView, bindings: Seq<(Seq<char>, PyObject)>, from: int) -> FrameView
        decreases bindings.len() - from,
    {
        if from < 0 || from >= bindings.len() {
            frame
        } else {
            Self::bound_into(
                frame.bound_by_name(bindings[from].0, bindings[from].1@),
                bindings,
                from + 1,
            )
        }
    }

    /// Binding by name leaves the fixed slots as they are.
    pub proof fn lemma_bound_into_keeps_slots(frame: FrameView, bindings: Seq<(Seq<char>, PyObject)>, from: int)
        ensures
            Self::bound_into(frame, bindings, from).fast == frame.fast,
        decreases bindings.len() - from,
    {
        if 0 <= from < bindings.len() {
            Self::lemma_bound_into_keeps_slots(
                frame.bound_by_name(bindings[from].0, bindings[from].1@),
                bindings,
                from + 1,
            );
        }
    }

    /// Builds the built-in classes.
    pub fn new() -> (r: Globals)
        ensures
            r.wf(),
    {
        let object_class = Rc::new(get_object_class());
        let none_class = Rc::new(get_none_class(share(&object_class)));
        let float_class = Rc::new(get_float_class(share(&object_class)));
        let int_class = Rc::new(get_int_class(share(&object_class)));
        let bool_class = Rc::new(get_bool_class(share(&int_class)));
        let range_class = Rc::new(get_range_class(share(&object_class)));
        let range_iterator_class = Rc::new(get_range_iterator_class(share(&object_class)));
        Globals {
            object_class,
            none_class,
            int_class,
            bool_class,
            float_class,
            range_class,
            range_iterator_class,
            print_func: PyInternalFunction::ManyArgFunc(ManyArgFuncType::Print),
        }
    }

    /// The names that a program sees, each with its value.
    pub fn create_exposed_globals(&self) -> (r: Vec<(String, PyObject)>)
        ensures
            r@.len() == self.exposed().len(),
            forall|i: int|
                0 <= i < r@.len() ==> (#[trigger] r@[i]).0@ == self.exposed()[i].0 && r@[i].1
                    == self.exposed()[i].1,
    {
        vec![
            (String::from_str("object"), PyObject::new_internal_class(share(&self.object_class))),
            (String::from_str("int"), PyObject::new_internal_class(share(&self.int_class))),
            (String::from_str("bool"), PyObject::new_internal_class(share(&self.bool_class))),
            (String::from_str("float"), PyObject::new_internal_class(share(&self.float_class))),
            (String::from_str("range"), PyObject::new_internal_class(share(&self.range_class))),
            (String::from_str("print"), PyObject::new_internal_func(self.print_func)),
        ]
    }
}

} // verus!
