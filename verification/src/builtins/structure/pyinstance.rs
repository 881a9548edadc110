//! Instances: an object's class and its storage, which is a native payload
//! or a map of attributes.

use std::rc::Rc;
use vstd::prelude::*;
use vstd::string::StringExecFns;
use crate::builtins::structure::attrs::AttrMap;
use crate::builtins::structure::pyclass::PyClass;
use crate::builtins::structure::pyexception::{Exceptions, PyException, PyExceptionView};
use crate::builtins::structure::pyobject::{EmptyFuncReturnType, FuncReturnType, PyObject};
use crate::builtins::types::range::{RangeInstance, RangeIteratorInstance};

verus! {

/// The payload of an instance of a native type: fields addressed by name.
pub trait PyInstanceInternal: Sized {
    /// The value of the field `key`, where the payload has such a field.
    spec fn field(&self, key: Seq<char>) -> Option<PyObject>;

    /// Whether `key` is a field that cannot be written.
    spec fn read_only(&self, key: Seq<char>) -> bool;

    /// Whether `key` is a field that can be written.
    spec fn accepts(&self, key: Seq<char>) -> bool;

    /// The payload after `value` was written to the field `key`.
    spec fn written(&self, key: Seq<char>, value: PyObject) -> Self;

    /// Writes `value` to the field `key`. `None` says that the payload has
    /// no such field; a read-only field answers with the error.
    fn set_field(&mut self, key: String, value: PyObject, exceptions: &Exceptions) -> (r: Option<
        EmptyFuncReturnType,
    >)
        requires
            exceptions.wf(),
        ensures
            old(self).read_only(key@) ==> *final(self) == *old(self) && (r matches Some(Err(e))
                && e@ == read_only_error(*exceptions)),
            !old(self).read_only(key@) && old(self).accepts(key@) ==> *final(self) == old(self).written(key@, value) && r == Some(Ok::<(), PyException>(())),
            !old(self).read_only(key@) && !old(self).accepts(key@) ==> *final(self) == *old(self)
                && r is None,
    ;

    /// The value of the field `key`; `None` says that the payload has no such
    /// field.
    fn get_field(&self, key: &str) -> (r: Option<PyObject>)
        ensures
            r == self.field(key@),
    ;
}

/// The error that a write to a read-only field raises.
pub open spec fn read_only_error(exceptions: Exceptions) -> PyExceptionView {
    exceptions.attribute_error@.with_message("readonly attribute"@)
}

/// The error that an access to a field raises that the object does not have.
pub open spec fn no_attribute_error(exceptions: Exceptions, class_name: Seq<char>, key: Seq<char>) -> PyExceptionView {
    exceptions.attribute_error@.with_message(
        "'"@ + class_name + "' object has no attribute `"@ + key + "`"@,
    )
}

/// The payload without fields.
#[derive(Clone, Copy, Debug, PartialEq, Eq, Structural)]
pub struct EmptyInternal {}

impl PyInstanceInternal for EmptyInternal {
    open spec fn field(&self, key: Seq<char>) -> Option<PyObject> {
        None
    }

    open spec fn read_only(&self, key: Seq<char>) -> bool {
        false
    }

    open spec fn accepts(&self, key: Seq<char>) -> bool {
        false
    }

    open spec fn written(&self, key: Seq<char>, value: PyObject) -> Self {
        *self
    }

    fn set_field(&mut self, _key: String, _value: PyObject, _exceptions: &Exceptions) -> (r: Option<
        EmptyFuncReturnType,
    >) {
        None
    }

    fn get_field(&self, _key: &str) -> (r: Option<PyObject>) {
        None
    }
}

/// The payload of an instance: that of one of the native types.
#[derive(Clone, Copy, Debug, PartialEq, Eq, Structural)]
pub enum InstanceInternal {
    Empty(EmptyInternal),
    Range(RangeInstance),
    RangeIterator(RangeIteratorInstance),
}

impl PyInstanceInternal for InstanceInternal {
    open spec fn field(&self, key: Seq<char>) -> Option<PyObject> {
        match self {
            InstanceInternal::Empty(inner) => inner.field(key),
            InstanceInternal::Range(inner) => inner.field(key),
            InstanceInternal::RangeIterator(inner) => inner.field(key),
        }
    }

    open spec fn read_only(&self, key: Seq<char>) -> bool {
        match self {
            InstanceInternal::Empty(inner) => inner.read_only(key),
            InstanceInternal::Range(inner) => inner.read_only(key),
            InstanceInternal::RangeIterator(inner) => inner.read_only(key),
        }
    }

    open spec fn accepts(&self, key: Seq<char>) -> bool {
        match self {
            InstanceInternal::Empty(inner) => inner.accepts(key),
            InstanceInternal::Range(inner) => inner.accepts(key),
            InstanceInternal::RangeIterator(inner) => inner.accepts(key),
        }
    }

    open spec fn written(&self, key: Seq<char>, value: PyObject) -> Self {
        match self {
            InstanceInternal::Empty(inner) => InstanceInternal::Empty(inner.written(key, value)),
            InstanceInternal::Range(inner) => InstanceInternal::Range(inner.written(key, value)),
            InstanceInternal::RangeIterator(inner) => InstanceInternal::RangeIterator(
                inner.written(key, value),
            ),
        }
    }

    fn set_field(&mut self, key: String, value: PyObject, exceptions: &Exceptions) -> (r: Option<
        EmptyFuncReturnType,
    >) {
        match self {
            InstanceInternal::Empty(inner) => inner.set_field(key, value, exceptions),
            InstanceInternal::Range(inner) => inner.set_field(key, value, exceptions),
            InstanceInternal::RangeIterator(inner) => inner.set_field(key, value, exceptions),
        }
    }

    fn get_field(&self, key: &str) -> (r: Option<PyObject>) {
        match self {
            InstanceInternal::Empty(inner) => inner.get_field(key),
            InstanceInternal::Range(inner) => inner.get_field(key),
            InstanceInternal::RangeIterator(inner) => inner.get_field(key),
        }
    }
}

/// An instance: its class, fixed at creation, and its storage.
#[derive(Debug)]
pub struct PyInstance {
    pub class: Rc<PyClass>,
    pub attributes: Option<AttrMap>,
    pub internal: InstanceInternal,
}

impl PyInstance {
    /// The value of the field `key`: that of the payload where it has such a
    /// field, else that of the attribute map.
    pub open spec fn field_value(self, key: Seq<char>) -> Option<PyObject> {
        if self.internal.field(key) is Some {
            self.internal.field(key)
        } else {
            match self.attributes {
                Some(attributes) => if attributes@.contains_key(key) {
                    Some(attributes@[key])
                } else {
                    None
                },
                None => None,
            }
        }
    }

    /// An instance of `class` whose storage is the payload `internal`.
    pub fn new_empty_attrs(class: Rc<PyClass>, internal: InstanceInternal) -> (r: PyInstance)
        ensures
            r == (PyInstance { class, attributes: None, internal }),
    {
        PyInstance { class, attributes: None, internal }
    }

    /// An instance of `class` without storage.
    pub fn new_empty(class: Rc<PyClass>) -> (r: PyInstance)
        ensures
            r == (PyInstance {
                class,
                attributes: None,
                internal: InstanceInternal::Empty(EmptyInternal {}),
            }),
    {
        PyInstance { class, attributes: None, internal: InstanceInternal::Empty(EmptyInternal {}) }
    }

    /// An instance of `class` whose storage is an attribute map, empty at
    /// first.
    pub fn new_generic(class: Rc<PyClass>) -> (r: PyInstance)
        ensures
            r.class == class,
            r.attributes matches Some(attributes) && attributes@ == Map::<Seq<char>, PyObject>::empty(),
            r.internal == InstanceInternal::Empty(EmptyInternal {}),
    {
        PyInstance {
            class,
            attributes: Some(AttrMap::new()),
            internal: InstanceInternal::Empty(EmptyInternal {}),
        }
    }

    /// Writes `value` to the field `key`. The payload answers first: a
    /// read-only field raises its error. A field that the payload does not
    /// have goes to the attribute map; an instance without one raises an
    /// `AttributeError` that names the class and the field.
    pub fn set_field(&mut self, key: String, value: PyObject, exceptions: &Exceptions) -> (r:
        EmptyFuncReturnType)
        requires
            exceptions.wf(),
        ensures
            final(self).class == old(self).class,
            old(self).internal.read_only(key@) ==> (r matches Err(e) && e@ == read_only_error(
                *exceptions,
            )) && *final(self) == *old(self),
            !old(self).internal.read_only(key@) && old(self).internal.accepts(key@) ==> r is Ok
                && final(self).internal == old(self).internal.written(key@, value) && final(self).attributes == old(self).attributes,
            !old(self).internal.read_only(key@) && !old(self).internal.accepts(key@) ==> final(self).internal == old(self).internal && match old(self).attributes {
                Some(attributes) => r is Ok && (final(self).attributes matches Some(after)
                    && after@ == attributes@.insert(key@, value)),
                None => (r matches Err(e) && e@ == no_attribute_error(
                    *exceptions,
                    old(self).class.name_of(),
                    key@,
                )) && final(self).attributes is None,
            },
    {
        let ghost name = key@;
        let key_copy = key.clone();
        match self.internal.set_field(key, value.clone(), exceptions) {
            Some(outcome) => outcome,
            None => {
                match &mut self.attributes {
                    Some(attributes) => {
                        attributes.insert(key_copy, value);
                        Ok(())
                    },
                    None => Err(missing_attribute(exceptions, self.class.get_name(), key_copy.as_str())),
                }
            },
        }
    }

    /// The value of the field `key`: that of the payload where it has such a
    /// field, else that of the attribute map. Where neither has it, an
    /// `AttributeError` that names the class and the field.
    pub fn get_field(&self, key: &str, exceptions: &Exceptions) -> (r: FuncReturnType)
        requires
            exceptions.wf(),
        ensures
            match self.field_value(key@) {
                Some(value) => r == Ok::<PyObject, PyException>(value),
                None => r matches Err(e) && e@ == no_attribute_error(
                    *exceptions,
                    self.class.name_of(),
                    key@,
                ),
            },
    {
        let mut attribute = self.internal.get_field(key);
        if attribute.is_none() {
            if let Some(attributes) = &self.attributes {
                attribute = match attributes.get(key) {
                    Some(value) => Some(value.clone()),
                    None => None,
                };
            }
        }
        match attribute {
            Some(value) => Ok(value),
            None => Err(missing_attribute(exceptions, self.class.get_name(), key)),
        }
    }

    /// The class of the instance.
    pub fn get_class(&self) -> (r: &Rc<PyClass>)
        ensures
            *r == self.class,
    {
        &self.class
    }
}

/// The `AttributeError` for a field that an object of the class named
/// `class_name` does not have.
fn missing_attribute(exceptions: &Exceptions, class_name: &String, key: &str) -> (e: PyException)
    requires
        exceptions.wf(),
    ensures
        e@ == no_attribute_error(*exceptions, class_name@, key@),
{
    let mut message = String::from_str("'");
    message.append(class_name.as_str());
    message.append("' object has no attribute `");
    message.append(key);
    message.append("`");
    exceptions.attribute_error.instantiate(message)
}

} // verus!
