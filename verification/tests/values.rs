use treepy::builtins::structure::magic_methods::PyMagicMethod;
use treepy::builtins::structure::native::{BivariateFuncType, NewFuncType, PyInternalFunction, UnaryFuncType};
use treepy::builtins::structure::pyinstance::{InstanceInternal, PyInstance};
use treepy::builtins::structure::pyobject::{
    PyImmutableObject, PyInternalObject, PyIteratorFlag, PyMutableObject, PyObject,
};
use treepy::builtins::types::object::{expect_class, object__init__, object__new__, object__repr__};
use treepy::builtins::types::pybool::{bool__bool__, bool__int__, bool__repr__, expect_bool};
use treepy::builtins::types::pyfloat::{expect_float, float__add__, float__repr__, FloatHost, FloatOp, Text};
use treepy::builtins::types::pyint::{
    expect_int, expect_int_promotion, int__add__, int__eq__, int__mul__, int__rsub__, int__sub__, int__truediv__,
    parse_int_op_func_params,
};
use treepy::builtins::types::pynone::{expect_none, none__new__, none__repr__};
use treepy::builtins::types::range::{
    advance, iterator_payload, range__new__, range_iterator__new__, range_iterator__next__, range_payload,
    RangeInstance, RangeIteratorInstance,
};
use treepy::parser::Variable;
use treepy::pyarena::{Frame, PyArena};
use treepy::text::{int_to_string, usize_to_string};

struct Host;

impl FloatHost for Host {
    fn arith(&self, op: FloatOp, left: u64, right: u64) -> u64 {
        let (a, b) = (f64::from_bits(left), f64::from_bits(right));
        let r = match op {
            FloatOp::Add => a + b,
            FloatOp::Sub => a - b,
            FloatOp::Mul => a * b,
            FloatOp::Div => a / b,
            FloatOp::Pow => a.powf(b),
        };
        r.to_bits()
    }

    fn from_int(&self, value: i64) -> u64 {
        (value as f64).to_bits()
    }

    fn to_int(&self, bits: u64) -> i64 {
        f64::from_bits(bits) as i64
    }

    fn repr(&self, bits: u64) -> String {
        f64::from_bits(bits).to_string()
    }

    fn parse(&self, text: &str) -> Option<u64> {
        text.parse::<f64>().ok().map(f64::to_bits)
    }

    fn arith_of(&self, _op: FloatOp, _left: u64, _right: u64) -> u64 {
        unreachable!()
    }

    fn from_int_of(&self, _value: i64) -> u64 {
        unreachable!()
    }

    fn to_int_of(&self, _bits: u64) -> i64 {
        unreachable!()
    }

    fn repr_of(&self, _bits: u64) -> Text {
        unreachable!()
    }

    fn parse_of(&self, _text: Text) -> Option<u64> {
        unreachable!()
    }
}

fn as_int(value: &PyObject) -> i64 {
    match value {
        PyObject::Immutable(PyImmutableObject::Int(v)) => *v,
        other => panic!("not an int: {:?}", other),
    }
}

fn as_text(value: &PyObject) -> String {
    match value {
        PyObject::Immutable(PyImmutableObject::Str(v)) => v.clone(),
        other => panic!("not a text: {:?}", other),
    }
}

#[test]
fn values_give_what_they_hold() {
    let arena = PyArena::new(0);
    let text = PyObject::new_string("abc".to_string());
    assert_eq!(text.expect_immutable().expect_string(), "abc");
    let func = PyObject::new_internal_func(PyInternalFunction::UnaryFunc(UnaryFuncType::IntRepr));
    assert_eq!(
        func.expect_internal().expect_internal_function(),
        PyInternalFunction::UnaryFunc(UnaryFuncType::IntRepr)
    );
    assert_eq!(
        func.expect_internal().expect_internal_slot(),
        PyInternalFunction::UnaryFunc(UnaryFuncType::IntRepr)
    );
    let class = PyObject::new_internal_class(arena.globals.float_class.clone());
    assert!(matches!(class.expect_internal(), PyInternalObject::InternalClass(_)));
    assert_eq!(expect_class(&class).get_name(), "float");
    assert_eq!(PyObject::new_int(1).clone_class(&arena).get_name(), "int");
    assert_eq!(PyObject::create_new_bool(true).clone_class(&arena).get_name(), "bool");
    assert_eq!(PyObject::create_new_none().clone_class(&arena).get_name(), "NoneType");
    assert_eq!(PyObject::new_float(0).clone_class(&arena).get_name(), "float");
    assert!(text.find_class(&arena).is_none());
    assert!(func.find_class(&arena).is_none());
    assert_eq!(text.class_name(&arena), "str");
    assert_eq!(func.class_name(&arena), "builtin_function_or_method");
    assert_eq!(class.class_name(&arena), "type");
    assert_eq!(PyObject::new_int(1).class_name(&arena), "int");
    assert!(text.get_magic_method(&PyMagicMethod::Repr, &arena).is_none());
    assert!(PyObject::new_int(1).get_magic_method(&PyMagicMethod::Iter, &arena).is_none());
    assert!(matches!(
        PyObject::new_int(1).get_magic_method(&PyMagicMethod::Add { right: true }, &arena),
        Some(PyObject::Internal(PyInternalObject::InternalFunction(PyInternalFunction::BivariateFunc(
            BivariateFuncType::IntAdd
        ))))
    ));
    assert!(matches!(
        PyImmutableObject::Bool(true).get_magic_method(&PyMagicMethod::New, &arena),
        Some(PyObject::Internal(PyInternalObject::InternalFunction(PyInternalFunction::NewFunc(
            NewFuncType::Bool
        ))))
    ));
    assert_eq!(PyImmutableObject::Int(3).get_class(&arena).get_name(), "int");
}

#[test]
fn integer_natives() {
    let arena = PyArena::new(0);
    let i = PyObject::new_int;
    assert_eq!(as_int(&int__add__(&arena, &i(2), &i(3)).unwrap()), 5);
    assert_eq!(as_int(&int__sub__(&arena, &i(2), &i(3)).unwrap()), -1);
    assert_eq!(as_int(&int__rsub__(&arena, &i(2), &i(3)).unwrap()), 1);
    assert_eq!(as_int(&int__mul__(&arena, &i(-4), &i(3)).unwrap()), -12);
    assert_eq!(as_int(&int__add__(&arena, &PyObject::create_new_bool(true), &i(3)).unwrap()), 4);
    assert!(matches!(
        int__eq__(&arena, &i(3), &i(3)).unwrap(),
        PyObject::Immutable(PyImmutableObject::Bool(true))
    ));
    let e = int__add__(&arena, &i(2), &PyObject::new_float(0)).unwrap_err();
    assert!(e.is_same_type(&arena.exceptions.not_implemented_error));
    assert_eq!(e.message, None);
    let e = int__mul__(&arena, &i(i64::MAX), &i(2)).unwrap_err();
    assert!(e.is_same_type(&arena.exceptions.overflow_error));
    assert_eq!(e.message.as_deref(), Some("integer result out of range"));
    let e = int__sub__(&arena, &i(i64::MIN), &i(1)).unwrap_err();
    assert!(e.is_same_type(&arena.exceptions.overflow_error));
    let q = int__truediv__(&arena, &Host, &i(7), &i(2)).unwrap();
    assert!(matches!(q, PyObject::Immutable(PyImmutableObject::Float(b)) if f64::from_bits(b) == 3.5));
    assert_eq!(expect_int(&i(9), &arena).unwrap(), 9);
    let e = expect_int(&PyObject::create_new_bool(true), &arena).unwrap_err();
    assert_eq!(e.message.as_deref(), Some("'bool' object cannot be interpreted as an integer"));
    assert_eq!(expect_int_promotion(&PyObject::create_new_bool(true), &arena).unwrap(), 1);
    assert_eq!(expect_int_promotion(&PyObject::create_new_bool(false), &arena).unwrap(), 0);
    assert!(expect_int_promotion(&PyObject::create_new_none(), &arena).is_err());
    assert_eq!(parse_int_op_func_params(&i(1), &PyObject::create_new_bool(true), &arena).unwrap(), (1, 1));
    assert_eq!(int_to_string(0), "0");
    assert_eq!(int_to_string(-10), "-10");
    assert_eq!(int_to_string(1234567890), "1234567890");
    assert_eq!(int_to_string(i64::MAX), "9223372036854775807");
    assert_eq!(int_to_string(i64::MIN), "-9223372036854775808");
    assert_eq!(usize_to_string(0), "0");
    assert_eq!(usize_to_string(907), "907");
}

#[test]
fn float_bool_and_none_natives() {
    let arena = PyArena::new(0);
    let f = |v: f64| PyObject::new_float(v.to_bits());
    let sum = float__add__(&arena, &Host, &f(1.5), &PyObject::new_int(2)).unwrap();
    assert!(matches!(sum, PyObject::Immutable(PyImmutableObject::Float(b)) if f64::from_bits(b) == 3.5));
    let e = float__add__(&arena, &Host, &f(1.5), &PyObject::create_new_none()).unwrap_err();
    assert!(e.is_same_type(&arena.exceptions.not_implemented_error));
    let e = float__add__(&arena, &Host, &PyObject::new_int(1), &f(1.5)).unwrap_err();
    assert!(e.is_same_type(&arena.exceptions.type_error));
    assert_eq!(e.message.as_deref(), Some("'int' object cannot be interpreted as an float"));
    assert_eq!(as_text(&float__repr__(&arena, &Host, &f(2.5)).unwrap()), "2.5");
    assert_eq!(f64::from_bits(expect_float(&f(2.5), &arena).unwrap()), 2.5);
    assert!(expect_bool(&PyObject::create_new_bool(true), &arena).unwrap());
    let e = expect_bool(&PyObject::new_int(1), &arena).unwrap_err();
    assert_eq!(e.message.as_deref(), Some("'int' object cannot be interpreted as a boolean"));
    assert_eq!(as_text(&bool__repr__(&arena, &PyObject::create_new_bool(true)).unwrap()), "True");
    assert_eq!(as_text(&bool__repr__(&arena, &PyObject::create_new_bool(false)).unwrap()), "False");
    assert_eq!(as_int(&bool__int__(&arena, &PyObject::create_new_bool(true)).unwrap()), 1);
    assert!(matches!(
        bool__bool__(&arena, &PyObject::create_new_bool(false)).unwrap(),
        PyObject::Immutable(PyImmutableObject::Bool(false))
    ));
    assert!(expect_none(&PyObject::create_new_none(), &arena).is_ok());
    let e = expect_none(&PyObject::new_int(1), &arena).unwrap_err();
    assert_eq!(e.message.as_deref(), Some("'int' object cannot be interpreted as a NoneType"));
    assert_eq!(as_text(&none__repr__(&arena, &PyObject::create_new_none()).unwrap()), "None");
    assert!(none__new__(&arena, arena.globals.none_class.clone(), &[]).is_ok());
    let e = none__new__(&arena, arena.globals.none_class.clone(), &[PyObject::new_int(1)]).unwrap_err();
    assert_eq!(e.message.as_deref(), Some("NoneType takes no arguments"));
}

#[test]
fn object_natives() {
    let mut arena = PyArena::new(0);
    let object = arena.globals.object_class.clone();
    let made = object__new__(&mut arena, object.clone(), &[]).unwrap();
    assert_eq!(as_text(&object__repr__(&arena, &made).unwrap()), "<object object at 0>");
    assert_eq!(as_text(&object__repr__(&arena, &PyObject::new_int(1)).unwrap()), "<int object>");
    assert!(object__init__(&arena, &made, &[]).is_ok());
    assert!(object__init__(&arena, &made, &[PyObject::new_int(1)]).is_ok());
    // A value without a class takes no arguments.
    let e = object__init__(&arena, &PyObject::new_string("s".to_string()), &[PyObject::new_int(1)]).unwrap_err();
    assert_eq!(
        e.message.as_deref(),
        Some("object.__init__() takes exactly one argument (the instance to initialize)")
    );
    assert!(object__init__(&arena, &PyObject::new_string("s".to_string()), &[]).is_ok());
}

#[test]
fn range_iterator_walks_its_range() {
    let mut arena = PyArena::new(0);
    let range_class = arena.globals.range_class.clone();
    let iterator_class = arena.globals.range_iterator_class.clone();
    let range =
        range__new__(&mut arena, range_class, &[PyObject::new_int(5), PyObject::new_int(-1), PyObject::new_int(-3)])
            .unwrap();
    assert_eq!(range_payload(&arena, &range), Some(RangeInstance { start: 5, stop: -1, step: -3 }));
    assert_eq!(iterator_payload(&arena, &range), None);
    assert_eq!(range_payload(&arena, &PyObject::new_int(1)), None);
    let iterator = range_iterator__new__(&mut arena, iterator_class.clone(), &[range.clone()]).unwrap();
    assert_eq!(
        iterator_payload(&arena, &iterator),
        Some(RangeIteratorInstance { current: 5, stop: -1, step: -3 })
    );
    assert_eq!(as_int(&range_iterator__next__(&mut arena, &iterator).unwrap()), 5);
    assert_eq!(
        iterator_payload(&arena, &iterator),
        Some(RangeIteratorInstance { current: 2, stop: -1, step: -3 })
    );
    assert_eq!(as_int(&range_iterator__next__(&mut arena, &iterator).unwrap()), 2);
    let e = range_iterator__next__(&mut arena, &iterator).unwrap_err();
    assert!(e.is_same_type(&arena.exceptions.stop_iteration));
    let e = range_iterator__next__(&mut arena, &iterator).unwrap_err();
    assert!(e.is_same_type(&arena.exceptions.stop_iteration));
    // The range itself is untouched.
    assert_eq!(range_payload(&arena, &range), Some(RangeInstance { start: 5, stop: -1, step: -3 }));
    let e = range_iterator__next__(&mut arena, &range).unwrap_err();
    assert!(e.is_same_type(&arena.exceptions.system_error));
    let e = range_iterator__new__(&mut arena, iterator_class.clone(), &[PyObject::new_int(1)]).unwrap_err();
    assert!(e.is_same_type(&arena.exceptions.system_error));
    let e = range_iterator__new__(&mut arena, iterator_class, &[]).unwrap_err();
    assert!(e.is_same_type(&arena.exceptions.type_error));
    assert_eq!(advance(1, 2), 3);
    assert_eq!(advance(i64::MAX, 1), i64::MAX);
    assert_eq!(advance(i64::MIN, -1), i64::MIN);
    assert_eq!(advance(i64::MAX - 1, 5), i64::MAX);
}

#[test]
fn parent_frames_can_be_written() {
    let mut arena = PyArena::new(0);
    let x = Variable { name: "x".to_string(), fast_locals_location: None };
    assert!(arena.get_parent_frame_mut(0).is_none());
    arena.frames.push(Frame::new(0));
    arena.frames.push(Frame::new(0));
    arena.get_parent_frame_mut(0).unwrap().set(&x, PyObject::new_int(5));
    assert!(arena.get_current_frame().get(&x).is_none());
    assert!(arena.get_parent_frame(0).unwrap().get(&x).is_some());
    assert!(arena.get_parent_frame(1).unwrap().get(&x).is_none());
    assert!(arena.get_parent_frame_mut(2).is_none());
    assert_eq!(as_int(arena.search_for_var(&x).unwrap()), 5);
}

#[test]
fn instances_of_the_heap_have_their_class() {
    let mut arena = PyArena::new(0);
    let class = arena.globals.range_class.clone();
    let value = arena.allocate(PyMutableObject::Instance(PyInstance::new_empty_attrs(
        class,
        InstanceInternal::Range(RangeInstance { start: 0, stop: 1, step: 1 }),
    )));
    assert_eq!(value.clone_class(&arena).get_name(), "range");
    assert_eq!(value.class_name(&arena), "range");
    let pointer = *value.expect_mutable();
    let object = arena.object(pointer).unwrap();
    assert!(object.get_magic_method(&PyMagicMethod::Iter).is_some());
    assert!(object.get_magic_method(&PyMagicMethod::Next).is_none());
    assert_eq!(object.expect_instance().get_class().get_name(), "range");
    arena.print_line("shown".to_string());
    assert_eq!(arena.output, vec!["shown"]);
}

#[test]
fn writes_to_an_instance_are_seen_by_every_holder() {
    let mut arena = PyArena::new(0);
    let class = arena.globals.object_class.clone();
    let first = arena.allocate(PyMutableObject::Instance(PyInstance::new_generic(class.clone())));
    let other = arena.allocate(PyMutableObject::Instance(PyInstance::new_generic(class)));
    let alias = first.clone();
    assert!(first.get_attribute("x", &arena).is_none());
    first.set_attribute("x".to_string(), PyObject::new_int(1), &mut arena).unwrap();
    assert_eq!(as_int(&alias.get_attribute("x", &arena).unwrap()), 1);
    alias.set_attribute("x".to_string(), PyObject::new_int(2), &mut arena).unwrap();
    assert_eq!(as_int(&first.get_attribute("x", &arena).unwrap()), 2);
    // Another instance that holds the same is another object.
    other.set_attribute("x".to_string(), PyObject::new_int(2), &mut arena).unwrap();
    first.set_attribute("x".to_string(), PyObject::new_int(3), &mut arena).unwrap();
    assert_eq!(as_int(&other.get_attribute("x", &arena).unwrap()), 2);
    assert_eq!(as_int(&alias.get_attribute("x", &arena).unwrap()), 3);
    // A value that is no instance gives what its class gives.
    assert!(PyObject::new_int(1).get_attribute("__add__", &arena).is_some());
    assert!(PyObject::new_int(1).get_attribute("x", &arena).is_none());
    assert!(PyObject::new_string("s".to_string()).get_attribute("x", &arena).is_none());
    let range_class = arena.globals.range_class.clone();
    let range = arena.allocate(PyMutableObject::Instance(PyInstance::new_empty_attrs(
        range_class,
        InstanceInternal::Range(RangeInstance { start: 1, stop: 2, step: 3 }),
    )));
    assert_eq!(as_int(&range.get_attribute("step", &arena).unwrap()), 3);
    assert!(range.set_attribute("step".to_string(), PyObject::new_int(1), &mut arena).is_err());
    assert_eq!(as_int(&range.get_attribute("step", &arena).unwrap()), 3);
}

#[test]
fn flags_are_told_apart() {
    assert!(PyObject::break_().is_flag_type(PyIteratorFlag::Break));
    assert!(!PyObject::break_().is_flag_type(PyIteratorFlag::Continue));
    assert!(PyObject::stop_iteration().is_flag_type(PyIteratorFlag::StopIteration));
    assert!(!PyObject::new_int(1).is_flag_type(PyIteratorFlag::Break));
    assert!(PyObject::new_int(1).is_not_flag());
    assert!(!PyObject::continue_().is_not_flag());
}
