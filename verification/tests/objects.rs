use std::rc::Rc;
use treepy::builtins::function_utils::{
    call_function, call_function_1_arg_min, eval_internal_func, eval_obj_init, init_internal_class,
};
use treepy::builtins::functions::compare::{compare_op, is_compare};
use treepy::builtins::functions::math_op::math_op;
use treepy::builtins::structure::attrs::AttrMap;
use treepy::builtins::structure::magic_methods::{py_magic_methods_defaults, PyMagicMethod, PyMagicMethods};
use treepy::builtins::structure::native::{
    BivariateFuncType, InitFuncType, ManyArgFuncType, NewFuncType, PyInternalFunction, UnaryFuncType,
};
use treepy::builtins::structure::pyclass::PyClass;
use treepy::builtins::structure::pyinstance::{EmptyInternal, InstanceInternal, PyInstance, PyInstanceInternal};
use treepy::builtins::structure::pyobject::{
    Heap, PyImmutableObject, PyIteratorFlag, PyMutableObject, PyObject, PyPointer,
};
use treepy::builtins::types::pybool::convert_pyobj_to_bool;
use treepy::builtins::types::pyfloat::{float_is_zero, FloatHost, FloatOp, Text};
use treepy::builtins::types::range::{RangeInstance, RangeIteratorInstance};
use treepy::builtins::types::str::{py_repr, py_str_tmp};
use treepy::parser::{remove_comments, Comparator, Variable};
use treepy::pyarena::{Frame, PyArena};

struct Host;

impl FloatHost for Host {
    fn arith(&self, op: FloatOp, left: u64, right: u64) -> u64 {
        let (a, b) = (f64::from_bits(left), f64::from_bits(right));
        let r = match op {
            FloatOp::Add => a + b,
            FloatOp::Sub => a - b,
            FloatOp::Mul => a * b,
            FloatOp::Div => a / b,
            FloatOp::Pow => a.powf(b),
        };
        r.to_bits()
    }

    fn from_int(&self, value: i64) -> u64 {
        (value as f64).to_bits()
    }

    fn to_int(&self, bits: u64) -> i64 {
        f64::from_bits(bits) as i64
    }

    fn repr(&self, bits: u64) -> String {
        f64::from_bits(bits).to_string()
    }

    fn parse(&self, text: &str) -> Option<u64> {
        text.parse::<f64>().ok().map(f64::to_bits)
    }

    fn arith_of(&self, _op: FloatOp, _left: u64, _right: u64) -> u64 {
        unreachable!()
    }

    fn from_int_of(&self, _value: i64) -> u64 {
        unreachable!()
    }

    fn to_int_of(&self, _bits: u64) -> i64 {
        unreachable!()
    }

    fn repr_of(&self, _bits: u64) -> Text {
        unreachable!()
    }

    fn parse_of(&self, _text: Text) -> Option<u64> {
        unreachable!()
    }
}

const FUEL: usize = 100;

fn as_int(value: &PyObject) -> i64 {
    match value {
        PyObject::Immutable(PyImmutableObject::Int(v)) => *v,
        other => panic!("not an int: {:?}", other),
    }
}

fn as_text(value: &PyObject) -> String {
    match value {
        PyObject::Immutable(PyImmutableObject::Str(v)) => v.clone(),
        other => panic!("not a text: {:?}", other),
    }
}

fn class_value(class: &Rc<PyClass>) -> PyObject {
    PyObject::new_internal_class(class.clone())
}

#[test]
fn value_constructors() {
    assert!(matches!(PyObject::new_int(3), PyObject::Immutable(PyImmutableObject::Int(3))));
    assert!(matches!(PyObject::create_new_bool(true), PyObject::Immutable(PyImmutableObject::Bool(true))));
    assert!(matches!(PyObject::create_new_none(), PyObject::Immutable(PyImmutableObject::NoneValue)));
    assert_eq!(as_text(&PyObject::new_string("hi".to_string())), "hi");
    assert!(matches!(
        PyObject::new_float(1.5f64.to_bits()),
        PyObject::Immutable(PyImmutableObject::Float(b)) if f64::from_bits(b) == 1.5
    ));
    assert!(matches!(PyObject::break_(), PyObject::IteratorFlag(PyIteratorFlag::Break)));
    assert!(matches!(PyObject::continue_(), PyObject::IteratorFlag(PyIteratorFlag::Continue)));
    assert!(matches!(PyObject::stop_iteration(), PyObject::IteratorFlag(PyIteratorFlag::StopIteration)));
    let three = PyObject::new_int(3);
    assert!(matches!(three.expect_immutable(), PyImmutableObject::Int(3)));
    assert_eq!(as_int(&three.clone()), 3);
    assert!(float_is_zero(0.0f64.to_bits()));
    assert!(float_is_zero((-0.0f64).to_bits()));
    assert!(!float_is_zero(f64::NAN.to_bits()));
    assert!(!float_is_zero(1e-300f64.to_bits()));
}

#[test]
fn heap_objects_keep_their_places() {
    let arena = PyArena::new(0);
    let mut heap = Heap::new();
    let a = PyPointer::new(
        PyMutableObject::Instance(PyInstance::new_empty(arena.globals.object_class.clone())),
        &mut heap,
    );
    let b = PyPointer::new(
        PyMutableObject::Instance(PyInstance::new_empty_attrs(
            arena.globals.range_class.clone(),
            InstanceInternal::Range(RangeInstance { start: 1, stop: 2, step: 3 }),
        )),
        &mut heap,
    );
    assert_ne!(a, b);
    assert_eq!(a.slot, 0);
    assert_eq!(b.slot, 1);
    assert_eq!(a.borrow(&heap).get_class().get_name(), "object");
    assert_eq!(b.borrow(&heap).get_class().get_name(), "range");
    match b.borrow_mut(&mut heap) {
        PyMutableObject::Instance(instance) => {
            instance.internal = InstanceInternal::Range(RangeInstance { start: 7, stop: 8, step: 9 })
        }
        _ => panic!(),
    }
    assert_eq!(a.borrow(&heap).get_class().get_name(), "object");
    let start = b.borrow(&heap).get_field("start", &arena.exceptions).unwrap();
    assert_eq!(as_int(&start), 7);
    assert_eq!(b.borrow(&heap).expect_instance().internal, InstanceInternal::Range(RangeInstance {
        start: 7,
        stop: 8,
        step: 9
    }));
}

#[test]
fn range_fields_can_be_read_but_not_written() {
    let arena = PyArena::new(0);
    let mut instance = PyInstance::new_empty_attrs(
        arena.globals.range_class.clone(),
        InstanceInternal::Range(RangeInstance { start: 1, stop: 10, step: 2 }),
    );
    assert_eq!(as_int(&instance.get_field("start", &arena.exceptions).unwrap()), 1);
    assert_eq!(as_int(&instance.get_field("stop", &arena.exceptions).unwrap()), 10);
    assert_eq!(as_int(&instance.get_field("step", &arena.exceptions).unwrap()), 2);
    let e = instance.get_field("length", &arena.exceptions).unwrap_err();
    assert!(e.is_same_type(&arena.exceptions.attribute_error));
    assert_eq!(e.message.as_deref(), Some("'range' object has no attribute `length`"));
    for field in ["start", "stop", "step"] {
        let e = instance.set_field(field.to_string(), PyObject::new_int(0), &arena.exceptions).unwrap_err();
        assert!(e.is_same_type(&arena.exceptions.attribute_error));
        assert_eq!(e.message.as_deref(), Some("readonly attribute"));
    }
    let e = instance.set_field("other".to_string(), PyObject::new_int(0), &arena.exceptions).unwrap_err();
    assert_eq!(e.message.as_deref(), Some("'range' object has no attribute `other`"));
    assert_eq!(as_int(&instance.get_field("start", &arena.exceptions).unwrap()), 1);
    assert_eq!(instance.get_class().get_name(), "range");
}

#[test]
fn payloads_answer_for_their_fields() {
    let arena = PyArena::new(0);
    let mut empty = EmptyInternal {};
    assert!(empty.get_field("x").is_none());
    assert!(empty.set_field("x".to_string(), PyObject::new_int(1), &arena.exceptions).is_none());
    let mut iterator = RangeIteratorInstance { current: 0, stop: 3, step: 1 };
    assert!(iterator.get_field("current").is_none());
    assert!(iterator.set_field("current".to_string(), PyObject::new_int(1), &arena.exceptions).is_none());
    let mut range = InstanceInternal::Range(RangeInstance { start: 4, stop: 5, step: 6 });
    assert_eq!(as_int(&range.get_field("stop").unwrap()), 5);
    assert!(range.get_field("stops").is_none());
    assert!(matches!(
        range.set_field("step".to_string(), PyObject::new_int(1), &arena.exceptions),
        Some(Err(_))
    ));
    assert!(range.set_field("steps".to_string(), PyObject::new_int(1), &arena.exceptions).is_none());
}

#[test]
fn generic_instances_keep_attributes() {
    let arena = PyArena::new(0);
    let mut instance = PyInstance::new_generic(arena.globals.object_class.clone());
    let e = instance.get_field("x", &arena.exceptions).unwrap_err();
    assert_eq!(e.message.as_deref(), Some("'object' object has no attribute `x`"));
    instance.set_field("x".to_string(), PyObject::new_int(5), &arena.exceptions).unwrap();
    instance.set_field("y".to_string(), PyObject::new_int(6), &arena.exceptions).unwrap();
    instance.set_field("x".to_string(), PyObject::new_int(7), &arena.exceptions).unwrap();
    assert_eq!(as_int(&instance.get_field("x", &arena.exceptions).unwrap()), 7);
    assert_eq!(as_int(&instance.get_field("y", &arena.exceptions).unwrap()), 6);
    let mut bare = PyInstance::new_empty(arena.globals.object_class.clone());
    let e = bare.set_field("x".to_string(), PyObject::new_int(5), &arena.exceptions).unwrap_err();
    assert!(e.is_same_type(&arena.exceptions.attribute_error));
    assert_eq!(e.message.as_deref(), Some("'object' object has no attribute `x`"));
}

#[test]
fn frames_bind_names_to_cells() {
    let mut frame = Frame::new(2);
    let x = Variable { name: "x".to_string(), fast_locals_location: None };
    let y_fast = Variable { name: "y".to_string(), fast_locals_location: Some(1) };
    let y_name = Variable { name: "y".to_string(), fast_locals_location: None };
    assert!(frame.get(&x).is_none());
    assert!(frame.get(&y_fast).is_none());
    frame.set(&x, PyObject::new_int(1));
    let x_cell = frame.get(&x).unwrap();
    assert_eq!(as_int(frame.read(x_cell)), 1);
    frame.set(&x, PyObject::new_int(2));
    assert_eq!(frame.get(&x), Some(x_cell));
    assert_eq!(as_int(frame.read(x_cell)), 2);
    // A name bound first by name takes its cell when it gets its slot.
    frame.set(&y_name, PyObject::new_int(10));
    let y_cell = frame.get(&y_name).unwrap();
    assert_ne!(y_cell, x_cell);
    assert!(frame.get(&y_fast).is_none());
    frame.set(&y_fast, PyObject::new_int(11));
    assert_eq!(frame.get(&y_fast), Some(y_cell));
    assert_eq!(as_int(frame.read(y_cell)), 11);
    frame.set(&y_name, PyObject::new_int(12));
    assert_eq!(as_int(frame.read(frame.get(&y_fast).unwrap())), 12);
    frame.write(y_cell, PyObject::new_int(13));
    assert_eq!(as_int(frame.read(frame.get(&y_name).unwrap())), 13);
    assert_eq!(as_int(frame.read(x_cell)), 2);
    frame.remove("y");
    assert!(frame.get(&y_name).is_none());
    assert_eq!(frame.get(&y_fast), Some(y_cell));
    frame.remove("nothing");
    assert_eq!(frame.get(&x), Some(x_cell));
}

#[test]
fn arena_starts_with_the_globals() {
    let arena = PyArena::new(3);
    assert_eq!(arena.frames.len(), 1);
    assert_eq!(arena.get_current_frame().fast_locals, vec![None, None, None]);
    assert!(arena.get_parent_frame(0).is_none());
    for name in ["object", "int", "bool", "float", "range", "print"] {
        let v = Variable { name: name.to_string(), fast_locals_location: None };
        assert!(arena.admits(&v));
        assert!(arena.search_for_var(&v).is_some(), "{}", name);
    }
    let missing = Variable { name: "missing".to_string(), fast_locals_location: None };
    assert!(arena.search_for_var(&missing).is_none());
    let outside = Variable { name: "int".to_string(), fast_locals_location: Some(3) };
    assert!(!arena.admits(&outside));
    assert!(arena.object(PyPointer { slot: 0 }).is_none());
}

#[test]
fn newest_frame_that_binds_a_name_decides() {
    let mut arena = PyArena::new(0);
    let x = Variable { name: "x".to_string(), fast_locals_location: None };
    let y = Variable { name: "y".to_string(), fast_locals_location: None };
    arena.get_current_frame_mut().set(&x, PyObject::new_int(1));
    arena.get_current_frame_mut().set(&y, PyObject::new_int(2));
    let mut inner = Frame::new(0);
    inner.set(&x, PyObject::new_int(10));
    arena.frames.push(inner);
    assert_eq!(as_int(arena.search_for_var(&x).unwrap()), 10);
    assert_eq!(as_int(arena.search_for_var(&y).unwrap()), 2);
    assert!(arena.get_parent_frame(0).is_some());
    assert!(arena.get_parent_frame(1).is_none());
    arena.frames.pop();
    assert_eq!(as_int(arena.search_for_var(&x).unwrap()), 1);
}

#[test]
fn natives_are_called_by_their_shape() {
    let mut arena = PyArena::new(0);
    let add = PyInternalFunction::BivariateFunc(BivariateFuncType::IntAdd);
    let r = eval_internal_func(add, &[PyObject::new_int(2), PyObject::new_int(3)], &mut arena, &Host, FUEL);
    assert_eq!(as_int(&r.unwrap()), 5);
    let repr = PyInternalFunction::UnaryFunc(UnaryFuncType::IntRepr);
    let r = eval_internal_func(repr, &[PyObject::new_int(-42)], &mut arena, &Host, FUEL);
    assert_eq!(as_text(&r.unwrap()), "-42");
    let r = eval_internal_func(repr, &[PyObject::new_int(i64::MIN)], &mut arena, &Host, FUEL);
    assert_eq!(as_text(&r.unwrap()), "-9223372036854775808");
    let r = eval_internal_func(repr, &[PyObject::new_int(0)], &mut arena, &Host, FUEL);
    assert_eq!(as_text(&r.unwrap()), "0");
    let new = PyInternalFunction::NewFunc(NewFuncType::Int);
    let int_class = class_value(&arena.globals.int_class);
    let r = eval_internal_func(new, &[int_class.clone(), PyObject::new_string("12".to_string())], &mut arena, &Host, FUEL);
    assert_eq!(as_int(&r.unwrap()), 12);
    let init = PyInternalFunction::InitFunc(InitFuncType::Object);
    let r = eval_internal_func(init, &[PyObject::new_int(1)], &mut arena, &Host, FUEL).unwrap();
    assert!(matches!(r, PyObject::Immutable(PyImmutableObject::NoneValue)));
    let print = PyInternalFunction::ManyArgFunc(ManyArgFuncType::Print);
    eval_internal_func(print, &[PyObject::new_int(1), PyObject::new_int(2)], &mut arena, &Host, FUEL).unwrap();
    assert_eq!(arena.output, vec!["1 2"]);
    // A first argument that is no class where a class is needed ends the evaluation.
    let e = eval_internal_func(new, &[PyObject::new_int(1)], &mut arena, &Host, FUEL).unwrap_err();
    assert!(e.is_same_type(&arena.exceptions.system_error));
    assert_eq!(e.message.as_deref(), Some("Expected class"));
}

#[test]
fn wrong_arity_ends_the_evaluation() {
    let mut arena = PyArena::new(0);
    let add = PyObject::new_internal_func(PyInternalFunction::BivariateFunc(BivariateFuncType::IntAdd));
    let e = call_function(&add, &[PyObject::new_int(2)], &mut arena, &Host, FUEL).unwrap_err();
    assert!(e.is_same_type(&arena.exceptions.system_error));
    assert_eq!(e.message.as_deref(), Some("Trying to call BivariateFunc function type with 1 arguments"));
    let e = call_function_1_arg_min(&add, &PyObject::new_int(2), &[], &mut arena, &Host, FUEL).unwrap_err();
    assert_eq!(e.message.as_deref(), Some("Trying to call BivariateFunc function type with 0 arguments"));
    let r = call_function_1_arg_min(&add, &PyObject::new_int(2), &[PyObject::new_int(5)], &mut arena, &Host, FUEL);
    assert_eq!(as_int(&r.unwrap()), 7);
    let r = call_function(&add, &[PyObject::new_int(2), PyObject::new_int(5)], &mut arena, &Host, FUEL);
    assert_eq!(as_int(&r.unwrap()), 7);
    let unary = PyObject::new_internal_func(PyInternalFunction::UnaryFunc(UnaryFuncType::IntRepr));
    let e = call_function(&unary, &[], &mut arena, &Host, FUEL).unwrap_err();
    assert_eq!(e.message.as_deref(), Some("Trying to call UnaryFunc function type with 0 arguments"));
    let new = PyObject::new_internal_func(PyInternalFunction::NewFunc(NewFuncType::Int));
    let e = call_function(&new, &[], &mut arena, &Host, FUEL).unwrap_err();
    assert_eq!(e.message.as_deref(), Some("Trying to call NewFunc function type with 0 arguments"));
    // The magic-method path cannot construct.
    let class = class_value(&arena.globals.int_class);
    let e = call_function_1_arg_min(&class, &PyObject::new_int(2), &[], &mut arena, &Host, FUEL).unwrap_err();
    assert!(e.is_same_type(&arena.exceptions.system_error));
    let e = call_function(&PyObject::new_string("f".to_string()), &[], &mut arena, &Host, FUEL).unwrap_err();
    assert!(e.is_same_type(&arena.exceptions.type_error));
    assert_eq!(e.message.as_deref(), Some("'str' object is not callable"));
}

#[test]
fn construction_calls_new_then_init() {
    let mut arena = PyArena::new(0);
    let object = arena.globals.object_class.clone();
    let made = eval_obj_init(object.clone(), &[], &mut arena, &Host, FUEL).unwrap();
    let pointer = *made.expect_mutable();
    assert_eq!(pointer.slot, 0);
    assert_eq!(arena.object(pointer).unwrap().get_class().get_name(), "object");
    let again = call_function(&class_value(&object), &[], &mut arena, &Host, FUEL).unwrap();
    assert_eq!(again.expect_mutable().slot, 1);
    let range = init_internal_class(
        arena.globals.range_class.clone(),
        &[PyObject::new_int(2), PyObject::new_int(8), PyObject::new_int(3)],
        &mut arena,
        &Host,
        FUEL,
    )
    .unwrap();
    assert_eq!(as_text(&py_repr(&range, &mut arena, &Host, FUEL).unwrap()), "range(2, 8, 3)");
    assert_eq!(as_text(&py_str_tmp(&range, &mut arena, &Host, FUEL).unwrap()), "range(2, 8, 3)");
    assert_eq!(as_text(&py_repr(&made, &mut arena, &Host, FUEL).unwrap()), "<object object at 0>");
    // A class without __new__ or without __init__ cannot be constructed.
    let bare = Rc::new(PyClass::Internal {
        name: "bare".to_string(),
        super_classes: vec![],
        magic_methods: py_magic_methods_defaults(),
        attributes: AttrMap::new(),
    });
    let e = eval_obj_init(bare, &[], &mut arena, &Host, FUEL).unwrap_err();
    assert!(e.is_same_type(&arena.exceptions.type_error));
    assert_eq!(e.message.as_deref(), Some("bare has no __new__ method"));
    let half = Rc::new(PyClass::Internal {
        name: "half".to_string(),
        super_classes: vec![],
        magic_methods: PyMagicMethods {
            __new__: Some(PyInternalFunction::NewFunc(NewFuncType::Object)),
            ..py_magic_methods_defaults()
        },
        attributes: AttrMap::new(),
    });
    let e = eval_obj_init(half, &[], &mut arena, &Host, FUEL).unwrap_err();
    assert_eq!(e.message.as_deref(), Some("half has no __init__ method"));
    // A failure of __new__ is the failure of the construction.
    let e = call_function(&class_value(&arena.globals.range_class.clone()), &[], &mut arena, &Host, FUEL).unwrap_err();
    assert_eq!(e.message.as_deref(), Some("range expected at least 1 argument, got 0"));
    let e = call_function(
        &class_value(&arena.globals.range_class.clone()),
        &[PyObject::new_string("a".to_string())],
        &mut arena,
        &Host,
        FUEL,
    )
    .unwrap_err();
    assert_eq!(e.message.as_deref(), Some("'str' object cannot be interpreted as an integer"));
    let e = call_function(&class_value(&object), &[PyObject::new_int(1)], &mut arena, &Host, FUEL);
    assert!(e.is_ok()); // object defines __init__, so __new__ lets the arguments pass
}

#[test]
fn reflected_call_when_the_forward_method_is_absent() {
    let mut arena = PyArena::new(0);
    // `left` has no __sub__; int.__rsub__(7, left) declines in turn: nobody takes it.
    let left = eval_obj_init(arena.globals.object_class.clone(), &[], &mut arena, &Host, FUEL).unwrap();
    let e = math_op(left.clone(), PyObject::new_int(7), PyMagicMethod::Sub { right: false }, &mut arena, &Host, FUEL)
        .unwrap_err();
    assert!(e.is_same_type(&arena.exceptions.type_error));
    assert_eq!(e.message.as_deref(), Some("unsupported operand type(s) for Sub: 'object' and 'int'"));
    // None has no __sub__; bool has int's __rsub__, which declines None.
    let e = math_op(
        PyObject::create_new_none(),
        PyObject::create_new_bool(true),
        PyMagicMethod::Sub { right: false },
        &mut arena,
        &Host,
        FUEL,
    )
    .unwrap_err();
    assert_eq!(e.message.as_deref(), Some("unsupported operand type(s) for Sub: 'NoneType' and 'bool'"));
    // A class with only the reflected method: it gets the operands swapped.
    let only_reflected = Rc::new(
        PyClass::Internal {
            name: "only_reflected".to_string(),
            super_classes: vec![],
            magic_methods: PyMagicMethods {
                __rsub__: Some(PyInternalFunction::BivariateFunc(BivariateFuncType::IntSub)),
                ..py_magic_methods_defaults()
            },
            attributes: AttrMap::new(),
        }
        .create(),
    );
    let right = PyObject::new_mutable(
        PyMutableObject::Instance(PyInstance::new_empty(only_reflected)),
        &mut arena.heap,
    );
    // object has no __sub__ -> right.__rsub__(right, left) = int.__sub__(right, left), which declines
    // both operands, so nobody takes the operator.
    let e = math_op(left, right, PyMagicMethod::Sub { right: false }, &mut arena, &Host, FUEL).unwrap_err();
    assert_eq!(e.message.as_deref(), Some("unsupported operand type(s) for Sub: 'object' and 'only_reflected'"));
    // 10 - True: int.__sub__ takes both.  True - 10 likewise, through bool's inherited table.
    let r = math_op(
        PyObject::create_new_bool(true),
        PyObject::new_int(10),
        PyMagicMethod::Sub { right: false },
        &mut arena,
        &Host,
        FUEL,
    );
    assert_eq!(as_int(&r.unwrap()), -9);
}

#[test]
fn comparisons_fall_back_to_the_mirror() {
    let mut arena = PyArena::new(0);
    let lt = |arena: &mut PyArena, a: PyObject, b: PyObject| compare_op(&a, &b, &Comparator::LessThan, arena, &Host, FUEL);
    let r = lt(&mut arena, PyObject::new_int(1), PyObject::new_int(2)).unwrap();
    assert!(matches!(r, PyObject::Immutable(PyImmutableObject::Bool(true))));
    // None < 2: None has no __lt__; int.__gt__(2, None) declines.
    let e = lt(&mut arena, PyObject::create_new_none(), PyObject::new_int(2)).unwrap_err();
    assert_eq!(e.message.as_deref(), Some("'Lt' not supported between instances of 'NoneType' and 'int'"));
    for (comp, expected) in [
        (Comparator::Equal, false),
        (Comparator::NotEqual, true),
        (Comparator::LessThan, false),
        (Comparator::LessThanOrEqual, false),
        (Comparator::GreaterThan, true),
        (Comparator::GreaterThanOrEqual, true),
    ] {
        let r = compare_op(&PyObject::new_int(5), &PyObject::new_int(3), &comp, &mut arena, &Host, FUEL).unwrap();
        assert!(matches!(r, PyObject::Immutable(PyImmutableObject::Bool(b)) if b == expected));
    }
    let e = compare_op(&PyObject::new_int(5), &PyObject::new_int(3), &Comparator::In, &mut arena, &Host, FUEL)
        .unwrap_err();
    assert!(e.is_same_type(&arena.exceptions.not_implemented_error));
    let same = is_compare(false, &PyObject::new_int(5), &PyObject::new_int(5), &arena);
    assert!(matches!(same, PyObject::Immutable(PyImmutableObject::Bool(true))));
    let different = is_compare(true, &PyObject::new_int(5), &PyObject::new_string("5".to_string()), &arena);
    assert!(matches!(different, PyObject::Immutable(PyImmutableObject::Bool(true))));
}

#[test]
fn truthiness_of_objects_goes_by_bool_method() {
    let mut arena = PyArena::new(0);
    let plain = eval_obj_init(arena.globals.object_class.clone(), &[], &mut arena, &Host, FUEL).unwrap();
    let e = convert_pyobj_to_bool(&plain, &mut arena, &Host, FUEL).unwrap_err();
    assert!(e.is_same_type(&arena.exceptions.type_error));
    assert_eq!(
        e.message.as_deref(),
        Some("bool() argument must be a string, a bytes-like object or a real number, not 'object'")
    );
    let liar = Rc::new(
        PyClass::Internal {
            name: "liar".to_string(),
            super_classes: vec![arena.globals.object_class.clone()],
            magic_methods: PyMagicMethods {
                __bool__: Some(PyInternalFunction::UnaryFunc(UnaryFuncType::ObjectRepr)),
                ..py_magic_methods_defaults()
            },
            attributes: AttrMap::new(),
        }
        .create(),
    );
    let value = eval_obj_init(liar, &[], &mut arena, &Host, FUEL).unwrap();
    let e = convert_pyobj_to_bool(&value, &mut arena, &Host, FUEL).unwrap_err();
    assert_eq!(e.message.as_deref(), Some("liar.__bool__ should return bool, returned (type {<other type>})"));
    // Out of fuel, the call back into the protocol is refused.
    let e = convert_pyobj_to_bool(&value, &mut arena, &Host, 0).unwrap_err();
    assert!(e.is_same_type(&arena.exceptions.recursion_error));
}

#[test]
fn calls_that_never_end_run_out_of_fuel() {
    let mut arena = PyArena::new(0);
    // A class whose __repr__ is object's __str__, which asks __repr__ again.
    let looping = Rc::new(PyClass::Internal {
        name: "looping".to_string(),
        super_classes: vec![],
        magic_methods: PyMagicMethods {
            __new__: Some(PyInternalFunction::NewFunc(NewFuncType::Object)),
            __init__: Some(PyInternalFunction::InitFunc(InitFuncType::Object)),
            __repr__: Some(PyInternalFunction::UnaryFunc(UnaryFuncType::ObjectStr)),
            ..py_magic_methods_defaults()
        },
        attributes: AttrMap::new(),
    });
    let value = eval_obj_init(looping, &[], &mut arena, &Host, FUEL).unwrap();
    let e = py_repr(&value, &mut arena, &Host, 50).unwrap_err();
    assert!(e.is_same_type(&arena.exceptions.recursion_error));
    assert_eq!(e.message.as_deref(), Some("maximum recursion depth exceeded"));
}

#[test]
fn texts_are_shown_as_they_are_and_quoted_by_repr() {
    let mut arena = PyArena::new(0);
    let text = PyObject::new_string("a b".to_string());
    assert_eq!(as_text(&py_str_tmp(&text, &mut arena, &Host, FUEL).unwrap()), "a b");
    assert_eq!(as_text(&py_repr(&text, &mut arena, &Host, FUEL).unwrap()), "'a b'");
    assert_eq!(as_text(&py_repr(&PyObject::create_new_none(), &mut arena, &Host, FUEL).unwrap()), "None");
    assert_eq!(as_text(&py_repr(&PyObject::create_new_bool(false), &mut arena, &Host, FUEL).unwrap()), "False");
    assert_eq!(as_text(&py_repr(&PyObject::new_float(0.5f64.to_bits()), &mut arena, &Host, FUEL).unwrap()), "0.5");
    let e = py_repr(&PyObject::break_(), &mut arena, &Host, FUEL).unwrap_err();
    assert_eq!(e.message.as_deref(), Some("cannot find method '__repr__' in 'flag' object"));
}

#[test]
fn comments_are_removed_up_to_the_line_break() {
    assert_eq!(remove_comments("a = 1 # one\nb = 2"), "a = 1 \nb = 2");
    assert_eq!(remove_comments("# only a comment"), "");
    assert_eq!(remove_comments("x\n#c\n#d\ny"), "x\n\n\ny");
    assert_eq!(remove_comments("no comment"), "no comment");
    assert_eq!(remove_comments(""), "");
    assert_eq!(remove_comments("a ## b # c\n#"), "a \n");
    assert_eq!(remove_comments("é # ü\nß"), "é \nß");
}
