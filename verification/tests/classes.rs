use std::rc::Rc;
use treepy::builtins::globals::Globals;
use treepy::builtins::structure::attrs::AttrMap;
use treepy::builtins::structure::magic_methods::{
    flip_to_right_hand_op, py_magic_methods_defaults, PyMagicMethod, PyMagicMethods,
};
use treepy::builtins::structure::native::{BivariateFuncType, NewFuncType, PyInternalFunction, UnaryFuncType};
use treepy::builtins::structure::pyclass::PyClass;
use treepy::builtins::structure::pyobject::{PyImmutableObject, PyInternalObject, PyObject};

const INT_ADD: PyInternalFunction = PyInternalFunction::BivariateFunc(BivariateFuncType::IntAdd);
const INT_SUB: PyInternalFunction = PyInternalFunction::BivariateFunc(BivariateFuncType::IntSub);
const INT_MUL: PyInternalFunction = PyInternalFunction::BivariateFunc(BivariateFuncType::IntMul);
const INT_REPR: PyInternalFunction = PyInternalFunction::UnaryFunc(UnaryFuncType::IntRepr);
const BOOL_REPR: PyInternalFunction = PyInternalFunction::UnaryFunc(UnaryFuncType::BoolRepr);

fn internal(name: &str, supers: Vec<Rc<PyClass>>, methods: PyMagicMethods) -> PyClass {
    PyClass::Internal {
        name: name.to_string(),
        super_classes: supers,
        magic_methods: methods,
        attributes: AttrMap::new(),
    }
}

fn function_of(value: Option<PyObject>) -> Option<PyInternalFunction> {
    match value {
        Some(PyObject::Internal(PyInternalObject::InternalFunction(f))) => Some(f),
        None => None,
        other => panic!("not a native: {:?}", other),
    }
}

#[test]
fn magic_method_names_round_trip() {
    let all = PyMagicMethod::all();
    assert_eq!(all.len(), 27);
    for method in all {
        assert_eq!(PyMagicMethod::from_string(method.as_str()), Some(method));
        assert_eq!(method.to_string(), method.as_str());
    }
    assert_eq!(PyMagicMethod::from_string("__nothing__"), None);
    assert_eq!(PyMagicMethod::from_string(""), None);
    assert_eq!(PyMagicMethod::from_string("__add__"), Some(PyMagicMethod::Add { right: false }));
    assert_eq!(PyMagicMethod::from_string("__radd__"), Some(PyMagicMethod::Add { right: true }));
    assert_eq!(PyMagicMethod::from_string("__rtruediv__"), Some(PyMagicMethod::TrueDiv { right: true }));
    assert_eq!(PyMagicMethod::Contains.as_str(), "__contains__");
    assert_eq!(PyMagicMethod::Pow { right: true }.as_str(), "__rpow__");
    assert_eq!(PyMagicMethod::Pow { right: true }.display_name(), "Pow");
}

#[test]
fn make_right_handed_sets_the_direction() {
    let mut method = PyMagicMethod::Sub { right: false };
    method.make_right_handed();
    assert_eq!(method, PyMagicMethod::Sub { right: true });
    method.make_right_handed();
    assert_eq!(method, PyMagicMethod::Sub { right: true });
}

#[test]
fn comparisons_mirror() {
    assert_eq!(flip_to_right_hand_op(&PyMagicMethod::Lt), PyMagicMethod::Gt);
    assert_eq!(flip_to_right_hand_op(&PyMagicMethod::Gt), PyMagicMethod::Lt);
    assert_eq!(flip_to_right_hand_op(&PyMagicMethod::Le), PyMagicMethod::Ge);
    assert_eq!(flip_to_right_hand_op(&PyMagicMethod::Ge), PyMagicMethod::Le);
    assert_eq!(flip_to_right_hand_op(&PyMagicMethod::Eq), PyMagicMethod::Eq);
    assert_eq!(flip_to_right_hand_op(&PyMagicMethod::Ne), PyMagicMethod::Ne);
}

#[test]
fn method_table_sets_one_slot() {
    let mut table = py_magic_methods_defaults();
    for method in PyMagicMethod::all() {
        assert_eq!(table.get_method(&method), None);
    }
    table.set_method(&PyMagicMethod::Add { right: true }, INT_ADD);
    for method in PyMagicMethod::all() {
        let expected = if method == (PyMagicMethod::Add { right: true }) { Some(INT_ADD) } else { None };
        assert_eq!(table.get_method(&method), expected);
        assert_eq!(method.get_method(&table), expected);
    }
    *PyMagicMethod::Repr.get_method_mut(&mut table) = Some(INT_REPR);
    assert_eq!(table.__repr__, Some(INT_REPR));
    assert_eq!(table.__radd__, Some(INT_ADD));
}

#[test]
fn flattening_copies_down_what_is_inherited() {
    // grand: add, repr.  left(grand): sub.  right: add (another), mul.
    // child(left, right): repr (its own).
    let grand = Rc::new(internal(
        "grand",
        vec![],
        PyMagicMethods { __add__: Some(INT_ADD), __repr__: Some(INT_REPR), ..py_magic_methods_defaults() },
    ));
    let left = Rc::new(internal(
        "left",
        vec![grand.clone()],
        PyMagicMethods { __sub__: Some(INT_SUB), ..py_magic_methods_defaults() },
    ));
    let right = Rc::new(internal(
        "right",
        vec![],
        PyMagicMethods { __add__: Some(INT_MUL), __mul__: Some(INT_MUL), ..py_magic_methods_defaults() },
    ));
    let child = internal(
        "child",
        vec![left.clone(), right.clone()],
        PyMagicMethods { __repr__: Some(BOOL_REPR), ..py_magic_methods_defaults() },
    );
    let add = PyMagicMethod::Add { right: false };
    let sub = PyMagicMethod::Sub { right: false };
    let mul = PyMagicMethod::Mul { right: false };
    // Before: the own table has only repr; the search walks the hierarchy.
    assert_eq!(child.get_magic_method_internal(add), None);
    assert_eq!(child.search_for_magic_method_internal(add), Some(INT_ADD));
    let searched: Vec<_> =
        PyMagicMethod::all().into_iter().map(|m| child.search_for_magic_method_internal(m)).collect();
    let flat = child.create();
    // After: one lookup in the own table gives what the search gave.
    let own: Vec<_> = PyMagicMethod::all().into_iter().map(|m| flat.get_magic_method_internal(m)).collect();
    assert_eq!(own, searched);
    assert_eq!(flat.get_magic_method_internal(add), Some(INT_ADD)); // depth first: grand before right
    assert_eq!(flat.get_magic_method_internal(sub), Some(INT_SUB));
    assert_eq!(flat.get_magic_method_internal(mul), Some(INT_MUL));
    assert_eq!(flat.get_magic_method_internal(PyMagicMethod::Repr), Some(BOOL_REPR));
    assert_eq!(flat.get_magic_method_internal(PyMagicMethod::Iter), None);
    assert_eq!(flat.get_name(), "child");
    assert_eq!(flat.get_super_classes().len(), 2);
    assert_eq!(function_of(flat.search_for_magic_method(add)), Some(INT_ADD));
    assert_eq!(function_of(flat.search_for_method("__sub__")), Some(INT_SUB));
    assert!(flat.search_for_method("__iter__").is_none());
    assert!(flat.defines_attribute(mul));
    assert!(!flat.defines_attribute(PyMagicMethod::Next));
    // Finalizing again changes nothing.
    let again = flat.create();
    let own_again: Vec<_> =
        PyMagicMethod::all().into_iter().map(|m| again.get_magic_method_internal(m)).collect();
    assert_eq!(own_again, searched);
}

#[test]
fn finalizing_lists_what_is_missing() {
    let parent = Rc::new(internal(
        "parent",
        vec![],
        PyMagicMethods { __add__: Some(INT_ADD), __radd__: Some(INT_ADD), ..py_magic_methods_defaults() },
    ));
    let mut child = internal(
        "child",
        vec![parent],
        PyMagicMethods { __add__: Some(INT_MUL), ..py_magic_methods_defaults() },
    );
    let missing = child.get_super_magic_methods();
    assert_eq!(missing, vec![(PyMagicMethod::Add { right: true }, INT_ADD)]);
    child.load_super_magic_methods(missing);
    assert_eq!(child.get_magic_method_internal(PyMagicMethod::Add { right: true }), Some(INT_ADD));
    assert_eq!(child.get_magic_method_internal(PyMagicMethod::Add { right: false }), Some(INT_MUL));
}

#[test]
fn user_defined_classes_walk_their_superclasses() {
    let mut base_attrs = AttrMap::new();
    base_attrs.insert("greet".to_string(), PyObject::new_int(1));
    base_attrs.insert("__add__".to_string(), PyObject::new_int(2));
    let base = Rc::new(PyClass::UserDefined {
        name: "Base".to_string(),
        attributes: base_attrs,
        super_classes: vec![],
    });
    let mut other_attrs = AttrMap::new();
    other_attrs.insert("greet".to_string(), PyObject::new_int(10));
    other_attrs.insert("wave".to_string(), PyObject::new_int(11));
    let other = Rc::new(PyClass::UserDefined {
        name: "Other".to_string(),
        attributes: other_attrs,
        super_classes: vec![],
    });
    let mut own = AttrMap::new();
    own.insert("own".to_string(), PyObject::new_int(100));
    let class = PyClass::UserDefined {
        name: "Child".to_string(),
        attributes: own,
        super_classes: vec![base, other],
    };
    let as_int = |value: Option<PyObject>| match value {
        Some(PyObject::Immutable(PyImmutableObject::Int(v))) => Some(v),
        None => None,
        other => panic!("{:?}", other),
    };
    assert_eq!(as_int(class.search_for_method("own")), Some(100));
    assert_eq!(as_int(class.search_for_method("greet")), Some(1)); // first listed superclass wins
    assert_eq!(as_int(class.search_for_method("wave")), Some(11));
    assert_eq!(as_int(class.search_for_method("nothing")), None);
    assert_eq!(as_int(class.search_for_magic_method(PyMagicMethod::Add { right: false })), Some(2));
    assert!(!class.defines_attribute(PyMagicMethod::Add { right: false }));
    // A user-defined class is not flattened.
    let same = class.create();
    assert!(!same.defines_attribute(PyMagicMethod::Add { right: false }));
    assert_eq!(same.get_name(), "Child");
}

#[test]
fn builtin_classes_are_flat() {
    let globals = Globals::new();
    let add = PyMagicMethod::Add { right: false };
    assert_eq!(globals.int_class.get_name(), "int");
    assert_eq!(globals.bool_class.get_name(), "bool");
    assert_eq!(globals.none_class.get_name(), "NoneType");
    assert_eq!(globals.range_iterator_class.get_name(), "range_iterator");
    // bool inherits the arithmetic of int, and what int inherits of object.
    assert_eq!(globals.bool_class.get_magic_method_internal(add), Some(INT_ADD));
    assert_eq!(
        globals.bool_class.get_magic_method_internal(PyMagicMethod::Add { right: true }),
        Some(INT_ADD)
    );
    assert_eq!(globals.bool_class.get_magic_method_internal(PyMagicMethod::Repr), Some(BOOL_REPR));
    assert_eq!(
        globals.bool_class.get_magic_method_internal(PyMagicMethod::Str),
        Some(PyInternalFunction::UnaryFunc(UnaryFuncType::ObjectStr))
    );
    assert_eq!(
        globals.bool_class.get_magic_method_internal(PyMagicMethod::New),
        Some(PyInternalFunction::NewFunc(NewFuncType::Bool))
    );
    assert_eq!(globals.float_class.get_magic_method_internal(PyMagicMethod::Eq), None);
    let names: Vec<String> = globals.create_exposed_globals().into_iter().map(|(n, _)| n).collect();
    assert_eq!(names, vec!["object", "int", "bool", "float", "range", "print"]);
}

#[test]
fn attribute_map_overwrites_in_place() {
    let mut attrs = AttrMap::new();
    assert!(!attrs.contains_key("a"));
    assert!(attrs.get("a").is_none());
    attrs.insert("a".to_string(), PyObject::new_int(1));
    attrs.insert("b".to_string(), PyObject::new_int(2));
    attrs.insert("a".to_string(), PyObject::new_int(3));
    let read = |attrs: &AttrMap, k: &str| match attrs.get(k) {
        Some(PyObject::Immutable(PyImmutableObject::Int(v))) => Some(*v),
        None => None,
        other => panic!("{:?}", other),
    };
    assert_eq!(read(&attrs, "a"), Some(3));
    assert_eq!(read(&attrs, "b"), Some(2));
    assert_eq!(read(&attrs, "c"), None);
    assert!(attrs.contains_key("b"));
}
