use treepy::builtins::structure::pyexception::{Exceptions, PyException};

#[test]
fn exception_table_holds_the_hierarchy() {
    let e = Exceptions::new();
    assert_eq!(e.base_exception.name, "BaseException");
    assert!(e.base_exception.super_exceptions.is_empty());
    assert_eq!(e.exception.name, "Exception");
    assert_eq!(e.exception.super_exceptions[0].name, "BaseException");
    assert_eq!(e.zero_division_error.name, "ZeroDivisionError");
    assert_eq!(e.zero_division_error.super_exceptions[0].name, "ArithmeticError");
    assert_eq!(e.not_implemented_error.name, "NotImplementedError");
    assert_eq!(e.not_implemented_error.super_exceptions[0].name, "RuntimeError");
    assert_eq!(e.key_error.super_exceptions[0].name, "LookupError");
    assert_eq!(e.stop_iteration.name, "StopIteration");
    assert_eq!(e.stop_iteration.super_exceptions[0].name, "Exception");
    assert_eq!(e.type_error.name, "TypeError");
    assert_eq!(e.type_error.message, None);
    assert_eq!(e.type_error.traceback, None);
    let all = [
        &e.base_exception, &e.generator_exit, &e.system_exit, &e.keyboard_interrupt, &e.exception,
        &e.arithmatic_error, &e.overflow_error, &e.zero_division_error, &e.assertion_error,
        &e.attribute_error, &e.buffer_error, &e.eof_error, &e.import_error, &e.lookup_error,
        &e.index_error, &e.key_error, &e.memory_error, &e.name_error, &e.os_error, &e.reference_error,
        &e.runtime_error, &e.not_implemented_error, &e.recursion_error, &e.stop_async_iteration,
        &e.stop_iteration, &e.syntax_error, &e.system_error, &e.type_error, &e.value_error,
    ];
    for (i, a) in all.iter().enumerate() {
        for (j, b) in all.iter().enumerate() {
            assert_eq!(a.is_same_type(b), i == j, "{} {}", a.name, b.name);
        }
    }
}

#[test]
fn instantiate_sets_the_message_only() {
    let e = Exceptions::new();
    let raised = e.type_error.instantiate("bad operand".to_string());
    assert_eq!(raised.name, "TypeError");
    assert_eq!(raised.message.as_deref(), Some("bad operand"));
    assert_eq!(raised.traceback, None);
    assert_eq!(raised.super_exceptions.len(), 1);
    assert!(raised.is_same_type(&e.type_error));
    assert!(!raised.is_same_type(&e.value_error));
    // Same kind, whatever the message.
    assert!(raised.is_same_type(&e.type_error.instantiate("another".to_string())));
    let again = raised.instantiate("replaced".to_string());
    assert_eq!(again.message.as_deref(), Some("replaced"));
    let empty = e.stop_iteration.empty();
    assert_eq!(empty.name, "StopIteration");
    assert_eq!(empty.message, None);
    let copy = raised.empty();
    assert_eq!(copy.message.as_deref(), Some("bad operand"));
}

#[test]
fn new_kind_has_no_message_and_no_traceback() {
    let e = Exceptions::new();
    let kind = PyException::new("Custom", vec![e.exception.clone(), e.lookup_error.clone()]);
    assert_eq!(kind.name, "Custom");
    assert_eq!(kind.message, None);
    assert_eq!(kind.traceback, None);
    assert_eq!(kind.super_exceptions.len(), 2);
    assert_eq!(kind.super_exceptions[1].name, "LookupError");
}

#[test]
fn traceback_accumulates_and_is_rendered() {
    let e = Exceptions::new();
    let mut raised = e.value_error.instantiate("oops".to_string());
    assert_eq!(raised.to_string(), "Traceback (most recent call last):\nValueError: oops");
    raised.add_trace("line 1".to_string());
    assert_eq!(raised.traceback, Some(vec!["line 1".to_string()]));
    raised.add_trace("line 2".to_string());
    assert_eq!(raised.traceback, Some(vec!["line 1".to_string(), "line 2".to_string()]));
    assert_eq!(raised.message.as_deref(), Some("oops"));
    assert_eq!(
        raised.to_string(),
        "Traceback (most recent call last):\n\n\tline 1\n\tline 2ValueError: oops"
    );
    let plain = e.assertion_error.empty();
    assert_eq!(plain.to_string(), "Traceback (most recent call last):\nAssertionError");
    let copy = raised.clone();
    assert_eq!(copy.traceback, raised.traceback);
    assert_eq!(copy.message, raised.message);
    assert_eq!(copy.name, raised.name);
}
