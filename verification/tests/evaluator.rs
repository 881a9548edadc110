use treepy::builtins::structure::pyexception::PyException;
use treepy::builtins::structure::pyobject::{PyImmutableObject, PyObject};
use treepy::builtins::types::pyfloat::{FloatHost, FloatOp, Text};
use treepy::evaluator::{eval_code_block, eval_expr, evaluate};
use treepy::parser::{CodeBlock, Comparator, Define, Expr, Statement, Value, Variable};
use treepy::pyarena::PyArena;

struct Host;

impl FloatHost for Host {
    fn arith(&self, op: FloatOp, left: u64, right: u64) -> u64 {
        let (a, b) = (f64::from_bits(left), f64::from_bits(right));
        let r = match op {
            FloatOp::Add => a + b,
            FloatOp::Sub => a - b,
            FloatOp::Mul => a * b,
            FloatOp::Div => a / b,
            FloatOp::Pow => a.powf(b),
        };
        r.to_bits()
    }

    fn from_int(&self, value: i64) -> u64 {
        (value as f64).to_bits()
    }

    fn to_int(&self, bits: u64) -> i64 {
        f64::from_bits(bits) as i64
    }

    fn repr(&self, bits: u64) -> String {
        f64::from_bits(bits).to_string()
    }

    fn parse(&self, text: &str) -> Option<u64> {
        text.parse::<f64>().ok().map(f64::to_bits)
    }

    fn arith_of(&self, _op: FloatOp, _left: u64, _right: u64) -> u64 {
        unreachable!()
    }

    fn from_int_of(&self, _value: i64) -> u64 {
        unreachable!()
    }

    fn to_int_of(&self, _bits: u64) -> i64 {
        unreachable!()
    }

    fn repr_of(&self, _bits: u64) -> Text {
        unreachable!()
    }

    fn parse_of(&self, _text: Text) -> Option<u64> {
        unreachable!()
    }
}

const FUEL: usize = 1000;

fn var(name: &str) -> Variable {
    Variable { name: name.to_string(), fast_locals_location: None }
}

fn name(n: &str) -> Expr {
    Expr::Var(var(n))
}

fn num(v: i64) -> Expr {
    Expr::Val(Value::Integer(v))
}

fn dec(v: f64) -> Expr {
    Expr::Val(Value::Float(v.to_bits()))
}

fn boolean(v: bool) -> Expr {
    Expr::Val(Value::Boolean(v))
}

fn text(v: &str) -> Expr {
    Expr::Val(Value::String(v.to_string()))
}

fn nothing() -> Expr {
    Expr::Val(Value::NoneValue)
}

fn plus(a: Expr, b: Expr) -> Expr {
    Expr::Plus(Box::new(a), Box::new(b))
}

fn call(f: &str, args: Vec<Expr>) -> Expr {
    Expr::FunCall(Box::new(name(f)), args)
}

fn compare(a: Expr, c: Comparator, b: Expr) -> Expr {
    Expr::Comparison(Box::new(a), c, Box::new(b))
}

fn assign(n: &str, e: Expr) -> Statement {
    Statement::Defn(Define::VarDefn(var(n), e))
}

fn block(statements: Vec<Statement>) -> CodeBlock {
    CodeBlock { statements, depth: 0 }
}

fn print(e: Expr) -> Statement {
    Statement::Expr(call("print", vec![e]))
}

fn eval(arena: &mut PyArena, e: &Expr) -> Result<PyObject, PyException> {
    eval_expr(e, arena, &Host, FUEL)
}

fn run(arena: &mut PyArena, code: &CodeBlock) -> Result<Option<PyObject>, PyException> {
    eval_code_block(code, arena, &Host, FUEL)
}

fn as_int(value: &PyObject) -> i64 {
    match value {
        PyObject::Immutable(PyImmutableObject::Int(v)) => *v,
        other => panic!("not an int: {:?}", other),
    }
}

fn as_float(value: &PyObject) -> f64 {
    match value {
        PyObject::Immutable(PyImmutableObject::Float(bits)) => f64::from_bits(*bits),
        other => panic!("not a float: {:?}", other),
    }
}

fn as_bool(value: &PyObject) -> bool {
    match value {
        PyObject::Immutable(PyImmutableObject::Bool(v)) => *v,
        other => panic!("not a bool: {:?}", other),
    }
}

fn range_loop(a: i64, b: i64, c: i64) -> Vec<String> {
    let mut arena = PyArena::new(0);
    let code = block(vec![Statement::For(
        var("v"),
        call("range", vec![num(a), num(b), num(c)]),
        block(vec![print(name("v"))]),
    )]);
    assert!(run(&mut arena, &code).unwrap().is_none());
    arena.output.clone()
}

#[test]
fn assignment_then_addition() {
    let mut arena = PyArena::new(0);
    run(&mut arena, &block(vec![assign("a", num(4))])).unwrap();
    let r = eval(&mut arena, &plus(name("a"), num(2))).unwrap();
    assert_eq!(as_int(&r), 6);
}

#[test]
fn true_division_yields_float() {
    let mut arena = PyArena::new(0);
    let r = eval(&mut arena, &Expr::Divide(Box::new(num(1)), Box::new(num(2)))).unwrap();
    assert_eq!(as_float(&r), 0.5);
    let r = eval(&mut arena, &Expr::Divide(Box::new(num(4)), Box::new(num(2)))).unwrap();
    assert_eq!(as_float(&r), 2.0);
}

#[test]
fn negative_exponent_yields_float() {
    let mut arena = PyArena::new(0);
    let r = eval(&mut arena, &Expr::Pow(Box::new(num(2)), Box::new(num(-1)))).unwrap();
    assert_eq!(as_float(&r), 0.5);
    let r = eval(&mut arena, &Expr::Pow(Box::new(num(2)), Box::new(num(10)))).unwrap();
    assert_eq!(as_int(&r), 1024);
    let r = eval(&mut arena, &Expr::Pow(Box::new(num(-3)), Box::new(num(3)))).unwrap();
    assert_eq!(as_int(&r), -27);
    let r = eval(&mut arena, &Expr::Pow(Box::new(num(7)), Box::new(num(0)))).unwrap();
    assert_eq!(as_int(&r), 1);
}

#[test]
fn range_loop_prints_each_value_on_its_line() {
    assert_eq!(range_loop(0, 5, 2), vec!["0", "2", "4"]);
}

#[test]
fn booleans_promote_to_integers() {
    let mut arena = PyArena::new(0);
    let r = eval(&mut arena, &plus(boolean(true), boolean(true))).unwrap();
    assert_eq!(as_int(&r), 2);
    let r = eval(&mut arena, &compare(boolean(true), Comparator::Equal, num(1))).unwrap();
    assert!(as_bool(&r));
}

#[test]
fn integers_promote_to_floats() {
    let mut arena = PyArena::new(0);
    let r = eval(&mut arena, &plus(dec(1.5), num(2))).unwrap();
    assert_eq!(as_float(&r), 3.5);
}

#[test]
fn reflected_method_gets_swapped_operands() {
    let mut arena = PyArena::new(0);
    // int.__add__ declines a float; float.__radd__ takes over.
    let r = eval(&mut arena, &plus(num(1), dec(2.5))).unwrap();
    assert_eq!(as_float(&r), 3.5);
    // int.__sub__ declines; float.__rsub__(2.5, 1) computes 1 - 2.5.
    let r = eval(&mut arena, &Expr::Minus(Box::new(num(1)), Box::new(dec(2.5)))).unwrap();
    assert_eq!(as_float(&r), -1.5);
    // int.__truediv__ declines; float.__rtruediv__(4.0, 1) computes 1 / 4.0.
    let r = eval(&mut arena, &Expr::Divide(Box::new(num(1)), Box::new(dec(4.0)))).unwrap();
    assert_eq!(as_float(&r), 0.25);
}

#[test]
fn operator_that_nobody_takes_is_a_type_error() {
    let mut arena = PyArena::new(0);
    let e = eval(&mut arena, &plus(nothing(), nothing())).unwrap_err();
    assert!(e.is_same_type(&arena.exceptions.type_error));
    assert_eq!(
        e.message.as_deref(),
        Some("unsupported operand type(s) for Add: 'NoneType' and 'NoneType'")
    );
    let e = eval(&mut arena, &Expr::Times(Box::new(nothing()), Box::new(num(3)))).unwrap_err();
    assert!(e.is_same_type(&arena.exceptions.type_error));
    assert_eq!(e.message.as_deref(), Some("unsupported operand type(s) for Mul: 'NoneType' and 'int'"));
    let e = eval(&mut arena, &compare(nothing(), Comparator::LessThan, num(3))).unwrap_err();
    assert!(e.is_same_type(&arena.exceptions.type_error));
    assert_eq!(e.message.as_deref(), Some("'Lt' not supported between instances of 'NoneType' and 'int'"));
}

#[test]
fn identity_is_not_equality() {
    let mut arena = PyArena::new(0);
    let code = block(vec![
        assign("a", call("range", vec![num(3)])),
        assign("b", call("range", vec![num(3)])),
        assign("c", name("a")),
    ]);
    run(&mut arena, &code).unwrap();
    assert!(!as_bool(&eval(&mut arena, &compare(name("a"), Comparator::Is, name("b"))).unwrap()));
    assert!(as_bool(&eval(&mut arena, &compare(name("a"), Comparator::IsNot, name("b"))).unwrap()));
    assert!(as_bool(&eval(&mut arena, &compare(name("a"), Comparator::Is, name("a"))).unwrap()));
    assert!(as_bool(&eval(&mut arena, &compare(name("a"), Comparator::Is, name("c"))).unwrap()));
    assert!(!as_bool(&eval(&mut arena, &compare(name("a"), Comparator::IsNot, name("a"))).unwrap()));
    assert!(as_bool(&eval(&mut arena, &compare(nothing(), Comparator::Is, nothing())).unwrap()));
}

#[test]
fn range_loops_follow_the_progression() {
    let cases: [(i64, i64, i64); 10] = [
        (0, 5, 2),
        (0, 0, 1),
        (5, 0, 1),
        (5, 0, -1),
        (5, 0, -2),
        (-3, 4, 3),
        (10, 11, 100),
        (1, 2, -1),
        (0, 6, 3),
        (9223372036854775800, 9223372036854775807, 5),
    ];
    for (a, b, c) in cases {
        let mut expected = Vec::new();
        let mut v = a as i128;
        while (c > 0 && v < b as i128) || (c < 0 && v > b as i128) {
            expected.push(v.to_string());
            v += c as i128;
        }
        let printed = range_loop(a, b, c);
        assert_eq!(printed, expected, "range({}, {}, {})", a, b, c);
        let span = b as i128 - a as i128;
        let step = c as i128;
        let ceil = if (span % step != 0) && ((span < 0) == (step < 0)) { span / step + 1 } else { span / step };
        assert_eq!(printed.len() as i128, std::cmp::max(0, ceil));
    }
}

#[test]
fn range_with_one_and_two_arguments() {
    let mut arena = PyArena::new(0);
    let code = block(vec![
        Statement::For(var("i"), call("range", vec![num(3)]), block(vec![print(name("i"))])),
        Statement::For(var("j"), call("range", vec![num(2), num(4)]), block(vec![print(name("j"))])),
    ]);
    run(&mut arena, &code).unwrap();
    assert_eq!(arena.output, vec!["0", "1", "2", "2", "3"]);
}

#[test]
fn range_with_step_zero_runs_out_of_budget() {
    let mut arena = PyArena::new(0);
    let code = block(vec![Statement::For(
        var("i"),
        call("range", vec![num(0), num(1), num(0)]),
        block(vec![]),
    )]);
    let e = eval_code_block(&code, &mut arena, &Host, 10).unwrap_err();
    assert!(e.is_same_type(&arena.exceptions.runtime_error));
    assert_eq!(e.message.as_deref(), Some("evaluation budget exhausted"));
}

#[test]
fn assert_with_two_expressions() {
    let mut arena = PyArena::new(0);
    let ok = block(vec![Statement::Assert(num(3), Some(plus(num(1), num(2))))]);
    assert!(run(&mut arena, &ok).unwrap().is_none());
    let bad = block(vec![Statement::Assert(num(3), Some(num(4)))]);
    let e = run(&mut arena, &bad).unwrap_err();
    assert!(e.is_same_type(&arena.exceptions.assertion_error));
    assert_eq!(e.message.as_deref(), Some("4"));
    let bad = block(vec![Statement::Assert(boolean(true), Some(boolean(false)))]);
    let e = run(&mut arena, &bad).unwrap_err();
    assert!(e.is_same_type(&arena.exceptions.assertion_error));
    assert_eq!(e.message.as_deref(), Some("False"));
}

#[test]
fn assert_with_one_expression() {
    let mut arena = PyArena::new(0);
    for truthy in [num(1), num(-5), boolean(true), text("x"), dec(0.5)] {
        assert!(run(&mut arena, &block(vec![Statement::Assert(truthy, None)])).is_ok());
    }
    for falsy in [num(0), boolean(false), text(""), nothing(), dec(0.0), dec(-0.0)] {
        let e = run(&mut arena, &block(vec![Statement::Assert(falsy, None)])).unwrap_err();
        assert!(e.is_same_type(&arena.exceptions.assertion_error));
        assert_eq!(e.message, None);
    }
}

#[test]
fn and_or_return_the_deciding_operand() {
    let mut arena = PyArena::new(0);
    let and = |a, b| Expr::And(Box::new(a), Box::new(b));
    let or = |a, b| Expr::Or(Box::new(a), Box::new(b));
    assert_eq!(as_int(&eval(&mut arena, &and(num(0), num(5))).unwrap()), 0);
    assert_eq!(as_int(&eval(&mut arena, &and(num(3), num(5))).unwrap()), 5);
    assert_eq!(as_int(&eval(&mut arena, &or(num(3), num(5))).unwrap()), 3);
    assert_eq!(as_int(&eval(&mut arena, &or(num(0), num(5))).unwrap()), 5);
    // The right operand is not evaluated where the left one decides.
    assert_eq!(as_int(&eval(&mut arena, &and(num(0), name("missing"))).unwrap()), 0);
    assert_eq!(as_int(&eval(&mut arena, &or(num(1), name("missing"))).unwrap()), 1);
    assert!(eval(&mut arena, &and(num(1), name("missing"))).is_err());
    assert!(as_bool(&eval(&mut arena, &Expr::Not(Box::new(num(0)))).unwrap()));
    assert!(!as_bool(&eval(&mut arena, &Expr::Not(Box::new(text("a")))).unwrap()));
}

#[test]
fn while_loop_with_break_and_continue() {
    let mut arena = PyArena::new(0);
    // i = 0
    // while True:
    //     i += 1
    //     if i == 2: continue
    //     if i > 4: break
    //     print(i)
    let code = block(vec![
        assign("i", num(0)),
        Statement::While(
            boolean(true),
            block(vec![
                Statement::Defn(Define::PlusEq(var("i"), num(1))),
                Statement::If(
                    compare(name("i"), Comparator::Equal, num(2)),
                    block(vec![Statement::Continue]),
                    vec![],
                    None,
                ),
                Statement::If(
                    compare(name("i"), Comparator::GreaterThan, num(4)),
                    block(vec![Statement::Break]),
                    vec![],
                    None,
                ),
                print(name("i")),
            ]),
        ),
        print(text("done")),
    ]);
    assert!(run(&mut arena, &code).unwrap().is_none());
    assert_eq!(arena.output, vec!["1", "3", "4", "done"]);
}

#[test]
fn while_loop_that_never_ends_runs_out_of_budget() {
    let mut arena = PyArena::new(0);
    let code = block(vec![Statement::While(boolean(true), block(vec![]))]);
    let e = eval_code_block(&code, &mut arena, &Host, 25).unwrap_err();
    assert!(e.is_same_type(&arena.exceptions.runtime_error));
}

#[test]
fn return_ends_the_block_and_the_loops_around_it() {
    let mut arena = PyArena::new(0);
    let code = block(vec![
        Statement::For(
            var("i"),
            call("range", vec![num(10)]),
            block(vec![Statement::If(
                compare(name("i"), Comparator::Equal, num(3)),
                block(vec![Statement::Return(plus(name("i"), num(100)))]),
                vec![],
                None,
            )]),
        ),
        print(text("not reached")),
    ]);
    let r = run(&mut arena, &code).unwrap().unwrap();
    assert_eq!(as_int(&r), 103);
    assert!(arena.output.is_empty());
}

#[test]
fn if_elif_else_takes_the_first_true_branch() {
    let pick = |n: i64| {
        let mut arena = PyArena::new(0);
        let code = block(vec![Statement::If(
            compare(num(n), Comparator::Equal, num(0)),
            block(vec![print(text("zero"))]),
            vec![
                (compare(num(n), Comparator::Equal, num(1)), block(vec![print(text("one"))])),
                (compare(num(n), Comparator::LessThanOrEqual, num(5)), block(vec![print(text("few"))])),
            ],
            Some(block(vec![print(text("many"))])),
        )]);
        run(&mut arena, &code).unwrap();
        arena.output.clone()
    };
    assert_eq!(pick(0), vec!["zero"]);
    assert_eq!(pick(1), vec!["one"]);
    assert_eq!(pick(4), vec!["few"]);
    assert_eq!(pick(9), vec!["many"]);
}

#[test]
fn augmented_assignments_apply_their_own_operator() {
    let mut arena = PyArena::new(0);
    let code = block(vec![
        assign("a", num(10)),
        Statement::Defn(Define::PlusEq(var("a"), num(5))),
        Statement::Defn(Define::MinusEq(var("a"), num(3))),
        Statement::Defn(Define::MultEq(var("a"), num(4))),
        print(name("a")),
        Statement::Defn(Define::DivEq(var("a"), num(8))),
    ]);
    run(&mut arena, &code).unwrap();
    assert_eq!(arena.output, vec!["48"]);
    assert_eq!(as_float(&eval(&mut arena, &name("a")).unwrap()), 6.0);
}

#[test]
fn unbound_name_is_a_name_error() {
    let mut arena = PyArena::new(0);
    let e = eval(&mut arena, &name("nobody")).unwrap_err();
    assert!(e.is_same_type(&arena.exceptions.name_error));
    assert_eq!(e.message.as_deref(), Some("name 'nobody' is not defined"));
}

#[test]
fn calling_what_cannot_be_called_is_a_type_error() {
    let mut arena = PyArena::new(0);
    run(&mut arena, &block(vec![assign("x", num(1))])).unwrap();
    let e = eval(&mut arena, &call("x", vec![])).unwrap_err();
    assert!(e.is_same_type(&arena.exceptions.type_error));
    assert_eq!(e.message.as_deref(), Some("'int' object is not callable"));
}

#[test]
fn integer_overflow_is_an_overflow_error() {
    let mut arena = PyArena::new(0);
    let e = eval(&mut arena, &plus(num(i64::MAX), num(1))).unwrap_err();
    assert!(e.is_same_type(&arena.exceptions.overflow_error));
    let e = eval(&mut arena, &Expr::Pow(Box::new(num(3)), Box::new(num(100)))).unwrap_err();
    assert!(e.is_same_type(&arena.exceptions.overflow_error));
    let r = eval(&mut arena, &Expr::Pow(Box::new(num(-2)), Box::new(num(63)))).unwrap();
    assert_eq!(as_int(&r), i64::MIN);
    let r = eval(&mut arena, &Expr::Pow(Box::new(num(-1)), Box::new(num(i64::MAX)))).unwrap();
    assert_eq!(as_int(&r), -1);
}

#[test]
fn conversions_by_the_builtin_classes() {
    let mut arena = PyArena::new(0);
    assert_eq!(as_int(&eval(&mut arena, &call("int", vec![text("42")])).unwrap()), 42);
    assert_eq!(as_int(&eval(&mut arena, &call("int", vec![text("-7")])).unwrap()), -7);
    assert_eq!(as_int(&eval(&mut arena, &call("int", vec![dec(3.9)])).unwrap()), 3);
    assert_eq!(as_int(&eval(&mut arena, &call("int", vec![boolean(true)])).unwrap()), 1);
    assert_eq!(as_int(&eval(&mut arena, &call("int", vec![])).unwrap()), 0);
    let e = eval(&mut arena, &call("int", vec![text("4x")])).unwrap_err();
    assert_eq!(e.message.as_deref(), Some("invalid literal for int() with base 10: '4x'"));
    assert_eq!(as_float(&eval(&mut arena, &call("float", vec![num(2)])).unwrap()), 2.0);
    assert_eq!(as_float(&eval(&mut arena, &call("float", vec![text("1.25")])).unwrap()), 1.25);
    assert_eq!(as_float(&eval(&mut arena, &call("float", vec![])).unwrap()), 0.0);
    let e = eval(&mut arena, &call("float", vec![text("abc")])).unwrap_err();
    assert!(e.is_same_type(&arena.exceptions.value_error));
    assert_eq!(e.message.as_deref(), Some("could not convert string to float: 'abc'"));
    let e = eval(&mut arena, &call("float", vec![nothing()])).unwrap_err();
    assert!(e.is_same_type(&arena.exceptions.type_error));
    assert_eq!(e.message.as_deref(), Some("float() argument must be a string or a real number, not 'NoneType'"));
    let e = eval(&mut arena, &call("int", vec![nothing()])).unwrap_err();
    assert_eq!(
        e.message.as_deref(),
        Some("int() argument must be a string, a bytes-like object or a real number, not 'NoneType'")
    );
    assert!(as_bool(&eval(&mut arena, &call("bool", vec![num(3)])).unwrap()));
    assert!(!as_bool(&eval(&mut arena, &call("bool", vec![text("")])).unwrap()));
    assert!(!as_bool(&eval(&mut arena, &call("bool", vec![])).unwrap()));
}

#[test]
fn print_joins_its_arguments_with_spaces() {
    let mut arena = PyArena::new(0);
    let code = block(vec![
        Statement::Expr(call("print", vec![num(1), text("two"), boolean(true), nothing(), dec(2.5)])),
        Statement::Expr(call("print", vec![])),
        Statement::Expr(call("print", vec![call("range", vec![num(1), num(9), num(2)]), call("range", vec![num(4)])])),
    ]);
    run(&mut arena, &code).unwrap();
    assert_eq!(arena.output, vec!["1 two True None 2.5", "", "range(1, 9, 2) range(0, 4)"]);
}

#[test]
fn loop_variable_keeps_one_cell() {
    let mut arena = PyArena::new(1);
    let fast = Variable { name: "v".to_string(), fast_locals_location: Some(0) };
    let by_name = Variable { name: "v".to_string(), fast_locals_location: None };
    let code = block(vec![Statement::For(
        Variable { name: "v".to_string(), fast_locals_location: Some(0) },
        call("range", vec![num(3)]),
        block(vec![]),
    )]);
    run(&mut arena, &code).unwrap();
    let frame = arena.get_current_frame();
    let through_slot = frame.get(&fast).unwrap();
    let through_name = frame.get(&by_name).unwrap();
    assert_eq!(through_slot, through_name);
    assert_eq!(as_int(frame.read(through_slot)), 2);
    // Whoever holds the cell sees the later values of the variable.
    let cell = through_slot;
    run(&mut arena, &block(vec![Statement::Defn(Define::VarDefn(by_name, num(77)))])).unwrap();
    assert_eq!(as_int(arena.get_current_frame().read(cell)), 77);
    assert_eq!(as_int(&eval(&mut arena, &Expr::Var(fast)).unwrap()), 77);
}

#[test]
fn variable_with_a_slot_outside_the_frame_ends_the_evaluation() {
    let mut arena = PyArena::new(1);
    let bad = Variable { name: "v".to_string(), fast_locals_location: Some(5) };
    let e = run(&mut arena, &block(vec![Statement::Defn(Define::VarDefn(bad, num(1)))])).unwrap_err();
    assert!(e.is_same_type(&arena.exceptions.system_error));
}

#[test]
fn uncaught_exception_is_printed() {
    let mut arena = PyArena::new(0);
    let code = block(vec![print(num(1)), Statement::Expr(name("nobody")), print(num(2))]);
    evaluate(&code, &mut arena, &Host, FUEL);
    assert_eq!(
        arena.output,
        vec!["1", "Traceback (most recent call last):\nNameError: name 'nobody' is not defined"]
    );
}

#[test]
fn function_definitions_are_not_implemented() {
    let mut arena = PyArena::new(0);
    let code = block(vec![Statement::Defn(Define::FunDefn(var("f"), vec![], block(vec![])))]);
    let e = run(&mut arena, &code).unwrap_err();
    assert!(e.is_same_type(&arena.exceptions.not_implemented_error));
}

#[test]
fn iterating_over_what_cannot_be_iterated_is_a_type_error() {
    let mut arena = PyArena::new(0);
    let code = block(vec![Statement::For(var("i"), num(3), block(vec![]))]);
    let e = run(&mut arena, &code).unwrap_err();
    assert!(e.is_same_type(&arena.exceptions.type_error));
    assert_eq!(e.message.as_deref(), Some("'int' object is not iterable"));
}
