use treepy::builtins::structure::attrs::NameTable;
use treepy::parser::{CodeBlock, Comparator, Define, Expr, ScopeInformation, Statement, Value, Variable};
use treepy::preprocessor::{
    add_var_access, add_var_def, preprocess_code, preprocess_defn, preprocess_expr, preprocess_function, Scope,
};
use treepy::text::parse_int;

fn var(name: &str) -> Variable {
    Variable { name: name.to_string(), fast_locals_location: None }
}

fn read(name: &str) -> Expr {
    Expr::Var(var(name))
}

fn num(v: i64) -> Expr {
    Expr::Val(Value::Integer(v))
}

fn plus(a: Expr, b: Expr) -> Expr {
    Expr::Plus(Box::new(a), Box::new(b))
}

fn block(statements: Vec<Statement>) -> CodeBlock {
    CodeBlock { statements, depth: 0 }
}

fn known(scope: &Scope, name: &str) -> Option<(usize, bool)> {
    scope.get(name).map(|info: &ScopeInformation| {
        assert_eq!(info.variable.name, name);
        (info.uses, info.has_definition)
    })
}

#[test]
fn reads_and_bindings_are_counted() {
    let mut scope: Scope = NameTable::new();
    assert_eq!(known(&scope, "a"), None);
    add_var_access(&var("a"), &mut scope);
    assert_eq!(known(&scope, "a"), Some((1, false)));
    add_var_access(&var("a"), &mut scope);
    assert_eq!(known(&scope, "a"), Some((2, false)));
    add_var_def(&var("a"), &mut scope);
    assert_eq!(known(&scope, "a"), Some((2, true)));
    add_var_def(&var("b"), &mut scope);
    assert_eq!(known(&scope, "b"), Some((0, true)));
    add_var_access(&var("b"), &mut scope);
    assert_eq!(known(&scope, "b"), Some((1, true)));
    assert_eq!(known(&scope, "a"), Some((2, true)));
}

#[test]
fn expressions_count_every_read() {
    let mut scope: Scope = NameTable::new();
    // f(a + b, a) < not (a and c)
    let expr = Expr::Comparison(
        Box::new(Expr::FunCall(Box::new(read("f")), vec![plus(read("a"), read("b")), read("a")])),
        Comparator::LessThan,
        Box::new(Expr::Not(Box::new(Expr::And(Box::new(read("a")), Box::new(read("c")))))),
    );
    preprocess_expr(&expr, &mut scope);
    assert_eq!(known(&scope, "f"), Some((1, false)));
    assert_eq!(known(&scope, "a"), Some((3, false)));
    assert_eq!(known(&scope, "b"), Some((1, false)));
    assert_eq!(known(&scope, "c"), Some((1, false)));
    assert_eq!(known(&scope, "d"), None);
}

#[test]
fn statements_bind_and_read() {
    let mut scope: Scope = NameTable::new();
    // x = 1
    // x += y
    // for i in range(x): print(i)
    // while x: x -= 1
    // if a: b = 1
    // elif c: d = c
    // else: return e
    // assert x, z
    // def f(p): q = p
    let code = block(vec![
        Statement::Defn(Define::VarDefn(var("x"), num(1))),
        Statement::Defn(Define::PlusEq(var("x"), read("y"))),
        Statement::For(
            var("i"),
            Expr::FunCall(Box::new(read("range")), vec![read("x")]),
            block(vec![Statement::Expr(Expr::FunCall(Box::new(read("print")), vec![read("i")]))]),
        ),
        Statement::While(read("x"), block(vec![Statement::Defn(Define::MinusEq(var("x"), num(1)))])),
        Statement::If(
            read("a"),
            block(vec![Statement::Defn(Define::VarDefn(var("b"), num(1)))]),
            vec![(read("c"), block(vec![Statement::Defn(Define::VarDefn(var("d"), read("c")))]))],
            Some(block(vec![Statement::Return(read("e"))])),
        ),
        Statement::Assert(read("x"), Some(read("z"))),
        Statement::Defn(Define::FunDefn(
            var("f"),
            vec![var("p")],
            block(vec![Statement::Defn(Define::VarDefn(var("q"), read("p")))]),
        )),
        Statement::Break,
        Statement::Continue,
    ]);
    preprocess_code(&code, &mut scope);
    assert_eq!(known(&scope, "x"), Some((3, true)));
    assert_eq!(known(&scope, "y"), Some((1, false)));
    assert_eq!(known(&scope, "i"), Some((1, true)));
    assert_eq!(known(&scope, "range"), Some((1, false)));
    assert_eq!(known(&scope, "print"), Some((1, false)));
    assert_eq!(known(&scope, "a"), Some((1, false)));
    assert_eq!(known(&scope, "b"), Some((0, true)));
    assert_eq!(known(&scope, "c"), Some((2, false)));
    assert_eq!(known(&scope, "d"), Some((0, true)));
    assert_eq!(known(&scope, "e"), Some((1, false)));
    assert_eq!(known(&scope, "z"), Some((1, false)));
    assert_eq!(known(&scope, "f"), Some((0, true)));
    // The body of the function is a scope of its own.
    assert_eq!(known(&scope, "p"), None);
    assert_eq!(known(&scope, "q"), None);
}

#[test]
fn function_body_is_a_scope_of_its_own() {
    let definition = Define::FunDefn(
        var("f"),
        vec![var("p"), var("r")],
        block(vec![Statement::Defn(Define::VarDefn(var("q"), plus(read("p"), read("g"))))]),
    );
    let inner = preprocess_function(&definition);
    assert_eq!(known(&inner, "p"), Some((1, true)));
    assert_eq!(known(&inner, "r"), Some((0, true)));
    assert_eq!(known(&inner, "q"), Some((0, true)));
    assert_eq!(known(&inner, "g"), Some((1, false)));
    assert_eq!(known(&inner, "f"), None);
    let mut outer: Scope = NameTable::new();
    preprocess_defn(&definition, &mut outer);
    assert_eq!(known(&outer, "f"), Some((0, true)));
    assert_eq!(known(&outer, "p"), None);
    let other = preprocess_function(&Define::VarDefn(var("x"), read("y")));
    assert_eq!(known(&other, "x"), None);
    assert_eq!(known(&other, "y"), None);
}

#[test]
fn decimal_texts_denote_integers() {
    assert_eq!(parse_int("0"), Some(0));
    assert_eq!(parse_int("42"), Some(42));
    assert_eq!(parse_int("+42"), Some(42));
    assert_eq!(parse_int("-42"), Some(-42));
    assert_eq!(parse_int("-0"), Some(0));
    assert_eq!(parse_int("0000000000000000000000000000000000000000017"), Some(17));
    assert_eq!(parse_int("9223372036854775807"), Some(i64::MAX));
    assert_eq!(parse_int("-9223372036854775808"), Some(i64::MIN));
    assert_eq!(parse_int("9223372036854775808"), None);
    assert_eq!(parse_int("-9223372036854775809"), None);
    assert_eq!(parse_int("99999999999999999999999999999999999999999999999999"), None);
    for bad in ["", "-", "+", "--1", "+-1", " 1", "1 ", "1.0", "0x10", "1_000", "١٢", "a", "12a"] {
        assert_eq!(parse_int(bad), None, "{:?}", bad);
        assert_eq!(parse_int(bad), bad.parse::<i64>().ok(), "{:?}", bad);
    }
    for good in ["7", "+7", "-7", "0012", "9223372036854775807", "-9223372036854775808"] {
        assert_eq!(parse_int(good), good.parse::<i64>().ok(), "{:?}", good);
    }
}
