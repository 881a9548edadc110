//! Name resolution: which names a scope reads and which it binds.

use vstd::prelude::*;
use crate::builtins::structure::attrs::NameTable;
use crate::parser::{CodeBlock, Define, Expr, ScopeInformation, Statement, Variable};

verus! {

/// What is known of the names of one scope.
pub type Scope = NameTable<ScopeInformation>;

/// What a scope knows of its names, as contracts speak of it.
pub type ScopeView = Map<Seq<char>, ScopeInformation>;

/// `uses + 1`, held at the largest count.
pub open spec fn one_more(uses: usize) -> usize {
    if uses < usize::MAX {
        (uses + 1) as usize
    } else {
        uses
    }
}

/// The scope after one more read of `variable`.
pub open spec fn accessed(scope: ScopeView, variable: Variable) -> ScopeView {
    if scope.contains_key(variable.name@) {
        let known = scope[variable.name@];
        scope.insert(variable.name@, ScopeInformation { uses: one_more(known.uses), ..known })
    } else {
        scope.insert(variable.name@, ScopeInformation { variable, uses: 1, has_definition: false })
    }
}

/// The scope after a binding of `variable`.
pub open spec fn defined(scope: ScopeView, variable: Variable) -> ScopeView {
    if scope.contains_key(variable.name@) {
        let known = scope[variable.name@];
        scope.insert(variable.name@, ScopeInformation { has_definition: true, ..known })
    } else {
        scope.insert(variable.name@, ScopeInformation { variable, uses: 0, has_definition: true })
    }
}

/// The scope after each of `variables[from..]` was bound.
pub open spec fn all_defined(scope: ScopeView, variables: Seq<Variable>, from: int) -> ScopeView
    decreases variables.len() - from,
{
    if from < 0 || from >= variables.len() {
        scope
    } else {
        all_defined(defined(scope, variables[from]), variables, from + 1)
    }
}

/// The scope after the reads of `expr`, its parts taken from left to
/// right.
pub open spec fn expr_scope(expr: Expr, scope: ScopeView) -> ScopeView
    decreases expr, 0int,
{
    match expr {
        Expr::Var(variable) => accessed(scope, variable),
        Expr::Val(_) => scope,
        Expr::Times(first, second) => expr_scope(*second, expr_scope(*first, scope)),
        Expr::Divide(first, second) => expr_scope(*second, expr_scope(*first, scope)),
        Expr::Plus(first, second) => expr_scope(*second, expr_scope(*first, scope)),
        Expr::Minus(first, second) => expr_scope(*second, expr_scope(*first, scope)),
        Expr::Pow(first, second) => expr_scope(*second, expr_scope(*first, scope)),
        Expr::And(first, second) => expr_scope(*second, expr_scope(*first, scope)),
        Expr::Or(first, second) => expr_scope(*second, expr_scope(*first, scope)),
        Expr::Comparison(first, _, second) => expr_scope(*second, expr_scope(*first, scope)),
        Expr::FunCall(callee, args) => args_scope(args@, 0, expr_scope(*callee, scope)),
        Expr::Not(inner) => expr_scope(*inner, scope),
    }
}

/// The scope after the reads of `args[from..]`.
pub open spec fn args_scope(args: Seq<Expr>, from: int, scope: ScopeView) -> ScopeView
    decreases args, args.len() - from,
{
    if from < 0 || from >= args.len() {
        scope
    } else {
        args_scope(args, from + 1, expr_scope(args[from], scope))
    }
}

/// The scope after a binding statement: its name is bound, and its
/// expression is read. A function definition binds the name of the
/// function; its body is a scope of its own.
pub open spec fn defn_scope(define: Define, scope: ScopeView) -> ScopeView {
    match define {
        Define::PlusEq(variable, expr) => expr_scope(expr, defined(scope, variable)),
        Define::MinusEq(variable, expr) => expr_scope(expr, defined(scope, variable)),
        Define::DivEq(variable, expr) => expr_scope(expr, defined(scope, variable)),
        Define::MultEq(variable, expr) => expr_scope(expr, defined(scope, variable)),
        Define::VarDefn(variable, expr) => expr_scope(expr, defined(scope, variable)),
        Define::FunDefn(func, _, _) => defined(scope, func),
    }
}

/// The scope after the statements of `code`, in order.
pub open spec fn code_scope(code: CodeBlock, scope: ScopeView) -> ScopeView
    decreases code, 0int,
{
    statements_scope(code.statements@, 0, scope)
}

/// The scope after `statements[from..]`.
pub open spec fn statements_scope(statements: Seq<Statement>, from: int, scope: ScopeView) -> ScopeView
    decreases statements, statements.len() - from,
{
    if from < 0 || from >= statements.len() {
        scope
    } else {
        statements_scope(statements, from + 1, statement_scope(statements[from], scope))
    }
}

/// The scope after `statement`: its expressions are read and its blocks
/// gone through in the order in which they stand; a loop variable is
/// bound.
pub open spec fn statement_scope(statement: Statement, scope: ScopeView) -> ScopeView
    decreases statement, 1int,
{
    match statement {
        Statement::Expr(expr) => expr_scope(expr, scope),
        Statement::Defn(define) => defn_scope(define, scope),
        Statement::If(cond, if_code, _, else_code) => {
            let branches = elifs_scope(statement, 0, code_scope(if_code, expr_scope(cond, scope)));
            match else_code {
                Some(code) => code_scope(code, branches),
                None => branches,
            }
        },
        Statement::For(variable, iter, code) => code_scope(code, expr_scope(iter, defined(scope, variable))),
        Statement::While(cond, code) => code_scope(code, expr_scope(cond, scope)),
        Statement::Return(expr) => expr_scope(expr, scope),
        Statement::Assert(expr1, expr2) => match expr2 {
            Some(second) => expr_scope(second, expr_scope(expr1, scope)),
            None => expr_scope(expr1, scope),
        },
        Statement::Continue => scope,
        Statement::Break => scope,
    }
}

/// The scope after the `elif` branches from `from` on of the `if`
/// statement `statement`.
pub open spec fn elifs_scope(statement: Statement, from: int, scope: ScopeView) -> ScopeView
    decreases statement, 0int, (match statement {
        Statement::If(_, _, elifs, _) => elifs@.len() - from,
        _ => 0,
    }),
{
    match statement {
        Statement::If(_, _, elifs, _) => if from < 0 || from >= elifs@.len() {
            scope
        } else {
            elifs_scope(
                statement,
                from + 1,
                code_scope(elifs@[from].1, expr_scope(elifs@[from].0, scope)),
            )
        },
        _ => scope,
    }
}

/// The scope of the body of a function definition: its parameters are
/// bound, and its body is gone through. Any other statement has no scope
/// of its own.
pub open spec fn function_scope(define: Define) -> ScopeView {
    match define {
        Define::FunDefn(_, parameters, code) => code_scope(code, all_defined(Map::empty(), parameters@, 0)),
        _ => Map::empty(),
    }
}

/// Counts one more read of `variable`.
pub fn add_var_access(variable: &Variable, scope: &mut Scope)
    ensures
        final(scope)@ == accessed(old(scope)@, *variable),
{
    let updated = match scope.get(variable.name.as_str()) {
        Some(known) => ScopeInformation {
            variable: known.variable.clone(),
            uses: if known.uses < usize::MAX {
                known.uses + 1
            } else {
                known.uses
            },
            has_definition: known.has_definition,
        },
        None => ScopeInformation { variable: variable.clone(), uses: 1, has_definition: false },
    };
    scope.insert(variable.name.clone(), updated);
}

/// Notes that the scope binds `variable`.
pub fn add_var_def(variable: &Variable, scope: &mut Scope)
    ensures
        final(scope)@ == defined(old(scope)@, *variable),
{
    let updated = match scope.get(variable.name.as_str()) {
        Some(known) => ScopeInformation {
            variable: known.variable.clone(),
            uses: known.uses,
            has_definition: true,
        },
        None => ScopeInformation { variable: variable.clone(), uses: 0, has_definition: true },
    };
    scope.insert(variable.name.clone(), updated);
}

/// Goes through the expression and counts the reads of each name.
pub fn preprocess_expr(expr: &Expr, scope: &mut Scope)
    ensures
        final(scope)@ == expr_scope(*expr, old(scope)@),
    decreases expr,
{
    match expr {
        Expr::Var(variable) => add_var_access(variable, scope),
        Expr::Val(_val) => {},
        Expr::Times(expr1, expr2) => {
            preprocess_expr(expr1, scope);
            preprocess_expr(expr2, scope);
        },
        Expr::Divide(expr1, expr2) => {
            preprocess_expr(expr1, scope);
            preprocess_expr(expr2, scope);
        },
        Expr::Plus(expr1, expr2) => {
            preprocess_expr(expr1, scope);
            preprocess_expr(expr2, scope);
        },
        Expr::Minus(expr1, expr2) => {
            preprocess_expr(expr1, scope);
            preprocess_expr(expr2, scope);
        },
        Expr::Pow(expr1, expr2) => {
            preprocess_expr(expr1, scope);
            preprocess_expr(expr2, scope);
        },
        Expr::And(expr1, expr2) => {
            preprocess_expr(expr1, scope);
            preprocess_expr(expr2, scope);
        },
        Expr::Or(expr1, expr2) => {
            preprocess_expr(expr1, scope);
            preprocess_expr(expr2, scope);
        },
        Expr::FunCall(expr1, args) => {
            preprocess_expr(expr1, scope);
            let ghost start = scope@;
            let mut i: usize = 0;
            while i < args.len()
                invariant
                    i <= args.len(),
                    *expr matches Expr::FunCall(_, a) && a == *args,
                    args_scope(args@, i as int, scope@) == args_scope(args@, 0, start),
                decreases args.len() - i,
            {
                preprocess_expr(&args[i], scope);
                i += 1;
            }
        },
        Expr::Comparison(expr1, _comp, expr2) => {
            preprocess_expr(expr1, scope);
            preprocess_expr(expr2, scope);
        },
        Expr::Not(expr) => preprocess_expr(expr, scope),
    }
}

/// Goes through a binding statement.
pub fn preprocess_defn(defn: &Define, scope: &mut Scope)
    ensures
        final(scope)@ == defn_scope(*defn, old(scope)@),
{
    match defn {
        Define::PlusEq(var, expr) => {
            add_var_def(var, scope);
            preprocess_expr(expr, scope);
        },
        Define::MinusEq(var, expr) => {
            add_var_def(var, scope);
            preprocess_expr(expr, scope);
        },
        Define::DivEq(var, expr) => {
            add_var_def(var, scope);
            preprocess_expr(expr, scope);
        },
        Define::MultEq(var, expr) => {
            add_var_def(var, scope);
            preprocess_expr(expr, scope);
        },
        Define::VarDefn(var, expr) => {
            add_var_def(var, scope);
            preprocess_expr(expr, scope);
        },
        Define::FunDefn(func, _parameters, _code) => add_var_def(func, scope),
    }
}

/// The scope of the body of a function definition.
pub fn preprocess_function(defn: &Define) -> (r: Scope)
    ensures
        r@ == function_scope(*defn),
{
    let mut new_scope: Scope = NameTable::new();
    if let Define::FunDefn(_func, parameters, code) = defn {
        let mut i: usize = 0;
        while i < parameters.len()
            invariant
                i <= parameters.len(),
                all_defined(new_scope@, parameters@, i as int) == all_defined(Map::empty(), parameters@, 0),
            decreases parameters.len() - i,
        {
            add_var_def(&parameters[i], &mut new_scope);
            i += 1;
        }
        preprocess_code(code, &mut new_scope);
    }
    new_scope
}

/// Goes through a statement.
fn preprocess_statement(statement: &Statement, scope: &mut Scope)
    ensures
        final(scope)@ == statement_scope(*statement, old(scope)@),
    decreases statement, 1int,
{
    match statement {
        Statement::Expr(expr) => preprocess_expr(expr, scope),
        Statement::Defn(define) => preprocess_defn(define, scope),
        Statement::If(cond, if_code, elif, else_code) => {
            preprocess_expr(cond, scope);
            preprocess_code(if_code, scope);
            let ghost start = scope@;
            let mut i: usize = 0;
            while i < elif.len()
                invariant
                    i <= elif.len(),
                    *statement matches Statement::If(_, _, e, _) && e == *elif,
                    elifs_scope(*statement, i as int, scope@) == elifs_scope(*statement, 0, start),
                decreases elif.len() - i,
            {
                preprocess_expr(&elif[i].0, scope);
                preprocess_code(&elif[i].1, scope);
                i += 1;
            }
            if let Some(code) = else_code {
                preprocess_code(code, scope);
            }
        },
        Statement::For(iter_var, iter_exp, code) => {
            add_var_def(iter_var, scope);
            preprocess_expr(iter_exp, scope);
            preprocess_code(code, scope);
        },
        Statement::While(condition, code) => {
            preprocess_expr(condition, scope);
            preprocess_code(code, scope);
        },
        Statement::Return(rtn_expr) => preprocess_expr(rtn_expr, scope),
        Statement::Assert(expr1, expr2) => {
            preprocess_expr(expr1, scope);
            if let Some(second) = expr2 {
                preprocess_expr(second, scope);
            }
        },
        Statement::Continue => {},
        Statement::Break => {},
    }
}

/// Goes through the statements of a block and notes, for each name, how
/// often the scope reads it and whether the scope binds it.
pub fn preprocess_code(code_block: &CodeBlock, scope: &mut Scope)
    ensures
        final(scope)@ == code_scope(*code_block, old(scope)@),
    decreases code_block, 0int,
{
    let ghost start = scope@;
    let mut i: usize = 0;
    while i < code_block.statements.len()
        invariant
            i <= code_block.statements.len(),
            statements_scope(code_block.statements@, i as int, scope@) == statements_scope(
                code_block.statements@,
                0,
                start,
            ),
        decreases code_block.statements.len() - i,
    {
        preprocess_statement(&code_block.statements[i], scope);
        i += 1;
    }
}

} // verus!
