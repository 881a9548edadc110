//! The evaluator: what expressions yield and what statements do.
//!
//! The first half of the file says what evaluation means; the second half
//! is the code that evaluates, each function with the meaning that it
//! carries out. A block hands to the statement around it a value to
//! return, a `Break` or `Continue` flag, or nothing. `fuel` bounds how deep
//! natives may call back and how often one loop may go round: a program
//! needs as much fuel as its deepest chain of native call-backs, so that
//! without fuel not even `print(1)` gets its text.

use vstd::prelude::*;
use vstd::string::StringExecFns;
use crate::builtins::function_utils::{call_function, raise_fatal, raise_type_error};
use crate::builtins::functions::compare::compare_op;
use crate::builtins::functions::math_op::math_op;
use crate::builtins::outcome::{
    agrees,
    agrees_by,
    carried_out,
    carried_out_by,
    fails,
    flow_view,
    join3,
    views,
    yields,
    Outcome,
};
use crate::builtins::semantics::{
    binary_op,
    call,
    call_method,
    compare,
    construct,
    fatal,
    iterator_after,
    iterator_of,
    iterator_over,
    lemma_next_takes_one_value,
    lemma_range_is_a_progression,
    range_iterator_next,
    range_len,
    range_of,
    py_repr as repr_outcome,
    truthy,
    type_error,
};
use crate::builtins::structure::magic_methods::PyMagicMethod;
use crate::builtins::structure::native::{InitFuncType, NewFuncType, PyInternalFunction, UnaryFuncType};
use crate::builtins::structure::pyclass::PyClass;
use crate::builtins::structure::pyinstance::{InstanceInternal, PyInstance};
use crate::builtins::structure::pyobject::PyPointer;
use crate::builtins::types::range::RangeInstance;
use crate::builtins::structure::pyexception::{PyException, PyExceptionView};
use crate::builtins::structure::pyobject::{
    EmptyFuncReturnType,
    FuncReturnType,
    PyImmutableObject,
    PyIteratorFlag,
    PyMutableObject,
    PyObject,
    PyObjectView,
};
use crate::builtins::types::pybool::convert_pyobj_to_bool;
use crate::builtins::types::pyfloat::FloatHost;
use crate::builtins::types::str::py_repr;
use crate::parser::{CodeBlock, Comparator, Define, Expr, Statement, Value, Variable};
use crate::pyarena::{FrameRef, FrameView, PyArena, State, World};

verus! {

/// What a block hands to the statement around it: a value to return, a
/// `Break` or `Continue` flag, or nothing.
pub type Flow = Option<PyObjectView>;

/// The error for a name that is not bound.
pub open spec fn name_error(w: World, name: Seq<char>) -> PyExceptionView {
    w.exceptions.name_error@.with_message("name '"@ + name + "' is not defined"@)
}

/// The error for a variable whose slot lies outside the fixed slots of a
/// frame.
pub open spec fn bad_slot(w: World) -> PyExceptionView {
    fatal(w, "fast local slot out of range"@)
}

/// The error for a loop that goes round more often than the fuel allows.
pub open spec fn budget_exhausted(w: World) -> PyExceptionView {
    w.exceptions.runtime_error@.with_message("evaluation budget exhausted"@)
}

/// The error for a definition of a function, which the runtime does not
/// implement.
pub open spec fn no_functions(w: World) -> PyExceptionView {
    w.exceptions.not_implemented_error@.with_message("function definitions are not supported"@)
}

/// The error for a value that cannot be iterated over.
pub open spec fn not_iterable(w: World, heap: Seq<PyMutableObject>, value: PyObjectView) -> PyExceptionView {
    type_error(w, "'"@ + value.kind_name(&w.globals, heap) + "' object is not iterable"@)
}

/// The error for an iterator without `__next__`.
pub open spec fn not_an_iterator(w: World, heap: Seq<PyMutableObject>, value: PyObjectView) -> PyExceptionView {
    type_error(w, "iter() returned non-iterator of type '"@ + value.kind_name(&w.globals, heap) + "'"@)
}

/// The error for a `__repr__` that yields another value than a text.
pub open spec fn repr_not_a_text(w: World, heap: Seq<PyMutableObject>, value: PyObjectView) -> PyExceptionView {
    type_error(w, "__repr__ returned non-string (type "@ + value.kind_name(&w.globals, heap) + ")"@)
}

/// The error for a flag that a loop cannot take from its body.
pub open spec fn bad_flag(w: World) -> PyExceptionView {
    fatal(w, "IteratorFlag should be Break or Continue"@)
}

/// The value of a literal.
pub open spec fn literal(value: Value) -> PyObjectView {
    match value {
        Value::Integer(v) => PyObjectView::Int(v),
        Value::Float(bits) => PyObjectView::Float(bits),
        Value::String(text) => PyObjectView::Str(text@),
        Value::Boolean(b) => PyObjectView::Bool(b),
        Value::NoneValue => PyObjectView::NoneValue,
    }
}

/// What a variable is bound to: the frames are searched from the newest
/// to the oldest. A name that no frame binds raises a `NameError`.
pub open spec fn variable_value(w: World, variable: Variable, st: State) -> Option<Outcome<PyObjectView>> {
    if !st.admits(variable.fast_locals_location) {
        fails(bad_slot(w), st)
    } else {
        match st.lookup(variable.name@, variable.fast_locals_location) {
            Some(value) => yields(value, st),
            None => fails(name_error(w, variable.name@), st),
        }
    }
}

/// Binding a variable in the newest frame.
pub open spec fn binds(w: World, variable: Variable, value: PyObjectView, st: State) -> Option<Outcome<()>> {
    if !st.current().admits(variable.fast_locals_location) {
        fails(bad_slot(w), st)
    } else {
        yields(
            (),
            st.with_current(st.current().bound(variable.name@, variable.fast_locals_location, value)),
        )
    }
}

/// The state with `value` written to the cell `cell` of the newest frame.
pub open spec fn stored(st: State, cell: usize, value: PyObjectView) -> State {
    st.with_current(
        FrameView { cells: st.current().cells.update(cell as int, value), ..st.current() },
    )
}

/// The magic method of a binary arithmetic expression.
pub open spec fn arithmetic_method(expr: Expr) -> Option<PyMagicMethod> {
    match expr {
        Expr::Times(_, _) => Some(PyMagicMethod::Mul { right: false }),
        Expr::Divide(_, _) => Some(PyMagicMethod::TrueDiv { right: false }),
        Expr::Plus(_, _) => Some(PyMagicMethod::Add { right: false }),
        Expr::Minus(_, _) => Some(PyMagicMethod::Sub { right: false }),
        Expr::Pow(_, _) => Some(PyMagicMethod::Pow { right: false }),
        _ => None,
    }
}

/// The error for a part of the tree that stands where it cannot stand.
pub open spec fn misplaced(w: World) -> PyExceptionView {
    fatal(w, "misplaced part of the tree"@)
}

/// The error for a loop variable whose cell is gone.
pub open spec fn bad_cell(w: World) -> PyExceptionView {
    fatal(w, "the cell of the loop variable is gone"@)
}

/// What the two operands of a binary expression yield, the left one
/// evaluated first.
pub open spec fn operands_outcome(w: World, expr: Expr, st: State, fuel: nat) -> Option<
    Outcome<(PyObjectView, PyObjectView)>,
>
    decreases expr, 0int, 0int,
{
    match expr {
        Expr::Times(first, second) => match eval_expr_outcome(w, *first, st, fuel) {
            None => None,
            Some(left) => match left.result {
                Err(error) => fails(error, left.state),
                Ok(left_value) => match eval_expr_outcome(w, *second, left.state, fuel) {
                    None => None,
                    Some(right) => match right.result {
                        Err(error) => fails(error, right.state),
                        Ok(right_value) => yields((left_value, right_value), right.state),
                    },
                },
            },
        },
        Expr::Divide(first, second) => match eval_expr_outcome(w, *first, st, fuel) {
            None => None,
            Some(left) => match left.result {
                Err(error) => fails(error, left.state),
                Ok(left_value) => match eval_expr_outcome(w, *second, left.state, fuel) {
                    None => None,
                    Some(right) => match right.result {
                        Err(error) => fails(error, right.state),
                        Ok(right_value) => yields((left_value, right_value), right.state),
                    },
                },
            },
        },
        Expr::Plus(first, second) => match eval_expr_outcome(w, *first, st, fuel) {
            None => None,
            Some(left) => match left.result {
                Err(error) => fails(error, left.state),
                Ok(left_value) => match eval_expr_outcome(w, *second, left.state, fuel) {
                    None => None,
                    Some(right) => match right.result {
                        Err(error) => fails(error, right.state),
                        Ok(right_value) => yields((left_value, right_value), right.state),
                    },
                },
            },
        },
        Expr::Minus(first, second) => match eval_expr_outcome(w, *first, st, fuel) {
            None => None,
            Some(left) => match left.result {
                Err(error) => fails(error, left.state),
                Ok(left_value) => match eval_expr_outcome(w, *second, left.state, fuel) {
                    None => None,
                    Some(right) => match right.result {
                        Err(error) => fails(error, right.state),
                        Ok(right_value) => yields((left_value, right_value), right.state),
                    },
                },
            },
        },
        Expr::Pow(first, second) => match eval_expr_outcome(w, *first, st, fuel) {
            None => None,
            Some(left) => match left.result {
                Err(error) => fails(error, left.state),
                Ok(left_value) => match eval_expr_outcome(w, *second, left.state, fuel) {
                    None => None,
                    Some(right) => match right.result {
                        Err(error) => fails(error, right.state),
                        Ok(right_value) => yields((left_value, right_value), right.state),
                    },
                },
            },
        },
        Expr::Comparison(first, _, second) => match eval_expr_outcome(w, *first, st, fuel) {
            None => None,
            Some(left) => match left.result {
                Err(error) => fails(error, left.state),
                Ok(left_value) => match eval_expr_outcome(w, *second, left.state, fuel) {
                    None => None,
                    Some(right) => match right.result {
                        Err(error) => fails(error, right.state),
                        Ok(right_value) => yields((left_value, right_value), right.state),
                    },
                },
            },
        },
        _ => fails(misplaced(w), st),
    }
}

/// What an expression yields.
pub open spec fn eval_expr_outcome(w: World, expr: Expr, st: State, fuel: nat) -> Option<Outcome<PyObjectView>>
    decreases expr, 1int, 0int,
{
    match expr {
        Expr::Var(variable) => variable_value(w, variable, st),
        Expr::Val(value) => yields(literal(value), st),
        Expr::Comparison(_, comp, _) => match operands_outcome(w, expr, st, fuel) {
            None => None,
            Some(both) => match both.result {
                Err(error) => fails(error, both.state),
                Ok(both_value) => compare(w, comp, both_value.0, both_value.1, both.state, fuel),
            },
        },
        Expr::FunCall(callee, args) => match eval_expr_outcome(w, *callee, st, fuel) {
            None => None,
            Some(func) => match func.result {
                Err(error) => fails(error, func.state),
                Ok(func_value) => match eval_args_outcome(w, args@, 0, Seq::empty(), func.state, fuel) {
                    None => None,
                    Some(given) => match given.result {
                        Err(error) => fails(error, given.state),
                        Ok(given_value) => call(w, func_value, given_value, given.state, fuel),
                    },
                },
            },
        },
        Expr::Not(inner) => match eval_expr_outcome(w, *inner, st, fuel) {
            None => None,
            Some(operand) => match operand.result {
                Err(error) => fails(error, operand.state),
                Ok(operand_value) => match truthy(w, operand_value, operand.state, fuel) {
                    None => None,
                    Some(truth) => match truth.result {
                        Err(error) => fails(error, truth.state),
                        Ok(truth_value) => yields(PyObjectView::Bool(!truth_value), truth.state),
                    },
                },
            },
        },
        Expr::And(first, second) => match eval_expr_outcome(w, *first, st, fuel) {
            None => None,
            Some(left) => match left.result {
                Err(error) => fails(error, left.state),
                Ok(left_value) => match truthy(w, left_value, left.state, fuel) {
                    None => None,
                    Some(truth) => match truth.result {
                        Err(error) => fails(error, truth.state),
                        Ok(truth_value) => if !truth_value {
                    yields(left_value, truth.state)
                } else {
                    eval_expr_outcome(w, *second, truth.state, fuel)
                },
                    },
                },
            },
        },
        Expr::Or(first, second) => match eval_expr_outcome(w, *first, st, fuel) {
            None => None,
            Some(left) => match left.result {
                Err(error) => fails(error, left.state),
                Ok(left_value) => match truthy(w, left_value, left.state, fuel) {
                    None => None,
                    Some(truth) => match truth.result {
                        Err(error) => fails(error, truth.state),
                        Ok(truth_value) => if truth_value {
                    yields(left_value, truth.state)
                } else {
                    eval_expr_outcome(w, *second, truth.state, fuel)
                },
                    },
                },
            },
        },
        _ => match operands_outcome(w, expr, st, fuel) {
            None => None,
            Some(both) => match both.result {
                Err(error) => fails(error, both.state),
                Ok(both_value) => binary_op(w, arithmetic_method(expr).unwrap(), both_value.0, both_value.1, both.state, fuel),
            },
        },
    }
}

/// What the arguments `args[from..]` yield, in order, behind `done`.
pub open spec fn eval_args_outcome(
    w: World,
    args: Seq<Expr>,
    from: int,
    done: Seq<PyObjectView>,
    st: State,
    fuel: nat,
) -> Option<Outcome<Seq<PyObjectView>>>
    decreases args, args.len() - from, 0int,
{
    if from < 0 || from >= args.len() {
        yields(done, st)
    } else {
        match eval_expr_outcome(w, args[from], st, fuel) {
            None => None,
            Some(next) => match next.result {
                Err(error) => fails(error, next.state),
                Ok(next_value) => eval_args_outcome(w, args, from + 1, done.push(next_value), next.state, fuel),
            },
        }
    }
}

/// What an assignment does: the variable is bound to what the expression
/// yields.
pub open spec fn assign_outcome(w: World, variable: Variable, expr: Expr, st: State, fuel: nat) -> Option<
    Outcome<()>,
> {
    match eval_expr_outcome(w, expr, st, fuel) {
        None => None,
        Some(given) => match given.result {
            Err(error) => fails(error, given.state),
            Ok(given_value) => binds(w, variable, given_value, given.state),
        },
    }
}

/// What an augmented assignment does: the variable is read, the operator
/// is applied to what was read and to what the expression yields, and the
/// variable is bound to the result.
pub open spec fn augmented_outcome(
    w: World,
    variable: Variable,
    expr: Expr,
    op: PyMagicMethod,
    st: State,
    fuel: nat,
) -> Option<Outcome<()>> {
    match variable_value(w, variable, st) {
        None => None,
        Some(old) => match old.result {
            Err(error) => fails(error, old.state),
            Ok(old_value) => match eval_expr_outcome(w, expr, old.state, fuel) {
                None => None,
                Some(given) => match given.result {
                    Err(error) => fails(error, given.state),
                    Ok(given_value) => match binary_op(w, op, old_value, given_value, given.state, fuel) {
                        None => None,
                        Some(new) => match new.result {
                            Err(error) => fails(error, new.state),
                            Ok(new_value) => binds(w, variable, new_value, new.state),
                        },
                    },
                },
            },
        },
    }
}

/// What a binding statement does.
pub open spec fn eval_defn_outcome(w: World, define: Define, st: State, fuel: nat) -> Option<Outcome<()>> {
    match define {
        Define::VarDefn(variable, expr) => assign_outcome(w, variable, expr, st, fuel),
        Define::FunDefn(_, _, _) => fails(no_functions(w), st),
        Define::PlusEq(variable, expr) => augmented_outcome(w, variable, expr, PyMagicMethod::Add { right: false }, st, fuel),
        Define::MinusEq(variable, expr) => augmented_outcome(w, variable, expr, PyMagicMethod::Sub { right: false }, st, fuel),
        Define::DivEq(variable, expr) => augmented_outcome(w, variable, expr, PyMagicMethod::TrueDiv { right: false }, st, fuel),
        Define::MultEq(variable, expr) => augmented_outcome(w, variable, expr, PyMagicMethod::Mul { right: false }, st, fuel),
    }
}

/// What an `assert` does. With two expressions it fails where they are
/// not equal, with what `repr()` makes of the second as the message. With
/// one it fails, without a message, where the expression does not count as
/// true.
pub open spec fn eval_assert_outcome(w: World, expr1: Expr, expr2: Option<Expr>, st: State, fuel: nat) -> Option<
    Outcome<()>,
> {
    match eval_expr_outcome(w, expr1, st, fuel) {
        None => None,
        Some(first) => match first.result {
            Err(error) => fails(error, first.state),
            Ok(first_value) => match expr2 {
            Some(second) => match eval_expr_outcome(w, second, first.state, fuel) {
                None => None,
                Some(second_given) => match second_given.result {
                    Err(error) => fails(error, second_given.state),
                    Ok(second_given_value) => match compare(w, Comparator::Equal, first_value, second_given_value, second_given.state, fuel) {
                    None => None,
                    Some(equal) => match equal.result {
                        Err(error) => fails(error, equal.state),
                        Ok(equal_value) => match truthy(w, equal_value, equal.state, fuel) {
                            None => None,
                            Some(truth) => match truth.result {
                                Err(error) => fails(error, truth.state),
                                Ok(truth_value) => if truth_value {
                            yields((), truth.state)
                        } else {
                            match repr_outcome(w, second_given_value, truth.state, fuel) {
                                None => None,
                                Some(shown) => match shown.result {
                                    Err(error) => fails(error, shown.state),
                                    Ok(shown_value) => match shown_value {
                                    PyObjectView::Str(text) => fails(
                                        w.exceptions.assertion_error@.with_message(text),
                                        shown.state,
                                    ),
                                    other => fails(repr_not_a_text(w, shown.state.heap, other), shown.state),
                                },
                                },
                            }
                        },
                            },
                        },
                    },
                },
                },
            },
            None => match truthy(w, first_value, first.state, fuel) {
                None => None,
                Some(truth) => match truth.result {
                    Err(error) => fails(error, truth.state),
                    Ok(truth_value) => if truth_value {
                    yields((), truth.state)
                } else {
                    fails(w.exceptions.assertion_error@, truth.state)
                },
                },
            },
        },
        },
    }
}

/// What a block does: its statements, in order, until one hands something
/// to the statement around the block.
pub open spec fn eval_block_outcome(w: World, code: CodeBlock, st: State, fuel: nat) -> Option<Outcome<Flow>>
    decreases code, 0int, 0int,
{
    eval_statements_outcome(w, code.statements@, 0, st, fuel)
}

/// What the statements `statements[from..]` do.
pub open spec fn eval_statements_outcome(
    w: World,
    statements: Seq<Statement>,
    from: int,
    st: State,
    fuel: nat,
) -> Option<Outcome<Flow>>
    decreases statements, statements.len() - from, 0int,
{
    if from < 0 || from >= statements.len() {
        yields(None, st)
    } else {
        match eval_statement_outcome(w, statements[from], st, fuel) {
            None => None,
            Some(done) => match done.result {
                Err(error) => fails(error, done.state),
                Ok(done_value) => match done_value {
                Some(flow) => yields(Some(flow), done.state),
                None => eval_statements_outcome(w, statements, from + 1, done.state, fuel),
            },
            },
        }
    }
}

/// What a statement does, and what it hands to the block that it stands
/// in.
pub open spec fn eval_statement_outcome(w: World, statement: Statement, st: State, fuel: nat) -> Option<
    Outcome<Flow>,
>
    decreases statement, 2int, 0int,
{
    match statement {
        Statement::Expr(expr) => match eval_expr_outcome(w, expr, st, fuel) {
            None => None,
            Some(given) => match given.result {
                Err(error) => fails(error, given.state),
                Ok(given_value) => yields(None, given.state),
            },
        },
        Statement::Defn(define) => match eval_defn_outcome(w, define, st, fuel) {
            None => None,
            Some(bound) => match bound.result {
                Err(error) => fails(error, bound.state),
                Ok(bound_value) => yields(None, bound.state),
            },
        },
        Statement::If(cond, if_code, _, _) => match eval_expr_outcome(w, cond, st, fuel) {
            None => None,
            Some(given) => match given.result {
                Err(error) => fails(error, given.state),
                Ok(given_value) => match truthy(w, given_value, given.state, fuel) {
                    None => None,
                    Some(truth) => match truth.result {
                        Err(error) => fails(error, truth.state),
                        Ok(truth_value) => if truth_value {
                    eval_block_outcome(w, if_code, truth.state, fuel)
                } else {
                    eval_elifs_outcome(w, statement, 0, truth.state, fuel)
                },
                    },
                },
            },
        },
        Statement::For(variable, iter, _) => match eval_expr_outcome(w, iter, st, fuel) {
            None => None,
            Some(iterable) => match iterable.result {
                Err(error) => fails(error, iterable.state),
                Ok(iterable_value) => match iterable_value.method_of(PyMagicMethod::Iter, &w.globals, iterable.state.heap) {
                None => fails(not_iterable(w, iterable.state.heap, iterable_value), iterable.state),
                Some(iter_func) => match call(w, iter_func, seq![iterable_value], iterable.state, fuel) {
                    None => None,
                    Some(iterator) => match iterator.result {
                        Err(error) => fails(error, iterator.state),
                        Ok(iterator_value) => match iterator_value.method_of(PyMagicMethod::Next, &w.globals, iterator.state.heap) {
                        None => fails(not_an_iterator(w, iterator.state.heap, iterator_value), iterator.state),
                        Some(next_func) => match binds(w, variable, PyObjectView::NoneValue, iterator.state) {
                            None => None,
                            Some(bound) => match bound.result {
                                Err(error) => fails(error, bound.state),
                                Ok(bound_value) => eval_for_outcome(
                                    w,
                                    statement,
                                    iterator_value,
                                    next_func,
                                    bound.state.current().cell_of(variable.name@, variable.fast_locals_location).unwrap(),
                                    bound.state,
                                    fuel,
                                    fuel,
                                ),
                            },
                        },
                    },
                    },
                },
            },
            },
        },
        Statement::While(_, _) => eval_while_outcome(w, statement, st, fuel, fuel),
        Statement::Return(expr) => match eval_expr_outcome(w, expr, st, fuel) {
            None => None,
            Some(given) => match given.result {
                Err(error) => fails(error, given.state),
                Ok(given_value) => yields(Some(given_value), given.state),
            },
        },
        Statement::Assert(expr1, expr2) => match eval_assert_outcome(w, expr1, expr2, st, fuel) {
            None => None,
            Some(checked) => match checked.result {
                Err(error) => fails(error, checked.state),
                Ok(checked_value) => yields(None, checked.state),
            },
        },
        Statement::Continue => yields(Some(PyObjectView::Flag(PyIteratorFlag::Continue)), st),
        Statement::Break => yields(Some(PyObjectView::Flag(PyIteratorFlag::Break)), st),
    }
}

/// What an `if` does once its first condition has failed: the block of
/// the first of `elifs[from..]` whose condition counts as true, else the
/// `else` block, else nothing.
pub open spec fn eval_elifs_outcome(w: World, statement: Statement, from: int, st: State, fuel: nat) -> Option<
    Outcome<Flow>,
>
    decreases statement, 1int, (match statement {
        Statement::If(_, _, elifs, _) => elifs@.len() - from,
        _ => 0,
    }),
{
    match statement {
        Statement::If(_, _, elifs, else_code) => if from < 0 || from >= elifs@.len() {
            match else_code {
                Some(code) => eval_block_outcome(w, code, st, fuel),
                None => yields(None, st),
            }
        } else {
            match eval_expr_outcome(w, elifs@[from].0, st, fuel) {
                None => None,
                Some(given) => match given.result {
                    Err(error) => fails(error, given.state),
                    Ok(given_value) => match truthy(w, given_value, given.state, fuel) {
                        None => None,
                        Some(truth) => match truth.result {
                            Err(error) => fails(error, truth.state),
                            Ok(truth_value) => if truth_value {
                        eval_block_outcome(w, elifs@[from].1, truth.state, fuel)
                    } else {
                        eval_elifs_outcome(w, statement, from + 1, truth.state, fuel)
                    },
                        },
                    },
                },
            }
        },
        _ => fails(misplaced(w), st),
    }
}

/// What a loop makes of what its body handed to it: `Break` ends the
/// loop, `Continue` and nothing let it go round again, a value to return
/// ends it and is handed on. `None` stands for going round again.
pub open spec fn loop_ends(w: World, flow: Flow, st: State) -> Option<Option<Outcome<Flow>>> {
    match flow {
        None => None,
        Some(PyObjectView::Flag(PyIteratorFlag::Continue)) => None,
        Some(PyObjectView::Flag(PyIteratorFlag::Break)) => Some(yields(None, st)),
        Some(PyObjectView::Flag(PyIteratorFlag::StopIteration)) => Some(fails(bad_flag(w), st)),
        Some(value) => Some(yields(Some(value), st)),
    }
}

/// What a `while` does that may still go round `budget` times: the
/// condition is evaluated anew each time round.
pub open spec fn eval_while_outcome(w: World, statement: Statement, st: State, fuel: nat, budget: nat) -> Option<
    Outcome<Flow>,
>
    decreases statement, 1int, budget,
{
    match statement {
        Statement::While(cond, code) => if budget == 0 {
            fails(budget_exhausted(w), st)
        } else {
            match eval_expr_outcome(w, cond, st, fuel) {
                None => None,
                Some(given) => match given.result {
                    Err(error) => fails(error, given.state),
                    Ok(given_value) => match truthy(w, given_value, given.state, fuel) {
                        None => None,
                        Some(truth) => match truth.result {
                            Err(error) => fails(error, truth.state),
                            Ok(truth_value) => if !truth_value {
                        yields(None, truth.state)
                    } else {
                        match eval_block_outcome(w, code, truth.state, fuel) {
                            None => None,
                            Some(body) => match body.result {
                                Err(error) => fails(error, body.state),
                                Ok(body_value) => match loop_ends(w, body_value, body.state) {
                                Some(ended) => ended,
                                None => eval_while_outcome(w, statement, body.state, fuel, (budget - 1) as nat),
                            },
                            },
                        }
                    },
                        },
                    },
                },
            }
        },
        _ => fails(misplaced(w), st),
    }
}

/// What a `for` does that may still go round `budget` times: `__next__`
/// of the iterator is called; `StopIteration` ends the loop, any other
/// failure is the failure of the loop; the value is written to the cell of
/// the loop variable, and the body is evaluated.
pub open spec fn eval_for_outcome(
    w: World,
    statement: Statement,
    iterator: PyObjectView,
    next_func: PyObjectView,
    cell: usize,
    st: State,
    fuel: nat,
    budget: nat,
) -> Option<Outcome<Flow>>
    decreases statement, 1int, budget,
{
    match statement {
        Statement::For(_, _, code) => if budget == 0 {
            fails(budget_exhausted(w), st)
        } else {
            match call(w, next_func, seq![iterator], st, fuel) {
                None => None,
                Some(next) => match next.result {
                    Err(error) => if error.same_kind(w.exceptions.stop_iteration@) {
                        yields(None, next.state)
                    } else {
                        fails(error, next.state)
                    },
                    Ok(value) => if cell >= next.state.current().cells.len() { fails(bad_cell(w), next.state) } else { match eval_block_outcome(w, code, stored(next.state, cell, value), fuel) {
                        None => None,
                        Some(body) => match body.result {
                            Err(error) => fails(error, body.state),
                            Ok(body_value) => match loop_ends(w, body_value, body.state) {
                            Some(ended) => ended,
                            None => eval_for_outcome(
                                w,
                                statement,
                                iterator,
                                next_func,
                                cell,
                                body.state,
                                fuel,
                                (budget - 1) as nat,
                            ),
                        },
                        },
                    } },
                },
            }
        },
        _ => fails(misplaced(w), st),
    }
}

/// What evaluating a program does: its block is evaluated, and an
/// exception that nothing handled is printed.
pub open spec fn evaluation(w: World, code: CodeBlock, st: State, fuel: nat) -> Option<Outcome<()>> {
    match eval_block_outcome(w, code, st, fuel) {
        None => None,
        Some(done) => match done.result {
            Ok(_) => yields((), done.state),
            Err(error) => yields((), done.state.printed(error.rendered())),
        },
    }
}

/// What `variable` is bound to: a copy of the value. A name that no frame
/// binds raises a `NameError`.
pub fn eval_var(variable: &Variable, arena: &PyArena) -> (r: FuncReturnType)
    requires
        arena.wf(),
    ensures
        agrees(variable_value(arena.world(), *variable, arena@), r, arena@),
{
    if !arena.admits(variable) {
        return Err(raise_fatal(arena, "fast local slot out of range"));
    }
    match arena.search_for_var(variable) {
        Some(value) => Ok(value.clone()),
        None => Err(
            arena.exceptions.name_error.instantiate(join3("name '", variable.name.as_str(), "' is not defined")),
        ),
    }
}

/// The value of a literal.
pub fn eval_val(value: &Value, arena: &PyArena) -> (r: PyObject)
    requires
        arena.wf(),
    ensures
        r@ == literal(*value),
{
    match value {
        Value::Integer(value) => PyObject::new_int(*value),
        Value::Float(value) => PyObject::new_float(*value),
        Value::String(value) => PyObject::new_string(value.clone()),
        Value::Boolean(value) => arena.statics.get_bool(*value).clone(),
        Value::NoneValue => arena.statics.none().clone(),
    }
}

/// Binds `variable` to `value` in the newest frame.
pub fn bind(variable: &Variable, value: PyObject, arena: &mut PyArena) -> (r: EmptyFuncReturnType)
    requires
        old(arena).wf(),
    ensures
        carried_out(old(arena), final(arena), binds(old(arena).world(), *variable, value@, old(arena)@), r),
{
    let fits = match variable.fast_locals_location {
        Some(place) => place < arena.get_current_frame().fast_locals.len(),
        None => true,
    };
    assert(arena@.frames.last() == arena.frames@.last()@);
    if !fits {
        return Err(raise_fatal(arena, "fast local slot out of range"));
    }
    let ghost before = arena@;
    let ghost frames = arena.frames@;
    let frame = arena.get_current_frame_mut();
    frame.set(variable, value);
    proof {
        assert(arena@.frames =~= before.frames.update(
            before.frames.len() - 1,
            before.current().bound(variable.name@, variable.fast_locals_location, value@),
        ));
        assert forall|i: int| 0 <= i < arena.frames@.len() implies (#[trigger] arena.frames@[i]).wf() by {
            if i < arena.frames@.len() - 1 {
                assert(arena.frames@[i] == frames[i]);
            }
        }
    }
    Ok(())
}

/// Writes `value` to the cell `cell` of the newest frame.
pub fn store(cell: usize, value: PyObject, arena: &mut PyArena)
    requires
        old(arena).wf(),
        cell < old(arena)@.current().cells.len(),
    ensures
        final(arena).wf(),
        final(arena).same_world(old(arena)),
        final(arena)@ == stored(old(arena)@, cell, value@),
{
    let ghost before = arena@;
    let ghost frames = arena.frames@;
    assert(arena@.frames.last() == arena.frames@.last()@);
    let frame = arena.get_current_frame_mut();
    frame.write(FrameRef { cell }, value);
    proof {
        assert(arena@.frames =~= before.frames.update(
            before.frames.len() - 1,
            FrameView { cells: before.current().cells.update(cell as int, value@), ..before.current() },
        ));
        assert forall|i: int| 0 <= i < arena.frames@.len() implies (#[trigger] arena.frames@[i]).wf() by {
            if i < arena.frames@.len() - 1 {
                assert(arena.frames@[i] == frames[i]);
            }
        }
    }
}

/// The values of the arguments, evaluated in order.
pub fn eval_args<H: FloatHost>(args: &Vec<Expr>, arena: &mut PyArena, host: &H, fuel: usize) -> (r: Result<
    Vec<PyObject>,
    PyException,
>)
    requires
        old(arena).wf(),
    ensures
        carried_out_by(
            old(arena),
            final(arena),
            eval_args_outcome(old(arena).world_of(host), args@, 0, Seq::empty(), old(arena)@, fuel as nat),
            r,
            |values: Vec<PyObject>| views(values@),
        ),
    decreases args, 0int,
{
    let ghost w = arena.world_of(host);
    let ghost expected = eval_args_outcome(w, args@, 0, Seq::empty(), arena@, fuel as nat);
    let mut evaluated_args: Vec<PyObject> = Vec::new();
    let mut i: usize = 0;
    assert(views(evaluated_args@) =~= Seq::empty());
    while i < args.len()
        invariant
            i <= args.len(),
            arena.wf(),
            arena.world_of(host) == w,
            w == old(arena).world_of(host),
            expected == eval_args_outcome(w, args@, 0, Seq::empty(), old(arena)@, fuel as nat),
            expected is Some ==> expected == eval_args_outcome(
                w,
                args@,
                i as int,
                views(evaluated_args@),
                arena@,
                fuel as nat,
            ),
        decreases args.len() - i,
    {
        let ghost done = views(evaluated_args@);
        match eval_expr(&args[i], arena, host, fuel) {
            Ok(value) => {
                evaluated_args.push(value);
                assert(views(evaluated_args@) =~= done.push(value@));
            },
            Err(error) => {
                return Err(error);
            },
        }
        i += 1;
    }
    Ok(evaluated_args)
}

/// The operands of a binary expression, the left one evaluated first.
fn eval_operands<H: FloatHost>(expr: &Expr, arena: &mut PyArena, host: &H, fuel: usize) -> (r: Result<
    (PyObject, PyObject),
    PyException,
>)
    requires
        old(arena).wf(),
        arithmetic_method(*expr) is Some || *expr is Comparison,
    ensures
        carried_out_by(
            old(arena),
            final(arena),
            operands_outcome(old(arena).world_of(host), *expr, old(arena)@, fuel as nat),
            r,
            |pair: (PyObject, PyObject)| (pair.0@, pair.1@),
        ),
    decreases expr, 0int,
{
    let (first, second) = match expr {
        Expr::Times(first, second) => (first, second),
        Expr::Divide(first, second) => (first, second),
        Expr::Plus(first, second) => (first, second),
        Expr::Minus(first, second) => (first, second),
        Expr::Pow(first, second) => (first, second),
        Expr::Comparison(first, _, second) => (first, second),
        _ => unreached(),
    };
    let left = eval_expr(first, arena, host, fuel)?;
    let right = eval_expr(second, arena, host, fuel)?;
    Ok((left, right))
}

/// Calls what the callee of a call expression yields with what its
/// arguments yield.
fn eval_fun_call<H: FloatHost>(expr: &Expr, arena: &mut PyArena, host: &H, fuel: usize) -> (r: FuncReturnType)
    requires
        old(arena).wf(),
        *expr is FunCall,
    ensures
        carried_out(
            old(arena),
            final(arena),
            eval_expr_outcome(old(arena).world_of(host), *expr, old(arena)@, fuel as nat),
            r,
        ),
    decreases expr, 0int,
{
    match expr {
        Expr::FunCall(callee, args) => {
            let func = eval_expr(callee, arena, host, fuel)?;
            let evaluated_args = eval_args(args, arena, host, fuel)?;
            call_function(&func, evaluated_args.as_slice(), arena, host, fuel)
        },
        _ => unreached(),
    }
}

/// `not`: whether the operand does not count as true.
fn eval_not<H: FloatHost>(expr: &Expr, arena: &mut PyArena, host: &H, fuel: usize) -> (r: FuncReturnType)
    requires
        old(arena).wf(),
        *expr is Not,
    ensures
        carried_out(
            old(arena),
            final(arena),
            eval_expr_outcome(old(arena).world_of(host), *expr, old(arena)@, fuel as nat),
            r,
        ),
    decreases expr, 0int,
{
    match expr {
        Expr::Not(inner) => {
            let pyobj = eval_expr(inner, arena, host, fuel)?;
            let boolean = convert_pyobj_to_bool(&pyobj, arena, host, fuel)?;
            Ok(arena.statics.get_bool(!boolean).clone())
        },
        _ => unreached(),
    }
}

/// `and`: the left operand where it does not count as true, else the
/// right one, which is evaluated only then.
fn eval_and<H: FloatHost>(expr: &Expr, arena: &mut PyArena, host: &H, fuel: usize) -> (r: FuncReturnType)
    requires
        old(arena).wf(),
        *expr is And,
    ensures
        carried_out(
            old(arena),
            final(arena),
            eval_expr_outcome(old(arena).world_of(host), *expr, old(arena)@, fuel as nat),
            r,
        ),
    decreases expr, 0int,
{
    match expr {
        Expr::And(expr1, expr2) => {
            let pyobj1 = eval_expr(expr1, arena, host, fuel)?;
            let boolean1 = convert_pyobj_to_bool(&pyobj1, arena, host, fuel)?;
            if !boolean1 {
                return Ok(pyobj1);
            }
            eval_expr(expr2, arena, host, fuel)
        },
        _ => unreached(),
    }
}

/// `or`: the left operand where it counts as true, else the right one,
/// which is evaluated only then.
fn eval_or<H: FloatHost>(expr: &Expr, arena: &mut PyArena, host: &H, fuel: usize) -> (r: FuncReturnType)
    requires
        old(arena).wf(),
        *expr is Or,
    ensures
        carried_out(
            old(arena),
            final(arena),
            eval_expr_outcome(old(arena).world_of(host), *expr, old(arena)@, fuel as nat),
            r,
        ),
    decreases expr, 0int,
{
    match expr {
        Expr::Or(expr1, expr2) => {
            let pyobj1 = eval_expr(expr1, arena, host, fuel)?;
            let boolean1 = convert_pyobj_to_bool(&pyobj1, arena, host, fuel)?;
            if boolean1 {
                return Ok(pyobj1);
            }
            eval_expr(expr2, arena, host, fuel)
        },
        _ => unreached(),
    }
}

/// Evaluates an expression.
pub fn eval_expr<H: FloatHost>(expr: &Expr, arena: &mut PyArena, host: &H, fuel: usize) -> (r: FuncReturnType)
    requires
        old(arena).wf(),
    ensures
        carried_out(
            old(arena),
            final(arena),
            eval_expr_outcome(old(arena).world_of(host), *expr, old(arena)@, fuel as nat),
            r,
        ),
    decreases expr, 1int,
{
    match expr {
        Expr::Var(name) => eval_var(name, arena),
        Expr::Val(value) => Ok(eval_val(value, arena)),
        Expr::Times(_, _) => {
            let (left, right) = eval_operands(expr, arena, host, fuel)?;
            math_op(left, right, PyMagicMethod::Mul { right: false }, arena, host, fuel)
        },
        Expr::Divide(_, _) => {
            let (left, right) = eval_operands(expr, arena, host, fuel)?;
            math_op(left, right, PyMagicMethod::TrueDiv { right: false }, arena, host, fuel)
        },
        Expr::Plus(_, _) => {
            let (left, right) = eval_operands(expr, arena, host, fuel)?;
            math_op(left, right, PyMagicMethod::Add { right: false }, arena, host, fuel)
        },
        Expr::Minus(_, _) => {
            let (left, right) = eval_operands(expr, arena, host, fuel)?;
            math_op(left, right, PyMagicMethod::Sub { right: false }, arena, host, fuel)
        },
        Expr::Pow(_, _) => {
            let (left, right) = eval_operands(expr, arena, host, fuel)?;
            math_op(left, right, PyMagicMethod::Pow { right: false }, arena, host, fuel)
        },
        Expr::Comparison(_, comp, _) => {
            let (left, right) = eval_operands(expr, arena, host, fuel)?;
            compare_op(&left, &right, comp, arena, host, fuel)
        },
        Expr::FunCall(_, _) => eval_fun_call(expr, arena, host, fuel),
        Expr::Not(_) => eval_not(expr, arena, host, fuel),
        Expr::And(_, _) => eval_and(expr, arena, host, fuel),
        Expr::Or(_, _) => eval_or(expr, arena, host, fuel),
    }
}

/// Binds `variable` to what `expr` yields.
pub fn eval_defn_var<H: FloatHost>(variable: &Variable, expr: &Expr, arena: &mut PyArena, host: &H, fuel: usize) -> (r:
    EmptyFuncReturnType)
    requires
        old(arena).wf(),
    ensures
        carried_out(
            old(arena),
            final(arena),
            assign_outcome(old(arena).world_of(host), *variable, *expr, old(arena)@, fuel as nat),
            r,
        ),
{
    let result = eval_expr(expr, arena, host, fuel)?;
    bind(variable, result, arena)
}

/// An augmented assignment: reads `variable`, applies `op` to what it read
/// and to what `expr` yields, and binds `variable` to the result.
pub fn eval_op_equals<H: FloatHost>(
    variable: &Variable,
    expr: &Expr,
    op: PyMagicMethod,
    arena: &mut PyArena,
    host: &H,
    fuel: usize,
) -> (r: EmptyFuncReturnType)
    requires
        old(arena).wf(),
        op.is_arithmetic(),
    ensures
        carried_out(
            old(arena),
            final(arena),
            augmented_outcome(old(arena).world_of(host), *variable, *expr, op, old(arena)@, fuel as nat),
            r,
        ),
{
    let old_value = eval_var(variable, arena)?;
    let operand = eval_expr(expr, arena, host, fuel)?;
    let new_value = math_op(old_value, operand, op, arena, host, fuel)?;
    bind(variable, new_value, arena)
}

/// `assert`. With two expressions it raises an `AssertionError` where
/// they are not equal, with what `repr()` makes of the second as the
/// message. With one it raises an `AssertionError` without a message where
/// the expression does not count as true.
pub fn eval_assert<H: FloatHost>(expr1: &Expr, expr2: &Option<Expr>, arena: &mut PyArena, host: &H, fuel: usize) -> (r:
    EmptyFuncReturnType)
    requires
        old(arena).wf(),
    ensures
        carried_out(
            old(arena),
            final(arena),
            eval_assert_outcome(old(arena).world_of(host), *expr1, *expr2, old(arena)@, fuel as nat),
            r,
        ),
{
    let result1 = eval_expr(expr1, arena, host, fuel)?;
    if let Some(expr2) = expr2 {
        let result2 = eval_expr(expr2, arena, host, fuel)?;
        let is_equal = compare_op(&result1, &result2, &Comparator::Equal, arena, host, fuel)?;
        if !convert_pyobj_to_bool(&is_equal, arena, host, fuel)? {
            let shown = py_repr(&result2, arena, host, fuel)?;
            return match shown {
                PyObject::Immutable(PyImmutableObject::Str(msg)) => Err(
                    arena.exceptions.assertion_error.instantiate(msg),
                ),
                other => {
                    let name = other.class_name(arena);
                    Err(
                        raise_type_error(
                            arena,
                            join3("__repr__ returned non-string (type ", name.as_str(), ")"),
                        ),
                    )
                },
            };
        }
        return Ok(());
    }
    if !convert_pyobj_to_bool(&result1, arena, host, fuel)? {
        return Err(arena.exceptions.assertion_error.empty());
    }
    Ok(())
}

/// A statement that binds a name.
pub fn eval_defn<H: FloatHost>(define: &Define, arena: &mut PyArena, host: &H, fuel: usize) -> (r:
    EmptyFuncReturnType)
    requires
        old(arena).wf(),
    ensures
        carried_out(
            old(arena),
            final(arena),
            eval_defn_outcome(old(arena).world_of(host), *define, old(arena)@, fuel as nat),
            r,
        ),
{
    match define {
        Define::PlusEq(variable, expr) => eval_op_equals(
            variable,
            expr,
            PyMagicMethod::Add { right: false },
            arena,
            host,
            fuel,
        ),
        Define::MinusEq(variable, expr) => eval_op_equals(
            variable,
            expr,
            PyMagicMethod::Sub { right: false },
            arena,
            host,
            fuel,
        ),
        Define::DivEq(variable, expr) => eval_op_equals(
            variable,
            expr,
            PyMagicMethod::TrueDiv { right: false },
            arena,
            host,
            fuel,
        ),
        Define::MultEq(variable, expr) => eval_op_equals(
            variable,
            expr,
            PyMagicMethod::Mul { right: false },
            arena,
            host,
            fuel,
        ),
        Define::VarDefn(variable, expr) => eval_defn_var(variable, expr, arena, host, fuel),
        Define::FunDefn(_, _, _) => Err(
            arena.exceptions.not_implemented_error.instantiate(
                String::from_str("function definitions are not supported"),
            ),
        ),
    }
}

/// What a block returned: a value to return, a flag, or nothing.
pub type CodeBlockReturn = Result<Option<PyObject>, PyException>;

/// What a loop makes of what its body handed to it.
enum LoopStep {
    Next,
    Leave(CodeBlockReturn),
}

fn after_body(flow: Option<PyObject>, arena: &PyArena) -> (r: LoopStep)
    requires
        arena.wf(),
    ensures
        match loop_ends(arena.world(), flow_view(flow), arena@) {
            None => r is Next,
            Some(ended) => r matches LoopStep::Leave(result) && agrees_by(
                ended,
                result,
                arena@,
                |flow: Option<PyObject>| flow_view(flow),
            ),
        },
{
    match flow {
        None => LoopStep::Next,
        Some(PyObject::IteratorFlag(PyIteratorFlag::Continue)) => LoopStep::Next,
        Some(PyObject::IteratorFlag(PyIteratorFlag::Break)) => LoopStep::Leave(Ok(None)),
        Some(PyObject::IteratorFlag(PyIteratorFlag::StopIteration)) => LoopStep::Leave(
            Err(raise_fatal(arena, "IteratorFlag should be Break or Continue")),
        ),
        Some(value) => LoopStep::Leave(Ok(Some(value))),
    }
}

fn out_of_budget(arena: &PyArena) -> (e: PyException)
    requires
        arena.wf(),
    ensures
        e@ == budget_exhausted(arena.world()),
{
    arena.exceptions.runtime_error.instantiate(String::from_str("evaluation budget exhausted"))
}

/// A `for` loop. The iterable gives an iterator by its `__iter__`, and
/// `__next__` of the iterator gives the values, until it raises
/// `StopIteration`. The loop variable has one cell, which each value is
/// written to in place.
fn eval_for<H: FloatHost>(statement: &Statement, arena: &mut PyArena, host: &H, fuel: usize) -> (r:
    CodeBlockReturn)
    requires
        old(arena).wf(),
        *statement is For,
    ensures
        carried_out_by(
            old(arena),
            final(arena),
            eval_statement_outcome(old(arena).world_of(host), *statement, old(arena)@, fuel as nat),
            r,
            |flow: Option<PyObject>| flow_view(flow),
        ),
    decreases statement, 0int,
{
    let (iter_variable, iter, code) = match statement {
        Statement::For(iter_variable, iter, code) => (iter_variable, iter, code),
        _ => unreached(),
    };
    let ghost w = arena.world_of(host);
    let iterable = eval_expr(iter, arena, host, fuel)?;
    let iter_func = match iterable.get_magic_method(&PyMagicMethod::Iter, arena) {
        Some(func) => func,
        None => {
            let name = iterable.class_name(arena);
            return Err(raise_type_error(arena, join3("'", name.as_str(), "' object is not iterable")));
        },
    };
    let iterable_args = [iterable.clone()];
    assert(views(iterable_args@) =~= seq![iterable@]);
    let iterator = call_function(&iter_func, &iterable_args, arena, host, fuel)?;
    let next_func = match iterator.get_magic_method(&PyMagicMethod::Next, arena) {
        Some(func) => func,
        None => {
            let name = iterator.class_name(arena);
            return Err(
                raise_type_error(arena, join3("iter() returned non-iterator of type '", name.as_str(), "'")),
            );
        },
    };
    let none_value = arena.statics.none().clone();
    bind(iter_variable, none_value, arena)?;
    assert(arena@.frames.last() == arena.frames@.last()@);
    let cell = match arena.get_current_frame().get(iter_variable) {
        Some(place) => place.cell,
        None => {
            proof {
                let frame = arena@.current();
                assert(false);
            }
            return Err(raise_fatal(arena, "the cell of the loop variable is gone"));
        },
    };
    let iterator_args = [iterator.clone()];
    assert(views(iterator_args@) =~= seq![iterator@]);
    let ghost expected = eval_statement_outcome(w, *statement, old(arena)@, fuel as nat);
    let mut budget = fuel;
    loop
        invariant
            arena.wf(),
            arena.world_of(host) == w,
            w == old(arena).world_of(host),
            *statement is For,
            *statement matches Statement::For(_, _, c) && c == *code,
            views(iterator_args@) == seq![iterator@],
            expected == eval_statement_outcome(w, *statement, old(arena)@, fuel as nat),
            expected is Some ==> expected == eval_for_outcome(
                w,
                *statement,
                iterator@,
                next_func@,
                cell,
                arena@,
                fuel as nat,
                budget as nat,
            ),
        decreases budget,
    {
        if budget == 0 {
            return Err(out_of_budget(arena));
        }
        let next_val = match call_function(&next_func, &iterator_args, arena, host, fuel) {
            Ok(value) => value,
            Err(error) => {
                if error.is_same_type(&arena.exceptions.stop_iteration) {
                    return Ok(None);
                }
                return Err(error);
            },
        };
        assert(arena@.frames.last() == arena.frames@.last()@);
        if cell >= arena.get_current_frame().cells.len() {
            return Err(raise_fatal(arena, "the cell of the loop variable is gone"));
        }
        store(cell, next_val, arena);
        let code_result = eval_code_block(code, arena, host, fuel)?;
        match after_body(code_result, arena) {
            LoopStep::Next => {},
            LoopStep::Leave(result) => {
                return result;
            },
        }
        budget -= 1;
    }
}

/// A `while` loop: the condition is evaluated anew each time round.
/// `Break` ends the loop, `Continue` goes to the condition again, and a
/// value to return is handed on.
fn eval_while<H: FloatHost>(statement: &Statement, arena: &mut PyArena, host: &H, fuel: usize) -> (r:
    CodeBlockReturn)
    requires
        old(arena).wf(),
        *statement is While,
    ensures
        carried_out_by(
            old(arena),
            final(arena),
            eval_statement_outcome(old(arena).world_of(host), *statement, old(arena)@, fuel as nat),
            r,
            |flow: Option<PyObject>| flow_view(flow),
        ),
    decreases statement, 0int,
{
    let (condition, code) = match statement {
        Statement::While(condition, code) => (condition, code),
        _ => unreached(),
    };
    let ghost w = arena.world_of(host);
    let ghost expected = eval_statement_outcome(w, *statement, arena@, fuel as nat);
    let mut budget = fuel;
    loop
        invariant
            arena.wf(),
            arena.world_of(host) == w,
            w == old(arena).world_of(host),
            *statement matches Statement::While(e, c) && e == *condition && c == *code,
            expected == eval_statement_outcome(w, *statement, old(arena)@, fuel as nat),
            expected is Some ==> expected == eval_while_outcome(
                w,
                *statement,
                arena@,
                fuel as nat,
                budget as nat,
            ),
        decreases budget,
    {
        if budget == 0 {
            return Err(out_of_budget(arena));
        }
        let tested = eval_expr(condition, arena, host, fuel)?;
        if !convert_pyobj_to_bool(&tested, arena, host, fuel)? {
            return Ok(None);
        }
        let return_value = eval_code_block(code, arena, host, fuel)?;
        match after_body(return_value, arena) {
            LoopStep::Next => {},
            LoopStep::Leave(result) => {
                return result;
            },
        }
        budget -= 1;
    }
}

/// An `if`: the block of the first condition that counts as true, else the
/// `else` block, else nothing.
fn eval_if<H: FloatHost>(statement: &Statement, arena: &mut PyArena, host: &H, fuel: usize) -> (r:
    CodeBlockReturn)
    requires
        old(arena).wf(),
        *statement is If,
    ensures
        carried_out_by(
            old(arena),
            final(arena),
            eval_statement_outcome(old(arena).world_of(host), *statement, old(arena)@, fuel as nat),
            r,
            |flow: Option<PyObject>| flow_view(flow),
        ),
    decreases statement, 0int,
{
    let (cond, if_code, elif_cond_code, else_code) = match statement {
        Statement::If(cond, if_code, elif_cond_code, else_code) => (cond, if_code, elif_cond_code, else_code),
        _ => unreached(),
    };
    let ghost w = arena.world_of(host);
    let ghost expected = eval_statement_outcome(w, *statement, arena@, fuel as nat);
    let tested = eval_expr(cond, arena, host, fuel)?;
    if convert_pyobj_to_bool(&tested, arena, host, fuel)? {
        return eval_code_block(if_code, arena, host, fuel);
    }
    let mut i: usize = 0;
    while i < elif_cond_code.len()
        invariant
            i <= elif_cond_code.len(),
            arena.wf(),
            arena.world_of(host) == w,
            w == old(arena).world_of(host),
            *statement matches Statement::If(_, _, e, _) && e == *elif_cond_code,
            expected == eval_statement_outcome(w, *statement, old(arena)@, fuel as nat),
            expected is Some ==> expected == eval_elifs_outcome(w, *statement, i as int, arena@, fuel as nat),
        decreases elif_cond_code.len() - i,
    {
        let tested = eval_expr(&elif_cond_code[i].0, arena, host, fuel)?;
        if convert_pyobj_to_bool(&tested, arena, host, fuel)? {
            return eval_code_block(&elif_cond_code[i].1, arena, host, fuel);
        }
        i += 1;
    }
    if let Some(else_code) = else_code {
        return eval_code_block(else_code, arena, host, fuel);
    }
    Ok(None)
}

/// A statement.
fn eval_statement<H: FloatHost>(statement: &Statement, arena: &mut PyArena, host: &H, fuel: usize) -> (r:
    CodeBlockReturn)
    requires
        old(arena).wf(),
    ensures
        carried_out_by(
            old(arena),
            final(arena),
            eval_statement_outcome(old(arena).world_of(host), *statement, old(arena)@, fuel as nat),
            r,
            |flow: Option<PyObject>| flow_view(flow),
        ),
    decreases statement, 1int,
{
    match statement {
        Statement::Expr(expr) => {
            eval_expr(expr, arena, host, fuel)?;
            Ok(None)
        },
        Statement::Defn(define) => {
            eval_defn(define, arena, host, fuel)?;
            Ok(None)
        },
        Statement::If(_, _, _, _) => eval_if(statement, arena, host, fuel),
        Statement::For(_, _, _) => eval_for(statement, arena, host, fuel),
        Statement::While(_, _) => eval_while(statement, arena, host, fuel),
        Statement::Return(rtn_expr) => {
            let value = eval_expr(rtn_expr, arena, host, fuel)?;
            Ok(Some(value))
        },
        Statement::Assert(expr1, expr2) => {
            eval_assert(expr1, expr2, arena, host, fuel)?;
            Ok(None)
        },
        Statement::Continue => Ok(Some(PyObject::continue_())),
        Statement::Break => Ok(Some(PyObject::break_())),
    }
}

/// Evaluates the statements of a block, in order. A statement that hands
/// something to the block ends it: the rest is not evaluated, and what
/// was handed over is returned.
pub fn eval_code_block<H: FloatHost>(code: &CodeBlock, arena: &mut PyArena, host: &H, fuel: usize) -> (r:
    CodeBlockReturn)
    requires
        old(arena).wf(),
    ensures
        carried_out_by(
            old(arena),
            final(arena),
            eval_block_outcome(old(arena).world_of(host), *code, old(arena)@, fuel as nat),
            r,
            |flow: Option<PyObject>| flow_view(flow),
        ),
    decreases code, 0int,
{
    let ghost w = arena.world_of(host);
    let ghost expected = eval_block_outcome(w, *code, arena@, fuel as nat);
    let mut i: usize = 0;
    while i < code.statements.len()
        invariant
            i <= code.statements.len(),
            arena.wf(),
            arena.world_of(host) == w,
            w == old(arena).world_of(host),
            expected == eval_block_outcome(w, *code, old(arena)@, fuel as nat),
            expected is Some ==> expected == eval_statements_outcome(
                w,
                code.statements@,
                i as int,
                arena@,
                fuel as nat,
            ),
        decreases code.statements.len() - i,
    {
        let rtn_val = eval_statement(&code.statements[i], arena, host, fuel)?;
        if rtn_val.is_some() {
            return Ok(rtn_val);
        }
        i += 1;
    }
    Ok(None)
}

/// Evaluates a program. An exception that nothing handled is printed: its
/// text is added to the arena's output.
pub fn evaluate<H: FloatHost>(code: &CodeBlock, arena: &mut PyArena, host: &H, fuel: usize)
    requires
        old(arena).wf(),
    ensures
        final(arena).wf(),
        final(arena).same_world(old(arena)),
        evaluation(old(arena).world_of(host), *code, old(arena)@, fuel as nat) matches Some(outcome) ==> final(arena)@
            == outcome.state,
{
    let code_result = eval_code_block(code, arena, host, fuel);
    if let Err(err) = code_result {
        let text = err.to_string();
        arena.print_line(text);
    }
}

/// A plain `assert` fails exactly where its expression does not count as
/// true, and then with an `AssertionError` that carries no message.
pub proof fn lemma_plain_assert(
    w: World,
    expr: Expr,
    st: State,
    fuel: nat,
    value: PyObjectView,
    evaluated: State,
    truth: bool,
    tested: State,
)
    requires
        w.exceptions.wf(),
        eval_expr_outcome(w, expr, st, fuel) == yields(value, evaluated),
        truthy(w, value, evaluated, fuel) == yields(truth, tested),
    ensures
        eval_assert_outcome(w, expr, None, st, fuel) == (if truth {
            yields((), tested)
        } else {
            fails(w.exceptions.assertion_error@, tested)
        }),
        w.exceptions.assertion_error@.name == "AssertionError"@,
        w.exceptions.assertion_error@.message is None,
{
}

/// An `assert` with two expressions succeeds where the two compare equal,
/// whatever the two values themselves count as; `repr()` is not asked.
pub proof fn lemma_assert_of_equals(
    w: World,
    expr1: Expr,
    expr2: Expr,
    st: State,
    fuel: nat,
    first: Outcome<PyObjectView>,
    second: Outcome<PyObjectView>,
    equal: Outcome<PyObjectView>,
    tested: State,
)
    requires
        eval_expr_outcome(w, expr1, st, fuel) == Some(first),
        first.result is Ok,
        eval_expr_outcome(w, expr2, first.state, fuel) == Some(second),
        second.result is Ok,
        compare(w, Comparator::Equal, first.result->Ok_0, second.result->Ok_0, second.state, fuel) == Some(
            equal,
        ),
        equal.result is Ok,
        truthy(w, equal.result->Ok_0, equal.state, fuel) == yields(true, tested),
    ensures
        eval_assert_outcome(w, expr1, Some(expr2), st, fuel) == yields((), tested),
{
}

/// An `assert` with two expressions fails exactly where the two are not
/// equal, and then with an `AssertionError` whose message is what `repr()`
/// makes of the second.
pub proof fn lemma_assert_with_message(
    w: World,
    expr1: Expr,
    expr2: Expr,
    st: State,
    fuel: nat,
    first: Outcome<PyObjectView>,
    second: Outcome<PyObjectView>,
    equal: Outcome<PyObjectView>,
    truth: Outcome<bool>,
    shown: Outcome<PyObjectView>,
)
    requires
        w.exceptions.wf(),
        eval_expr_outcome(w, expr1, st, fuel) == Some(first),
        first.result is Ok,
        eval_expr_outcome(w, expr2, first.state, fuel) == Some(second),
        second.result is Ok,
        compare(w, Comparator::Equal, first.result->Ok_0, second.result->Ok_0, second.state, fuel) == Some(
            equal,
        ),
        equal.result is Ok,
        truthy(w, equal.result->Ok_0, equal.state, fuel) == Some(truth),
        truth.result is Ok,
        repr_outcome(w, second.result->Ok_0, truth.state, fuel) == Some(shown),
        shown.result matches Ok(PyObjectView::Str(_)),
    ensures
        eval_assert_outcome(w, expr1, Some(expr2), st, fuel) == (if truth.result->Ok_0 {
            yields((), truth.state)
        } else {
            fails(
                w.exceptions.assertion_error@.with_message(shown.result->Ok_0->Str_0),
                shown.state,
            )
        }),
        w.exceptions.assertion_error@.with_message(shown.result->Ok_0->Str_0).name == "AssertionError"@,
        w.exceptions.assertion_error@.with_message(shown.result->Ok_0->Str_0).same_kind(
            w.exceptions.assertion_error@,
        ),
        w.exceptions.assertion_error@.with_message(shown.result->Ok_0->Str_0).message == Some(
            shown.result->Ok_0->Str_0,
        ),
{
}

/// One round of a `for` loop: `StopIteration` from `__next__` ends the
/// loop, and any other failure is the failure of the loop. A value that
/// `__next__` yields is written to the cell of the loop variable, where
/// the body and whoever holds the cell find it; then the body is
/// evaluated, and the loop goes round again unless the body ends it.
pub proof fn lemma_for_round(
    w: World,
    statement: Statement,
    iterator: PyObjectView,
    next_func: PyObjectView,
    cell: usize,
    st: State,
    fuel: nat,
    budget: nat,
    next: Outcome<PyObjectView>,
)
    requires
        statement is For,
        budget > 0,
        st.frames.len() > 0,
        call(w, next_func, seq![iterator], st, fuel) == Some(next),
        next.state.frames.len() > 0,
    ensures
        next.result matches Err(error) ==> eval_for_outcome(
            w,
            statement,
            iterator,
            next_func,
            cell,
            st,
            fuel,
            budget,
        ) == (if error.same_kind(w.exceptions.stop_iteration@) {
            yields::<Flow>(None, next.state)
        } else {
            fails::<Flow>(error, next.state)
        }),
        next.result is Ok && cell < next.state.current().cells.len() ==> ({
            let value = next.result->Ok_0;
            let bound = stored(next.state, cell, value);
            let code = statement->For_2;
            &&& bound.current().cells[cell as int] == value
            &&& bound.current().names == next.state.current().names
            &&& bound.current().fast == next.state.current().fast
            &&& eval_block_outcome(w, code, bound, fuel) matches Some(body) ==> eval_for_outcome(
                w,
                statement,
                iterator,
                next_func,
                cell,
                st,
                fuel,
                budget,
            ) == (match body.result {
                Err(error) => fails::<Flow>(error, body.state),
                Ok(flow) => match loop_ends(w, flow, body.state) {
                    Some(ended) => ended,
                    None => eval_for_outcome(
                        w,
                        statement,
                        iterator,
                        next_func,
                        cell,
                        body.state,
                        fuel,
                        (budget - 1) as nat,
                    ),
                },
            })
        }),
{
}

/// The values that a `for` loop writes to the cell of its variable, one for
/// each round, in order, while it may still go round `budget` times.
pub open spec fn for_values(
    w: World,
    statement: Statement,
    iterator: PyObjectView,
    next_func: PyObjectView,
    cell: usize,
    st: State,
    fuel: nat,
    budget: nat,
) -> Seq<PyObjectView>
    decreases statement, 1int, budget,
{
    match statement {
        Statement::For(_, _, code) => if budget == 0 {
            Seq::empty()
        } else {
            match call(w, next_func, seq![iterator], st, fuel) {
                Some(next) => match next.result {
                    Ok(value) => if cell >= next.state.current().cells.len() {
                        Seq::empty()
                    } else {
                        match eval_block_outcome(w, code, stored(next.state, cell, value), fuel) {
                            Some(body) => match body.result {
                                Ok(flow) => match loop_ends(w, flow, body.state) {
                                    Some(_) => seq![value],
                                    None => seq![value] + for_values(
                                        w,
                                        statement,
                                        iterator,
                                        next_func,
                                        cell,
                                        body.state,
                                        fuel,
                                        (budget - 1) as nat,
                                    ),
                                },
                                Err(_) => seq![value],
                            },
                            None => seq![value],
                        }
                    },
                    Err(_) => Seq::empty(),
                },
                None => Seq::empty(),
            }
        },
        _ => Seq::empty(),
    }
}

/// Whether the body `code` of a loop over `iterator` leaves the loop alone:
/// with an integer in the cell of the loop variable it ends without
/// breaking, returning or failing, and it leaves the iterator and the cell
/// where they are.
pub open spec fn body_leaves_loop_alone(w: World, code: CodeBlock, iterator: PyObjectView, cell: usize, fuel: nat) -> bool {
    forall|s: State, v: i64|
        #![trigger eval_block_outcome(w, code, stored(s, cell, PyObjectView::Int(v)), fuel)]
        s.frames.len() > 0 && cell < s.current().cells.len() ==> (eval_block_outcome(
            w,
            code,
            stored(s, cell, PyObjectView::Int(v)),
            fuel,
        ) matches Some(done) && done.result == Ok::<Flow, PyExceptionView>(None) && iterator_of(
            done.state.heap,
            iterator,
        ) == iterator_of(s.heap, iterator) && done.state.frames.len() > 0 && cell < done.state.current().cells.len())
}

/// The `__next__` of range iterators, as a value.
pub open spec fn range_next() -> PyObjectView {
    PyObjectView::Function(PyInternalFunction::UnaryFunc(UnaryFuncType::RangeIteratorNext))
}

/// A `for` loop over a range binds the values of the range's arithmetic
/// progression, in order, none skipped and none twice, and runs its body
/// once for each: where the iterator has given `count` values of `range`,
/// the body leaves the loop alone and the budget lasts, the loop writes
/// `start + count * step`, `start + (count + 1) * step` and so on to the
/// cell of its variable, one value for each of the
/// `range_len(start, stop, step) - count` rounds that are left, and ends
/// by handing nothing on.
pub proof fn lemma_for_over_range(
    w: World,
    statement: Statement,
    iterator: PyObjectView,
    cell: usize,
    st: State,
    fuel: nat,
    budget: nat,
    range: RangeInstance,
    count: nat,
)
    requires
        statement is For,
        range.step != 0,
        count <= range_len(range.start as int, range.stop as int, range.step as int),
        iterator_of(st.heap, iterator) == Some(iterator_after(iterator_over(range), count)),
        st.frames.len() > 0,
        cell < st.current().cells.len(),
        budget > range_len(range.start as int, range.stop as int, range.step as int) - count,
        body_leaves_loop_alone(w, statement->For_2, iterator, cell, fuel),
    ensures
        eval_for_outcome(w, statement, iterator, range_next(), cell, st, fuel, budget) matches Some(done)
            && done.result == Ok::<Flow, PyExceptionView>(None),
        for_values(w, statement, iterator, range_next(), cell, st, fuel, budget) == Seq::new(
            (range_len(range.start as int, range.stop as int, range.step as int) - count) as nat,
            |i: int| PyObjectView::Int((range.start + (count + i) * range.step) as i64),
        ),
    decreases range_len(range.start as int, range.stop as int, range.step as int) - count,
{
    let len = range_len(range.start as int, range.stop as int, range.step as int);
    let code = statement->For_2;
    let standing = iterator_after(iterator_over(range), count);
    lemma_range_is_a_progression(range, count);
    lemma_next_takes_one_value(w, iterator, st, standing);
    let args = seq![iterator];
    assert(args[0] == iterator);
    assert(call(w, range_next(), args, st, fuel) == range_iterator_next(w, iterator, st));
    let values = for_values(w, statement, iterator, range_next(), cell, st, fuel, budget);
    let expected = Seq::new(
        (len - count) as nat,
        |i: int| PyObjectView::Int((range.start + (count + i) * range.step) as i64),
    );
    if count == len {
        assert(values =~= expected);
    } else {
        let next = range_iterator_next(w, iterator, st).unwrap();
        let value = PyObjectView::Int(standing.current);
        assert(next.result == Ok::<PyObjectView, PyExceptionView>(value));
        assert(next.state.frames == st.frames);
        let bound = stored(next.state, cell, value);
        let body = eval_block_outcome(w, code, bound, fuel).unwrap();
        assert(body.result == Ok::<Flow, PyExceptionView>(None));
        assert(iterator_after(iterator_over(range), count + 1) == iterator_after(standing, 1)) by {
            assert(iterator_after(standing, 0) == standing);
        }
        lemma_for_over_range(
            w,
            statement,
            iterator,
            cell,
            body.state,
            fuel,
            (budget - 1) as nat,
            range,
            count + 1,
        );
        let rest = for_values(
            w,
            statement,
            iterator,
            range_next(),
            cell,
            body.state,
            fuel,
            (budget - 1) as nat,
        );
        assert(values == seq![value] + rest);
        assert(values =~= expected) by {
            assert forall|i: int| 0 <= i < expected.len() implies values[i] == expected[i] by {
                if i > 0 {
                    assert(values[i] == rest[i - 1]);
                    assert(range.start + (count + 1 + (i - 1)) * range.step == range.start + (count + i)
                        * range.step);
                } else {
                    assert(count + 0 == count);
                }
            }
        }
    }
}

/// The iterator that `range.__iter__` makes over `range` in the state `st`.
pub open spec fn new_range_iterator(w: World, range: RangeInstance) -> PyMutableObject {
    PyMutableObject::Instance(
        PyInstance {
            class: w.globals.range_iterator_class,
            attributes: None,
            internal: InstanceInternal::RangeIterator(iterator_over(range)),
        },
    )
}

/// The value that denotes the iterator made in the state `st`.
pub open spec fn loop_iterator(st: State) -> PyObjectView {
    PyObjectView::Mutable(PyPointer { slot: st.heap.len() as usize })
}

/// The state in which the first round of a `for` loop over `range` starts,
/// where its iterable was evaluated in `st`: the iterator is made, and the
/// loop variable is bound to `None`.
pub open spec fn loop_start(w: World, variable: Variable, range: RangeInstance, st: State) -> State {
    let made = st.allocated(new_range_iterator(w, range));
    made.with_current(made.current().bound(variable.name@, variable.fast_locals_location, PyObjectView::NoneValue))
}

/// The cell of the loop variable in the state in which the loop starts.
pub open spec fn loop_cell(w: World, variable: Variable, range: RangeInstance, st: State) -> usize {
    loop_start(w, variable, range, st).current().cell_of(variable.name@, variable.fast_locals_location).unwrap()
}

/// A statement `for v in range(a, b, c)`: where the iterable yields a range
/// with a step that is not zero, the body leaves the loop alone and the
/// fuel lasts, the values bound to the variable are `a`, `a + c`,
/// `a + 2 * c` and so on, each strictly before `b` in the direction of
/// `c`, the body is run `range_len(a, b, c)` times, which is
/// `max(0, ceil((b - a) / c))`, and the statement hands nothing on.
pub proof fn lemma_for_statement_over_range(
    w: World,
    statement: Statement,
    st: State,
    fuel: nat,
    target: PyObjectView,
    evaluated: State,
    range: RangeInstance,
)
    requires
        w.globals.wf(),
        statement is For,
        eval_expr_outcome(w, statement->For_1, st, fuel) == yields(target, evaluated),
        target.class_of(&w.globals, evaluated.heap) == Some(w.globals.range_class),
        range_of(evaluated.heap, target) == Some(range),
        range.step != 0,
        fuel > range_len(range.start as int, range.stop as int, range.step as int),
        evaluated.heap.len() < usize::MAX,
        evaluated.frames.len() > 0,
        evaluated.current().wf(),
        evaluated.current().cells.len() < usize::MAX,
        evaluated.current().admits(statement->For_0.fast_locals_location),
        body_leaves_loop_alone(
            w,
            statement->For_2,
            loop_iterator(evaluated),
            loop_cell(w, statement->For_0, range, evaluated),
            fuel,
        ),
    ensures
        eval_statement_outcome(w, statement, st, fuel) matches Some(done) && done.result == Ok::<
            Flow,
            PyExceptionView,
        >(None),
        for_values(
            w,
            statement,
            loop_iterator(evaluated),
            range_next(),
            loop_cell(w, statement->For_0, range, evaluated),
            loop_start(w, statement->For_0, range, evaluated),
            fuel,
            fuel,
        ) == Seq::new(
            range_len(range.start as int, range.stop as int, range.step as int),
            |i: int| PyObjectView::Int((range.start + i * range.step) as i64),
        ),
{
    let variable = statement->For_0;
    let globals = &w.globals;
    let iter_class = w.globals.range_iterator_class;
    let iterator = loop_iterator(evaluated);
    // The iterable gives `range.__iter__`.
    assert(w.globals.range_class.own(PyMagicMethod::Iter) == Some(
        PyInternalFunction::UnaryFunc(UnaryFuncType::RangeIter),
    ));
    let iter_func = target.method_of(PyMagicMethod::Iter, globals, evaluated.heap);
    assert(iter_func == Some(
        PyObjectView::Function(PyInternalFunction::UnaryFunc(UnaryFuncType::RangeIter)),
    ));
    // The iterator class constructs by its own `__new__` and the `__init__` of `object`.
    assert(iter_class.own(PyMagicMethod::New) == Some(PyInternalFunction::NewFunc(NewFuncType::RangeIterator)));
    assert(w.globals.object_class.own(PyMagicMethod::Init) == Some(
        PyInternalFunction::InitFunc(InitFuncType::Object),
    ));
    assert(w.globals.object_class.inherited(PyMagicMethod::Init) == Some(
        PyInternalFunction::InitFunc(InitFuncType::Object),
    ));
    let supers = seq![w.globals.object_class];
    assert(supers[0] == w.globals.object_class);
    assert(PyClass::first_inherited(supers, PyMagicMethod::Init, 0) == Some(
        PyInternalFunction::InitFunc(InitFuncType::Object),
    ));
    assert(iter_class.own(PyMagicMethod::Init) == Some(PyInternalFunction::InitFunc(InitFuncType::Object)));
    assert(iter_class.own(PyMagicMethod::Next) == Some(
        PyInternalFunction::UnaryFunc(UnaryFuncType::RangeIteratorNext),
    ));
    let new_func = PyObjectView::Function(PyInternalFunction::NewFunc(NewFuncType::RangeIterator));
    let init_func = PyObjectView::Function(PyInternalFunction::InitFunc(InitFuncType::Object));
    let args = seq![target];
    let made = evaluated.allocated(new_range_iterator(w, range));
    let depth = (fuel - 1) as nat;
    let new_args = seq![PyObjectView::Class(iter_class)] + args;
    assert(new_args[0] == PyObjectView::Class(iter_class));
    assert(new_args.skip(1) =~= args);
    assert(args[0] == target);
    assert(call_method(w, new_func, PyObjectView::Class(iter_class), args, evaluated, depth) == yields(
        iterator,
        made,
    ));
    assert(iterator.class_of(globals, made.heap) == Some(iter_class));
    let init_args = seq![iterator] + args;
    assert(init_args[0] == iterator);
    assert(call_method(w, init_func, iterator, args, made, depth) == yields(PyObjectView::NoneValue, made));
    assert(construct(w, iter_class, args, evaluated, depth) == yields(iterator, made));
    assert(call(w, iter_func.unwrap(), args, evaluated, fuel) == yields(iterator, made));
    assert(iterator.method_of(PyMagicMethod::Next, globals, made.heap) == Some(range_next()));
    // The variable is bound, and the loop starts.
    let start = loop_start(w, variable, range, evaluated);
    let cell = loop_cell(w, variable, range, evaluated);
    assert(made.frames == evaluated.frames);
    evaluated.current().lemma_bound_reads_back(
        variable.name@,
        variable.fast_locals_location,
        PyObjectView::NoneValue,
    );
    assert(start.frames.len() > 0);
    assert(start.current() == made.current().bound(
        variable.name@,
        variable.fast_locals_location,
        PyObjectView::NoneValue,
    ));
    assert(iterator_after(iterator_over(range), 0) == iterator_over(range));
    assert(iterator_of(start.heap, iterator) == Some(iterator_over(range)));
    lemma_for_over_range(w, statement, iterator, cell, start, fuel, fuel, range, 0);
}

} // verus!
