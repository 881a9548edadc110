//! The syntax tree that the evaluator walks, and the removal of comments
//! from source text.

use vstd::prelude::*;
use crate::text::{chars_of, string_of_chars};

verus! {

/// A literal. A float literal is held as the bits of its IEEE 754 double.
#[derive(Debug)]
pub enum Value {
    Integer(i64),
    Float(u64),
    String(String),
    Boolean(bool),
    NoneValue,
}

/// A comparison operator.
#[derive(Clone, Copy, Debug, PartialEq, Eq, Structural)]
pub enum Comparator {
    Equal,
    NotEqual,
    GreaterThan,
    GreaterThanOrEqual,
    LessThan,
    LessThanOrEqual,
    Is,
    IsNot,
    In,
    NotIn,
}

/// A name, with the slot of the frame's fixed slot array that name
/// resolution assigned to it, if it assigned one.
#[derive(Debug)]
pub struct Variable {
    pub name: String,
    pub fast_locals_location: Option<usize>,
}

impl Clone for Variable {
    fn clone(&self) -> (r: Self)
        ensures
            r == *self,
    {
        Variable { name: self.name.clone(), fast_locals_location: self.fast_locals_location }
    }
}

/// What name resolution knows of a name in one scope: how often the scope
/// reads it, and whether the scope binds it.
#[derive(Debug)]
pub struct ScopeInformation {
    pub variable: Variable,
    pub uses: usize,
    pub has_definition: bool,
}

/// An expression.
#[derive(Debug)]
pub enum Expr {
    Var(Variable),
    Val(Value),
    Times(Box<Expr>, Box<Expr>),
    Divide(Box<Expr>, Box<Expr>),
    Plus(Box<Expr>, Box<Expr>),
    Minus(Box<Expr>, Box<Expr>),
    Pow(Box<Expr>, Box<Expr>),
    FunCall(Box<Expr>, Vec<Expr>),
    Comparison(Box<Expr>, Comparator, Box<Expr>),
    Not(Box<Expr>),
    And(Box<Expr>, Box<Expr>),
    Or(Box<Expr>, Box<Expr>),
}

/// A statement that binds a name.
#[derive(Debug)]
pub enum Define {
    PlusEq(Variable, Expr),
    MinusEq(Variable, Expr),
    DivEq(Variable, Expr),
    MultEq(Variable, Expr),
    VarDefn(Variable, Expr),
    FunDefn(Variable, Vec<Variable>, CodeBlock),
}

/// A statement.
#[derive(Debug)]
pub enum Statement {
    Expr(Expr),
    Defn(Define),
    For(Variable, Expr, CodeBlock),
    While(Expr, CodeBlock),
    If(Expr, CodeBlock, Vec<(Expr, CodeBlock)>, Option<CodeBlock>),
    Return(Expr),
    Assert(Expr, Option<Expr>),
    Continue,
    Break,
}

/// A block of statements at one indentation depth.
#[derive(Debug)]
pub struct CodeBlock {
    pub statements: Vec<Statement>,
    pub depth: usize,
}

/// `text[from..]` without its comments. A comment runs from a `#` to the
/// end of its line; the line break stays. `in_comment` says whether
/// `text[from]` lies in a comment.
pub open spec fn without_comments(text: Seq<char>, from: int, in_comment: bool) -> Seq<char>
    decreases text.len() - from,
{
    if from < 0 || from >= text.len() {
        Seq::empty()
    } else if in_comment {
        if text[from] == '\n' {
            seq!['\n'] + without_comments(text, from + 1, false)
        } else {
            without_comments(text, from + 1, true)
        }
    } else if text[from] == '#' {
        without_comments(text, from + 1, true)
    } else {
        seq![text[from]] + without_comments(text, from + 1, false)
    }
}

/// The source text without its comments.
pub fn remove_comments(input: &str) -> (r: String)
    ensures
        r@ == without_comments(input@, 0, false),
{
    let chars = chars_of(input);
    let mut output: Vec<char> = Vec::new();
    let mut in_comment = false;
    let mut i: usize = 0;
    while i < chars.len()
        invariant
            i <= chars.len(),
            chars@ == input@,
            output@ + without_comments(input@, i as int, in_comment) == without_comments(input@, 0, false),
        decreases chars.len() - i,
    {
        let c = chars[i];
        let ghost kept = output@;
        let ghost was_in_comment = in_comment;
        if in_comment {
            if c == '\n' {
                in_comment = false;
                output.push(c);
            }
        } else if c == '#' {
            in_comment = true;
        } else {
            output.push(c);
        }
        assert(output@ + without_comments(input@, i + 1, in_comment) =~= kept + without_comments(
            input@,
            i as int,
            was_in_comment,
        ));
        i += 1;
    }
    assert(output@ =~= output@ + without_comments(input@, i as int, in_comment));
    string_of_chars(&output)
}

} // verus!
