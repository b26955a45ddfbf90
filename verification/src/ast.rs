//! The parsed program: statements and expressions.
use vstd::prelude::*;

verus! {

/// A reference to a variable of the script.
#[derive(Debug, PartialEq, Eq)]
pub struct Variable {
    pub identifier: String,
}

/// An expression of the script.
#[derive(Debug, PartialEq, Eq)]
pub enum Expr {
    /// A number; in result position it stands for an exit status.
    LitNum(i64),
    /// A piece of text.
    LitStr(String),
    /// The value of a variable.
    Var(Variable),
    /// A call of a routine, with its arguments in order.
    CallFun(String, Vec<Expr>),
    /// A construct the generator has no rule for; it carries the text that
    /// stands in for it.
    Unsupported(String),
}

/// A statement of the script.
#[derive(Debug, PartialEq, Eq)]
pub enum Stmt {
    /// A function: name, parameter names in declaration order, body.
    DefFun(String, Vec<String>, Vec<Stmt>),
    /// A command: name, parameter names in declaration order, body.
    DefCmd(String, Vec<String>, Vec<Stmt>),
    /// A variable, with or without an initial value.
    DefVar(String, Option<Expr>),
    /// A call in statement position: name and arguments.
    CallCmd(String, Vec<Expr>),
    /// A return of a value.
    Return(Expr),
    /// A construct the generator has no rule for; it carries the text that
    /// stands in for it.
    Unsupported(String),
}

impl Stmt {
    /// Whether this statement defines a routine, a function or a command.
    pub open spec fn defines_routine(self) -> bool {
        self is DefFun || self is DefCmd
    }

    /// Whether this statement defines a routine, a function or a command.
    pub fn is_routine(&self) -> (r: bool)
        ensures
            r == self.defines_routine(),
    {
        match self {
            Stmt::DefFun(_, _, _) => true,
            Stmt::DefCmd(_, _, _) => true,
            _ => false,
        }
    }
}

} // verus!
