//! What the emitter has to report: constructs it leaves out or renders by
//! a stand-in. None of them stops the generation.
use crate::ast::{Expr, Stmt};
use vstd::prelude::*;

verus! {

broadcast use vstd::std_specs::vec::axiom_vec_index_decreases;

/// One report. Positions count from zero.
#[derive(Debug, Clone, Copy, PartialEq, Eq)]
pub enum Notice {
    /// The top-level declaration at this position defines no routine and
    /// is left out of the module.
    SkippedDeclaration(usize),
    /// In the routine at the first position, the statement at the second is
    /// of a kind the emitter has no rule for.
    UnsupportedStatement(usize, usize),
    /// In the routine at the first position, the statement at the second
    /// holds an expression the emitter has no rule for.
    UnsupportedExpression(usize, usize),
}

/// Whether the emitter has a rule for the expression and for every
/// expression inside it.
pub open spec fn expr_supported(e: Expr) -> bool
    decreases e, 0nat,
{
    match e {
        Expr::CallFun(_, args) => args_supported(args, args.len() as nat),
        Expr::Unsupported(_) => false,
        _ => true,
    }
}

/// Whether each of the first `n` arguments is supported.
pub open spec fn args_supported(args: Vec<Expr>, n: nat) -> bool
    decreases args, n,
{
    if n == 0 || n > args.len() {
        true
    } else {
        args_supported(args, (n - 1) as nat) && expr_supported(args[n - 1])
    }
}

/// What is to be reported of the statement at position `at` of the body of
/// the routine at position `routine`: at most one notice.
pub open spec fn stmt_notice(routine: usize, at: usize, stmt: Stmt) -> Option<Notice> {
    match stmt {
        Stmt::CallCmd(_, args) => if args_supported(args, args.len() as nat) {
            None
        } else {
            Some(Notice::UnsupportedExpression(routine, at))
        },
        Stmt::Return(e) => if expr_supported(e) {
            None
        } else {
            Some(Notice::UnsupportedExpression(routine, at))
        },
        Stmt::DefVar(_, Some(e)) => if expr_supported(e) {
            None
        } else {
            Some(Notice::UnsupportedExpression(routine, at))
        },
        Stmt::DefVar(_, None) => None,
        _ => Some(Notice::UnsupportedStatement(routine, at)),
    }
}

/// The notices of the first `n` statements of a body, in their order.
pub open spec fn body_notices(routine: usize, body: Vec<Stmt>, n: nat) -> Seq<Notice>
    decreases n,
{
    if n == 0 || n > body.len() {
        Seq::empty()
    } else {
        let before = body_notices(routine, body, (n - 1) as nat);
        match stmt_notice(routine, (n - 1) as usize, body[n - 1]) {
            Some(notice) => before.push(notice),
            None => before,
        }
    }
}

/// The notices of the top-level declaration at position `at`.
pub open spec fn declaration_notices(at: usize, stmt: Stmt) -> Seq<Notice> {
    match stmt {
        Stmt::DefFun(_, _, body) => body_notices(at, body, body.len() as nat),
        Stmt::DefCmd(_, _, body) => body_notices(at, body, body.len() as nat),
        _ => seq![Notice::SkippedDeclaration(at)],
    }
}

/// The notices of the first `n` top-level declarations, in their order.
pub open spec fn module_notices(stmts: Vec<Stmt>, n: nat) -> Seq<Notice>
    decreases n,
{
    if n == 0 || n > stmts.len() {
        Seq::empty()
    } else {
        module_notices(stmts, (n - 1) as nat) + declaration_notices(
            (n - 1) as usize,
            stmts[n - 1],
        )
    }
}

/// Tells whether the emitter has a rule for the expression and for every
/// expression inside it.
pub fn is_supported(expr: &Expr) -> (r: bool)
    ensures
        r == expr_supported(*expr),
    decreases expr, 0nat,
{
    match expr {
        Expr::CallFun(_, args) => all_supported(args),
        Expr::Unsupported(_) => false,
        _ => true,
    }
}

/// Tells whether every argument of a call is supported.
pub fn all_supported(args: &Vec<Expr>) -> (r: bool)
    ensures
        r == args_supported(*args, args.len() as nat),
    decreases args, args.len(),
{
    let mut ok = true;
    let mut i: usize = 0;
    while i < args.len()
        invariant
            i <= args.len(),
            ok == args_supported(*args, i as nat),
        decreases args.len() - i,
    {
        let one = is_supported(&args[i]);
        ok = ok && one;
        i += 1;
    }
    ok
}

/// Finds what is to be reported of one statement of a body.
pub fn check_stmt(routine: usize, at: usize, stmt: &Stmt) -> (r: Option<Notice>)
    ensures
        r == stmt_notice(routine, at, *stmt),
{
    match stmt {
        Stmt::CallCmd(_, args) => {
            if all_supported(args) {
                None
            } else {
                Some(Notice::UnsupportedExpression(routine, at))
            }
        },
        Stmt::Return(e) => {
            if is_supported(e) {
                None
            } else {
                Some(Notice::UnsupportedExpression(routine, at))
            }
        },
        Stmt::DefVar(_, Some(e)) => {
            if is_supported(e) {
                None
            } else {
                Some(Notice::UnsupportedExpression(routine, at))
            }
        },
        Stmt::DefVar(_, None) => None,
        _ => Some(Notice::UnsupportedStatement(routine, at)),
    }
}

/// Collects what is to be reported of a program, in the order of the
/// program: one notice for each top-level declaration that defines no
/// routine, and within each routine at most one for each statement of its
/// body.
pub fn diagnostics(stmts: &Vec<Stmt>) -> (r: Vec<Notice>)
    ensures
        r@ == module_notices(*stmts, stmts.len() as nat),
{
    let mut found: Vec<Notice> = Vec::new();
    let mut i: usize = 0;
    while i < stmts.len()
        invariant
            i <= stmts.len(),
            found@ == module_notices(*stmts, i as nat),
        decreases stmts.len() - i,
    {
        let ghost before = found@;
        match &stmts[i] {
            Stmt::DefFun(_, _, body) => {
                check_body(&mut found, i, body);
            },
            Stmt::DefCmd(_, _, body) => {
                check_body(&mut found, i, body);
            },
            _ => {
                found.push(Notice::SkippedDeclaration(i));
                assert(found@ =~= before + seq![Notice::SkippedDeclaration(i)]);
            },
        }
        i += 1;
    }
    found
}

/// Adds the notices of the body of the routine at position `routine`.
pub fn check_body(found: &mut Vec<Notice>, routine: usize, body: &Vec<Stmt>)
    ensures
        final(found)@ == old(found)@ + body_notices(routine, *body, body.len() as nat),
{
    let ghost start = found@;
    let mut k: usize = 0;
    assert(start + body_notices(routine, *body, 0) =~= start);
    while k < body.len()
        invariant
            k <= body.len(),
            found@ == start + body_notices(routine, *body, k as nat),
        decreases body.len() - k,
    {
        match check_stmt(routine, k, &body[k]) {
            Some(notice) => {
                found.push(notice);
                assert(found@ =~= start + body_notices(routine, *body, (k + 1) as nat));
            },
            None => {},
        }
        k += 1;
    }
}

} // verus!
