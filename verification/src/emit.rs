//! The emitter: what text each node of the program becomes.
use crate::ast::{Expr, Stmt};
use crate::interpolate::{format_str, format_text, texts_of};
use crate::symbols::SymbolSet;
use vstd::prelude::*;
use vstd::string::*;

verus! {

broadcast use vstd::std_specs::vec::axiom_vec_index_decreases;

/// Spaces per nesting step.
pub const INDENT: usize = 4;

/// A run of `n` spaces.
pub open spec fn spaces(n: nat) -> Seq<char> {
    Seq::new(n, |i: int| ' ')
}

/// One line of output: the indentation, the text, a line feed.
pub open spec fn line(indent: nat, text: Seq<char>) -> Seq<char> {
    spaces(indent) + text + "\n"@
}

/// The text of an expression.
pub open spec fn expr_text(e: Expr) -> Seq<char>
    decreases e, 0nat,
{
    match e {
        Expr::LitNum(n) => if n == 0 {
            "Ok(())"@
        } else {
            "Err(())"@
        },
        Expr::LitStr(s) => "\""@ + s@ + "\""@,
        Expr::Var(v) => "\"${"@ + v.identifier@ + "}\""@,
        Expr::CallFun(f, args) => f@ + "("@ + format_text(joined_text(args, args.len() as nat))
            + ")?;"@,
        Expr::Unsupported(d) => d@,
    }
}

/// The texts of the first `n` arguments, with one space between neighbours.
pub open spec fn joined_text(args: Vec<Expr>, n: nat) -> Seq<char>
    decreases args, n,
{
    if n == 0 || n > args.len() {
        Seq::empty()
    } else if n == 1 {
        expr_text(args[0])
    } else {
        joined_text(args, (n - 1) as nat) + " "@ + expr_text(args[n - 1])
    }
}

/// The argument list of a call: the joined arguments, with their markers
/// rewritten.
pub open spec fn call_text(args: Vec<Expr>) -> Seq<char> {
    format_text(joined_text(args, args.len() as nat))
}

/// Renders an expression, without any statement punctuation around it.
pub fn visit_expr(expr: &Expr) -> (r: String)
    ensures
        r@ == expr_text(*expr),
    decreases expr, 0nat,
{
    match expr {
        Expr::LitNum(n) => {
            if *n == 0 {
                String::from_str("Ok(())")
            } else {
                String::from_str("Err(())")
            }
        },
        Expr::LitStr(s) => {
            let mut r = String::from_str("\"");
            r.append(s.as_str());
            r.append("\"");
            r
        },
        Expr::Var(v) => {
            let mut r = String::from_str("\"${");
            r.append(v.identifier.as_str());
            r.append("}\"");
            r
        },
        Expr::CallFun(f, args) => {
            let mut r = String::from_str(f.as_str());
            r.append("(");
            let inner = visit_call(args);
            r.append(inner.as_str());
            r.append(")?;");
            r
        },
        Expr::Unsupported(d) => String::from_str(d.as_str()),
    }
}

/// Renders the arguments of a call as one argument list.
pub fn visit_call(parameters: &Vec<Expr>) -> (r: String)
    ensures
        r@ == call_text(*parameters),
    decreases parameters, parameters.len(),
{
    let mut args = String::new();
    let mut i: usize = 0;
    while i < parameters.len()
        invariant
            i <= parameters.len(),
            args@ == joined_text(*parameters, i as nat),
        decreases parameters.len() - i,
    {
        if i > 0 {
            args.append(" ");
        }
        let one = visit_expr(&parameters[i]);
        proof {
            if i == 0 {
                assert(args@ + one@ =~= one@);
            }
        }
        args.append(one.as_str());
        i += 1;
    }
    format_str(args.as_str())
}

/// Whether the name is the diagnostic builtin, whose calls cannot fail.
pub open spec fn is_diagnostic(name: Seq<char>) -> bool {
    name == "info"@
}

/// Whether the name is one of the two builtins, which are called as macros.
pub open spec fn is_builtin(name: Seq<char>) -> bool {
    name == "info"@ || name == "output"@
}

/// How a call in statement position is made.
#[derive(Debug, Clone, Copy, PartialEq, Eq)]
pub enum CallKind {
    /// One of the two builtins: a macro of the runtime.
    Builtin,
    /// A routine of the script: a direct call.
    Routine,
    /// Anything else: an outside process.
    External,
}

/// The kind of a call by its name: a builtin is a builtin whatever the
/// symbol set holds; of the other names, those in the set are routines.
pub open spec fn call_kind(syms: Set<Seq<char>>, name: Seq<char>) -> CallKind {
    if is_builtin(name) {
        CallKind::Builtin
    } else if syms.contains(name) {
        CallKind::Routine
    } else {
        CallKind::External
    }
}

/// The invocation of an outside process: name and arguments travel as one
/// command line.
pub open spec fn external_call_text(name: Seq<char>, args: Vec<Expr>) -> Seq<char> {
    if args.len() == 0 {
        "run_cmd!(\""@ + name + "\")"@
    } else {
        "run_cmd!(\""@ + name + " "@ + call_text(args) + "\")"@
    }
}

/// What follows the closing bracket of a call in statement position.
pub open spec fn call_ending(name: Seq<char>, is_last: bool) -> Seq<char> {
    if is_last {
        Seq::empty()
    } else if is_diagnostic(name) {
        ";"@
    } else {
        "?;"@
    }
}

/// A call in statement position, up to its closing bracket.
pub open spec fn call_head(syms: Set<Seq<char>>, name: Seq<char>, args: Vec<Expr>) -> Seq<char> {
    match call_kind(syms, name) {
        CallKind::Builtin => name + "!("@ + call_text(args) + ")"@,
        CallKind::Routine => name + "("@ + call_text(args) + ")"@,
        CallKind::External => external_call_text(name, args),
    }
}

/// The text of a call in statement position.
pub open spec fn call_cmd_text(
    syms: Set<Seq<char>>,
    name: Seq<char>,
    args: Vec<Expr>,
    is_last: bool,
) -> Seq<char> {
    call_head(syms, name, args) + call_ending(name, is_last)
}

/// The text that stands in for a statement the emitter has no rule for.
pub open spec fn fallback_text(stmt: Stmt) -> Seq<char> {
    match stmt {
        Stmt::DefFun(name, _, _) => "DefFun(\""@ + name@ + "\")"@,
        Stmt::DefCmd(name, _, _) => "DefCmd(\""@ + name@ + "\")"@,
        Stmt::Unsupported(d) => d@,
        _ => Seq::empty(),
    }
}

/// The text of a variable definition.
pub open spec fn def_var_text(name: Seq<char>, init: Option<Expr>) -> Seq<char> {
    match init {
        Some(e) => "let "@ + name + " = "@ + expr_text(e) + ";"@,
        None => "let "@ + name + " = String::new();"@,
    }
}

/// The text of a statement, without indentation and line feed.
pub open spec fn stmt_text(syms: Set<Seq<char>>, stmt: Stmt, is_last: bool) -> Seq<char> {
    match stmt {
        Stmt::CallCmd(name, args) => call_cmd_text(syms, name@, args, is_last),
        Stmt::Return(e) => "return "@ + expr_text(e),
        Stmt::DefVar(name, init) => def_var_text(name@, init),
        _ => fallback_text(stmt) + if is_last {
            Seq::<char>::empty()
        } else {
            "?"@
        },
    }
}

/// Whether a statement at this position propagates failure: never in
/// trailing position, never for the diagnostic builtin, a return or a
/// variable definition.
pub open spec fn propagates(stmt: Stmt, is_last: bool) -> bool {
    !is_last && match stmt {
        Stmt::CallCmd(name, _) => !is_diagnostic(name@),
        Stmt::Return(_) => false,
        Stmt::DefVar(_, _) => false,
        _ => true,
    }
}

/// What the position of a statement adds behind its text.
pub open spec fn stmt_suffix(stmt: Stmt, is_last: bool) -> Seq<char> {
    match stmt {
        Stmt::CallCmd(name, _) => call_ending(name@, is_last),
        Stmt::Return(_) => Seq::empty(),
        Stmt::DefVar(_, _) => Seq::empty(),
        _ => if is_last {
            Seq::empty()
        } else {
            "?"@
        },
    }
}

/// The lines of the first `n` statements of a body; only the last statement
/// of the whole body is in trailing position.
pub open spec fn body_text(syms: Set<Seq<char>>, indent: nat, body: Vec<Stmt>, n: nat) -> Seq<char>
    decreases n,
{
    if n == 0 || n > body.len() {
        Seq::empty()
    } else {
        body_text(syms, indent, body, (n - 1) as nat) + line(
            indent,
            stmt_text(syms, body[n - 1], n == body.len()),
        )
    }
}

/// The first `n` parameters of a signature, each typed as a string slice,
/// with a comma and a space between neighbours.
pub open spec fn params_text(params: Seq<Seq<char>>, n: nat) -> Seq<char>
    decreases n,
{
    if n == 0 || n > params.len() {
        Seq::empty()
    } else if n == 1 {
        params[0] + ": &str"@
    } else {
        params_text(params, (n - 1) as nat) + ", "@ + params[n - 1] + ": &str"@
    }
}

/// The signature line of a routine, without its line feed.
pub open spec fn signature_text(
    name: Seq<char>,
    params: Seq<Seq<char>>,
    result_type: Seq<char>,
) -> Seq<char> {
    "fn "@ + name + "("@ + params_text(params, params.len()) + ") -> "@ + result_type + " {"@
}

/// A whole routine: signature, body one step in, closing line, blank line.
pub open spec fn routine_text(
    syms: Set<Seq<char>>,
    name: Seq<char>,
    params: Seq<Seq<char>>,
    body: Vec<Stmt>,
    result_type: Seq<char>,
) -> Seq<char> {
    line(0, signature_text(name, params, result_type)) + body_text(
        syms,
        INDENT as nat,
        body,
        body.len() as nat,
    ) + line(0, "}"@) + line(0, Seq::empty())
}

/// What a top-level declaration adds to the module: a routine for each of
/// the two kinds of definition, nothing for anything else.
pub open spec fn declaration_text(syms: Set<Seq<char>>, stmt: Stmt) -> Seq<char> {
    match stmt {
        Stmt::DefFun(name, params, body) => routine_text(
            syms,
            name@,
            texts_of(params@),
            body,
            "FunResult"@,
        ),
        Stmt::DefCmd(name, params, body) => routine_text(
            syms,
            name@,
            texts_of(params@),
            body,
            "CmdResult"@,
        ),
        _ => Seq::empty(),
    }
}

/// The lines that open every module.
pub open spec fn prelude_text() -> Seq<char> {
    line(0, "// Generated by rust-shell-script"@) + line(0, "mod cmd_lib;"@) + line(
        0,
        "use crate::cmd_lib::{CmdResult, FunResult};"@,
    ) + line(0, Seq::empty())
}

/// The module made of the prelude and the first `n` declarations.
pub open spec fn module_text(syms: Set<Seq<char>>, stmts: Vec<Stmt>, n: nat) -> Seq<char>
    decreases n,
{
    if n == 0 || n > stmts.len() {
        prelude_text()
    } else {
        module_text(syms, stmts, (n - 1) as nat) + declaration_text(syms, stmts[n - 1])
    }
}

/// Whether two texts hold the same characters.
fn same_text(a: &str, b: &str) -> (r: bool)
    ensures
        r == (a@ == b@),
{
    String::from_str(a) == String::from_str(b)
}

/// Decides how a call of this name is made.
pub fn classify(sym_table: &SymbolSet, cmd: &str) -> (r: CallKind)
    ensures
        r == call_kind(sym_table@, cmd@),
{
    if same_text(cmd, "info") || same_text(cmd, "output") {
        CallKind::Builtin
    } else if sym_table.contains(cmd) {
        CallKind::Routine
    } else {
        CallKind::External
    }
}

/// Appends one line to the output: indentation, text, line feed.
pub fn emit_line(out: &mut String, indent: usize, text: &str)
    ensures
        final(out)@ == old(out)@ + line(indent as nat, text@),
{
    let ghost start = out@;
    let mut i: usize = 0;
    proof {
        assert(start + spaces(0) =~= start);
    }
    while i < indent
        invariant
            i <= indent,
            out@ == start + spaces(i as nat),
        decreases indent - i,
    {
        out.append(" ");
        proof {
            reveal_strlit(" ");
            assert(" "@ =~= seq![' ']);
            assert(start + spaces(i as nat) + seq![' '] =~= start + spaces((i + 1) as nat));
        }
        i += 1;
    }
    out.append(text);
    out.append("\n");
    proof {
        assert(out@ =~= start + line(indent as nat, text@));
    }
}

/// Emits a call in statement position.
///
/// A builtin is called as a macro, a routine of the script directly, and
/// anything else is handed to the runtime as an outside command. A call that
/// is not last in its body propagates failure, except the diagnostic
/// builtin, which cannot fail.
pub fn visit_call_cmd(
    sym_table: &SymbolSet,
    out: &mut String,
    indent: usize,
    cmd: &str,
    parameters: &Vec<Expr>,
    is_last: bool,
)
    ensures
        final(out)@ == old(out)@ + line(
            indent as nat,
            call_cmd_text(sym_table@, cmd@, *parameters, is_last),
        ),
{
    let mut text: String;
    match classify(sym_table, cmd) {
        CallKind::Builtin => {
            text = String::from_str(cmd);
            text.append("!(");
            text.append(visit_call(parameters).as_str());
            text.append(")");
        },
        CallKind::Routine => {
            text = String::from_str(cmd);
            text.append("(");
            text.append(visit_call(parameters).as_str());
            text.append(")");
        },
        CallKind::External => {
            text = String::from_str("run_cmd!(\"");
            text.append(cmd);
            if parameters.len() != 0 {
                text.append(" ");
                text.append(visit_call(parameters).as_str());
            }
            text.append("\")");
        },
    }
    assert(text@ == call_head(sym_table@, cmd@, *parameters));
    if !is_last {
        if same_text(cmd, "info") {
            text.append(";");
        } else {
            text.append("?;");
        }
    } else {
        assert(text@ + Seq::<char>::empty() =~= text@);
    }
    emit_line(out, indent, text.as_str());
}

/// Emits a return statement; it never gets a suffix of its own.
pub fn visit_return(out: &mut String, indent: usize, expr: &Expr)
    ensures
        final(out)@ == old(out)@ + line(indent as nat, "return "@ + expr_text(*expr)),
{
    let mut text = String::from_str("return ");
    text.append(visit_expr(expr).as_str());
    emit_line(out, indent, text.as_str());
}

/// Emits a variable definition; without an initial value the variable
/// starts as the empty text.
pub fn visit_def_var(out: &mut String, indent: usize, var_name: &str, var_def: &Option<Expr>)
    ensures
        final(out)@ == old(out)@ + line(indent as nat, def_var_text(var_name@, *var_def)),
{
    let mut text = String::from_str("let ");
    text.append(var_name);
    match var_def {
        Some(expr) => {
            text.append(" = ");
            text.append(visit_expr(expr).as_str());
            text.append(";");
        },
        None => {
            text.append(" = String::new();");
        },
    }
    emit_line(out, indent, text.as_str());
}

/// Renders the stand-in for a statement the emitter has no rule for.
pub fn fallback(stmt: &Stmt) -> (r: String)
    ensures
        r@ == fallback_text(*stmt),
{
    match stmt {
        Stmt::DefFun(name, _, _) => {
            let mut r = String::from_str("DefFun(\"");
            r.append(name.as_str());
            r.append("\")");
            r
        },
        Stmt::DefCmd(name, _, _) => {
            let mut r = String::from_str("DefCmd(\"");
            r.append(name.as_str());
            r.append("\")");
            r
        },
        Stmt::Unsupported(d) => String::from_str(d.as_str()),
        _ => String::new(),
    }
}

/// Emits one statement of a body at the given indentation; `is_last` says
/// whether it is the last statement of that body.
pub fn visit_stmt(
    sym_table: &SymbolSet,
    out: &mut String,
    indent: usize,
    stmt: &Stmt,
    is_last: bool,
)
    ensures
        final(out)@ == old(out)@ + line(indent as nat, stmt_text(sym_table@, *stmt, is_last)),
{
    match stmt {
        Stmt::CallCmd(cmd, parameters) => visit_call_cmd(
            sym_table,
            out,
            indent,
            cmd.as_str(),
            parameters,
            is_last,
        ),
        Stmt::Return(expr) => visit_return(out, indent, expr),
        Stmt::DefVar(var_name, var_def) => visit_def_var(out, indent, var_name.as_str(), var_def),
        _ => {
            let mut text = fallback(stmt);
            if !is_last {
                text.append("?");
            } else {
                assert(text@ + Seq::<char>::empty() =~= text@);
            }
            emit_line(out, indent, text.as_str());
        },
    }
}

/// Emits a routine whose result type is given by name.
pub fn emit_routine(
    sym_table: &SymbolSet,
    out: &mut String,
    name: &str,
    parameters: &Vec<String>,
    body: &Vec<Stmt>,
    result_type: &str,
)
    ensures
        final(out)@ == old(out)@ + routine_text(
            sym_table@,
            name@,
            texts_of(parameters@),
            *body,
            result_type@,
        ),
{
    let ghost start = out@;
    let ghost params = texts_of(parameters@);
    let mut sig = String::from_str("fn ");
    sig.append(name);
    sig.append("(");
    let ghost head = sig@;
    let mut i: usize = 0;
    proof {
        assert(head + params_text(params, 0) =~= head);
    }
    while i < parameters.len()
        invariant
            i <= parameters.len(),
            params == texts_of(parameters@),
            sig@ == head + params_text(params, i as nat),
        decreases parameters.len() - i,
    {
        if i != 0 {
            sig.append(", ");
        }
        sig.append(parameters[i].as_str());
        sig.append(": &str");
        proof {
            assert(params[i as int] == parameters@[i as int]@);
            assert(sig@ =~= head + params_text(params, (i + 1) as nat));
        }
        i += 1;
    }
    sig.append(") -> ");
    sig.append(result_type);
    sig.append(" {");
    assert(sig@ == signature_text(name@, params, result_type@));
    emit_line(out, 0, sig.as_str());

    let ghost opened = out@;
    let mut k: usize = 0;
    proof {
        assert(opened + body_text(sym_table@, INDENT as nat, *body, 0) =~= opened);
    }
    while k < body.len()
        invariant
            k <= body.len(),
            out@ == opened + body_text(sym_table@, INDENT as nat, *body, k as nat),
        decreases body.len() - k,
    {
        visit_stmt(sym_table, out, INDENT, &body[k], k == body.len() - 1);
        proof {
            assert(out@ =~= opened + body_text(sym_table@, INDENT as nat, *body, (k + 1) as nat));
        }
        k += 1;
    }
    emit_line(out, 0, "}");
    emit_line(out, 0, "");
    proof {
        reveal_strlit("");
        assert(""@ =~= Seq::<char>::empty());
        assert(out@ =~= start + routine_text(sym_table@, name@, params, *body, result_type@));
    }
}

/// Emits a function: a routine whose result is a `FunResult`.
pub fn visit_def_fun(
    sym_table: &SymbolSet,
    out: &mut String,
    fun_name: &str,
    parameters: &Vec<String>,
    body: &Vec<Stmt>,
)
    ensures
        final(out)@ == old(out)@ + routine_text(
            sym_table@,
            fun_name@,
            texts_of(parameters@),
            *body,
            "FunResult"@,
        ),
{
    emit_routine(sym_table, out, fun_name, parameters, body, "FunResult");
}

/// Emits a command: a routine whose result is a `CmdResult`.
pub fn visit_def_cmd(
    sym_table: &SymbolSet,
    out: &mut String,
    fun_name: &str,
    parameters: &Vec<String>,
    body: &Vec<Stmt>,
)
    ensures
        final(out)@ == old(out)@ + routine_text(
            sym_table@,
            fun_name@,
            texts_of(parameters@),
            *body,
            "CmdResult"@,
        ),
{
    emit_routine(sym_table, out, fun_name, parameters, body, "CmdResult");
}

/// Generates the module for a program: the prelude, then one routine for
/// each definition among the top-level declarations, in their order. Any
/// other declaration adds nothing.
pub fn gen_code(stmts: &Vec<Stmt>, sym_table: &SymbolSet) -> (r: String)
    ensures
        r@ == module_text(sym_table@, *stmts, stmts.len() as nat),
{
    let mut out = String::new();
    emit_line(&mut out, 0, "// Generated by rust-shell-script");
    emit_line(&mut out, 0, "mod cmd_lib;");
    emit_line(&mut out, 0, "use crate::cmd_lib::{CmdResult, FunResult};");
    emit_line(&mut out, 0, "");
    proof {
        reveal_strlit("");
        assert(""@ =~= Seq::<char>::empty());
        assert(out@ =~= prelude_text());
    }
    let mut i: usize = 0;
    while i < stmts.len()
        invariant
            i <= stmts.len(),
            out@ == module_text(sym_table@, *stmts, i as nat),
        decreases stmts.len() - i,
    {
        match &stmts[i] {
            Stmt::DefFun(fun_name, parameters, body) => {
                visit_def_fun(sym_table, &mut out, fun_name.as_str(), parameters, body);
            },
            Stmt::DefCmd(cmd_name, parameters, body) => {
                visit_def_cmd(sym_table, &mut out, cmd_name.as_str(), parameters, body);
            },
            _ => {
                assert(out@ + Seq::<char>::empty() =~= out@);
            },
        }
        i += 1;
    }
    out
}

} // verus!
