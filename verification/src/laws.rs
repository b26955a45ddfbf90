//! Laws that hold of the emitter as a whole.
use crate::ast::{Expr, Stmt};
use crate::emit::{
    body_text, call_head, call_kind, call_text, expr_text, external_call_text, fallback_text,
    is_builtin, is_diagnostic, line, module_text, propagates, stmt_suffix, stmt_text, CallKind,
};
use crate::interpolate::{
    format_text, lemma_name_end_bounds, lemma_name_end_found, marker_at, marker_free, marker_name,
    marker_names, marker_resume, name_end, names_from, template, template_from, trailing_args,
};
use vstd::prelude::*;

verus! {

/// Over a stretch without markers the scan copies the text and finds no
/// name.
proof fn lemma_marker_free_stretch(s: Seq<char>, i: int, p: int)
    requires
        0 <= i <= p <= s.len(),
        forall|j: int| i <= j < p ==> !marker_at(s, j),
    ensures
        template_from(s, i) == s.subrange(i, p) + template_from(s, p),
        names_from(s, i) == names_from(s, p),
    decreases p - i,
{
    if i < p {
        assert(!marker_at(s, i));
        lemma_marker_free_stretch(s, i + 1, p);
        assert(seq![s[i]] + (s.subrange(i + 1, p) + template_from(s, p)) =~= s.subrange(i, p)
            + template_from(s, p));
    } else {
        assert(s.subrange(i, p) + template_from(s, p) =~= template_from(s, p));
    }
}

/// Dropping a prefix moves the end of a name by the length of the prefix.
proof fn lemma_name_end_shift(s: Seq<char>, k: int, j: int)
    requires
        0 <= k <= j <= s.len(),
    ensures
        name_end(s, j) == name_end(s.skip(k), j - k) + k,
    decreases s.len() - j,
{
    if j < s.len() {
        assert(s.skip(k)[j - k] == s[j]);
        if s[j] != '}' {
            lemma_name_end_shift(s, k, j + 1);
        }
    }
}

/// The scan from a position on depends on the text from that position on
/// only.
proof fn lemma_scan_shift(s: Seq<char>, k: int, i: int)
    requires
        0 <= k <= i <= s.len(),
    ensures
        template_from(s, i) == template_from(s.skip(k), i - k),
        names_from(s, i) == names_from(s.skip(k), i - k),
    decreases s.len() - i,
{
    let t = s.skip(k);
    if i < s.len() {
        assert(t[i - k] == s[i]);
        if i + 1 < s.len() {
            assert(t[i - k + 1] == s[i + 1]);
        }
        if marker_at(s, i) {
            assert(marker_at(t, i - k));
            lemma_name_end_bounds(s, i + 2);
            lemma_name_end_shift(s, k, i + 2);
            lemma_scan_shift(s, k, marker_resume(s, i));
            assert(marker_name(s, i) =~= marker_name(t, i - k));
        } else {
            assert(!marker_at(t, i - k));
            lemma_scan_shift(s, k, i + 1);
        }
    }
}

/// A text without any marker is its own template and has no marker names;
/// as an argument list it is the text itself.
pub proof fn law_marker_free_text_is_kept(s: Seq<char>)
    requires
        marker_free(s),
    ensures
        template(s) == s,
        marker_names(s) == Seq::<Seq<char>>::empty(),
        format_text(s) == s,
{
    lemma_marker_free_stretch(s, 0, s.len() as int);
    assert(s.subrange(0, s.len() as int) + template_from(s, s.len() as int) =~= s);
    assert(trailing_args(marker_names(s), 0) =~= Seq::<char>::empty());
    assert(s + Seq::<char>::empty() =~= s);
}

/// The first marker of a text becomes one placeholder and gives the first
/// name; what stands before it is copied, and what stands behind its
/// closing brace is scanned as a text of its own.
pub proof fn law_first_marker(before: Seq<char>, name: Seq<char>, rest: Seq<char>)
    requires
        marker_free(before),
        !name.contains('}'),
    ensures
        template(before + "${"@ + name + "}"@ + rest) == before + "{}"@ + template(rest),
        marker_names(before + "${"@ + name + "}"@ + rest) == seq![name] + marker_names(rest),
{
    reveal_strlit("${");
    reveal_strlit("}");
    let s = before + "${"@ + name + "}"@ + rest;
    let p = before.len() as int;
    let e = p + 2 + name.len();
    assert forall|j: int| 0 <= j < p implies !marker_at(s, j) by {
        assert(!marker_at(before, j));
    }
    lemma_marker_free_stretch(s, 0, p);
    assert(marker_at(s, p));
    assert forall|k: int| p + 2 <= k < e implies s[k] != '}' by {
        assert(s[k] == name[k - p - 2]);
    }
    assert(s[e] == '}');
    lemma_name_end_found(s, p + 2, e);
    lemma_scan_shift(s, e + 1, e + 1);
    assert(s.skip(e + 1) =~= rest);
    assert(marker_name(s, p) =~= name);
    assert(s.subrange(0, p) =~= before);
    assert(before + ("{}"@ + template(rest)) =~= before + "{}"@ + template(rest));
}

/// A marker that is never closed takes the rest of the text as its name.
pub proof fn law_open_marker(before: Seq<char>, name: Seq<char>)
    requires
        marker_free(before),
        !name.contains('}'),
    ensures
        template(before + "${"@ + name) == before + "{}"@,
        marker_names(before + "${"@ + name) == seq![name],
{
    reveal_strlit("${");
    let s = before + "${"@ + name;
    let p = before.len() as int;
    let e = s.len() as int;
    assert forall|j: int| 0 <= j < p implies !marker_at(s, j) by {
        assert(!marker_at(before, j));
    }
    lemma_marker_free_stretch(s, 0, p);
    assert(marker_at(s, p));
    assert forall|k: int| p + 2 <= k < e implies s[k] != '}' by {
        assert(s[k] == name[k - p - 2]);
    }
    lemma_name_end_found(s, p + 2, e);
    assert(marker_resume(s, p) == e);
    assert(template_from(s, e) == Seq::<char>::empty());
    assert(names_from(s, e) == Seq::<Seq<char>>::empty());
    assert(template_from(s, p) == "{}"@ + template_from(s, e));
    assert(names_from(s, p) == seq![marker_name(s, p)] + names_from(s, e));
    assert(marker_name(s, p) =~= name);
    assert(s.subrange(0, p) =~= before);
    assert(before + ("{}"@ + Seq::<char>::empty()) =~= before + "{}"@);
    assert(seq![name] + Seq::<Seq<char>>::empty() =~= seq![name]);
}

/// The number zero is rendered as success, every other number as failure,
/// whatever its size or sign; the two renderings differ.
pub proof fn law_zero_alone_is_success(n: i64)
    ensures
        n == 0 ==> expr_text(Expr::LitNum(n)) == "Ok(())"@,
        n != 0 ==> expr_text(Expr::LitNum(n)) == "Err(())"@,
        "Ok(())"@ != "Err(())"@,
{
    reveal_strlit("Ok(())");
    reveal_strlit("Err(())");
    assert("Ok(())"@.len() != "Err(())"@.len());
}

/// The text of a statement is its text in trailing position followed by
/// what its position adds, and trailing position adds nothing. A question
/// mark is added exactly where the statement propagates failure.
pub proof fn law_trailing_position_adds_nothing(syms: Set<Seq<char>>, stmt: Stmt, is_last: bool)
    ensures
        stmt_suffix(stmt, true) == Seq::<char>::empty(),
        stmt_text(syms, stmt, is_last) == stmt_text(syms, stmt, true) + stmt_suffix(stmt, is_last),
        stmt_suffix(stmt, is_last).contains('?') <==> propagates(stmt, is_last),
        !propagates(stmt, true),
{
    reveal_strlit("?");
    reveal_strlit(";");
    reveal_strlit("?;");
    let suffix = stmt_suffix(stmt, is_last);
    let base = stmt_text(syms, stmt, true);
    assert(base + Seq::<char>::empty() =~= base);
    match stmt {
        Stmt::CallCmd(name, args) => {
            let head = call_head(syms, name@, args);
            assert(head + Seq::<char>::empty() =~= head);
            if !is_last && !is_diagnostic(name@) {
                assert(suffix[0] == '?');
            }
        },
        Stmt::Return(_) => {},
        Stmt::DefVar(_, _) => {},
        _ => {
            let shown = fallback_text(stmt);
            assert(shown + Seq::<char>::empty() =~= shown);
            if !is_last {
                assert(suffix[0] == '?');
            }
        },
    }
}

/// A call of the diagnostic builtin gets no question mark in any position.
pub proof fn law_diagnostic_never_propagates(stmt: Stmt, is_last: bool)
    requires
        stmt matches Stmt::CallCmd(name, _) && is_diagnostic(name@),
    ensures
        !stmt_suffix(stmt, is_last).contains('?'),
        stmt_suffix(stmt, is_last) == if is_last {
            Seq::<char>::empty()
        } else {
            ";"@
        },
{
    reveal_strlit(";");
}

/// In a body, every statement but the last is emitted in interior
/// position, and the last in trailing position.
pub proof fn law_only_the_last_statement_trails(
    syms: Set<Seq<char>>,
    indent: nat,
    body: Vec<Stmt>,
    k: nat,
)
    requires
        k < body.len(),
    ensures
        body_text(syms, indent, body, k + 1) == body_text(syms, indent, body, k) + line(
            indent,
            stmt_text(syms, body[k as int], k + 1 == body.len()),
        ),
        k + 1 == body.len() ==> !propagates(body[k as int], k + 1 == body.len()),
{
}

/// A name in the symbol set is never run as an outside process; a name
/// outside it always is, unless it is a builtin. Only the outside form is
/// a `run_cmd!` invocation of the name.
pub proof fn law_classification(syms: Set<Seq<char>>, name: Seq<char>, args: Vec<Expr>)
    ensures
        syms.contains(name) ==> call_kind(syms, name) != CallKind::External,
        !syms.contains(name) && !is_builtin(name) ==> call_kind(syms, name) == CallKind::External,
        is_builtin(name) ==> call_kind(syms, name) == CallKind::Builtin,
        call_kind(syms, name) == CallKind::External ==> call_head(syms, name, args)
            == external_call_text(name, args),
        call_kind(syms, name) == CallKind::Routine ==> call_head(syms, name, args) == name + "("@
            + call_text(args) + ")"@,
        call_kind(syms, name) == CallKind::Builtin ==> call_head(syms, name, args) == name + "!("@
            + call_text(args) + ")"@,
        external_call_text(name, args).subrange(0, 10 + name.len() as int) == "run_cmd!(\""@ + name,
{
    reveal_strlit("run_cmd!(\"");
    let lead = "run_cmd!(\""@;
    assert(lead.len() == 10);
    assert(external_call_text(name, args).subrange(0, 10 + name.len() as int) =~= lead + name);
}

/// A call without arguments has an empty argument list, so a builtin or a
/// routine is then called with empty brackets.
pub proof fn law_no_arguments_no_text(args: Vec<Expr>)
    requires
        args.len() == 0,
    ensures
        call_text(args) == Seq::<char>::empty(),
{
    let none = Seq::<char>::empty();
    assert(marker_free(none));
    law_marker_free_text_is_kept(none);
}

/// The generated module is a function of the program and of the names in
/// the symbol set alone: two runs on the same input give the same text.
pub proof fn law_same_input_same_text(
    syms: Set<Seq<char>>,
    stmts: Vec<Stmt>,
    first: Seq<char>,
    second: Seq<char>,
)
    requires
        first == module_text(syms, stmts, stmts.len() as nat),
        second == module_text(syms, stmts, stmts.len() as nat),
    ensures
        first == second,
{
}

} // verus!
