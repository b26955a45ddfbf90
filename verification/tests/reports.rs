use shell_codegen::ast::{Expr, Stmt, Variable};
use shell_codegen::emit::{classify, CallKind};
use shell_codegen::notices::{
    all_supported, check_body, check_stmt, diagnostics, is_supported, Notice,
};
use shell_codegen::symbols::SymbolSet;

fn odd() -> Expr {
    Expr::Unsupported("Pipe".to_string())
}

fn plain() -> Expr {
    Expr::LitStr("x".to_string())
}

#[test]
fn supported_expressions() {
    assert!(is_supported(&Expr::LitNum(3)));
    assert!(is_supported(&plain()));
    assert!(is_supported(&Expr::Var(Variable { identifier: "v".to_string() })));
    assert!(is_supported(&Expr::CallFun("f".to_string(), vec![])));
    assert!(is_supported(&Expr::CallFun("f".to_string(), vec![plain(), Expr::LitNum(0)])));
    assert!(!is_supported(&odd()));
}

#[test]
fn unsupported_expression_is_found_at_any_depth() {
    let deep = Expr::CallFun(
        "f".to_string(),
        vec![plain(), Expr::CallFun("g".to_string(), vec![plain(), odd()])],
    );
    assert!(!is_supported(&deep));
    assert!(!all_supported(&vec![plain(), deep]));
    assert!(!all_supported(&vec![odd(), plain()]));
    assert!(all_supported(&vec![plain(), plain()]));
    assert!(all_supported(&vec![]));
}

#[test]
fn statement_notices() {
    assert_eq!(check_stmt(1, 2, &Stmt::Return(plain())), None);
    assert_eq!(check_stmt(1, 2, &Stmt::Return(odd())), Some(Notice::UnsupportedExpression(1, 2)));
    assert_eq!(check_stmt(0, 0, &Stmt::DefVar("v".to_string(), None)), None);
    assert_eq!(check_stmt(0, 0, &Stmt::DefVar("v".to_string(), Some(plain()))), None);
    assert_eq!(
        check_stmt(0, 5, &Stmt::DefVar("v".to_string(), Some(odd()))),
        Some(Notice::UnsupportedExpression(0, 5))
    );
    assert_eq!(check_stmt(0, 0, &Stmt::CallCmd("ls".to_string(), vec![plain()])), None);
    assert_eq!(
        check_stmt(3, 1, &Stmt::CallCmd("ls".to_string(), vec![plain(), odd()])),
        Some(Notice::UnsupportedExpression(3, 1))
    );
    assert_eq!(
        check_stmt(4, 7, &Stmt::Unsupported("While".to_string())),
        Some(Notice::UnsupportedStatement(4, 7))
    );
    assert_eq!(
        check_stmt(4, 8, &Stmt::DefFun("f".to_string(), vec![], vec![])),
        Some(Notice::UnsupportedStatement(4, 8))
    );
    assert_eq!(
        check_stmt(4, 9, &Stmt::DefCmd("c".to_string(), vec![], vec![])),
        Some(Notice::UnsupportedStatement(4, 9))
    );
}

#[test]
fn body_notices_are_added_in_order() {
    let body = vec![
        Stmt::Return(odd()),
        Stmt::Return(plain()),
        Stmt::Unsupported("Loop".to_string()),
    ];
    let mut found = vec![Notice::SkippedDeclaration(0)];
    check_body(&mut found, 1, &body);
    assert_eq!(
        found,
        vec![
            Notice::SkippedDeclaration(0),
            Notice::UnsupportedExpression(1, 0),
            Notice::UnsupportedStatement(1, 2),
        ]
    );
}

#[test]
fn program_notices_follow_the_program() {
    let program = vec![
        Stmt::DefVar("x".to_string(), None),
        Stmt::DefFun(
            "f".to_string(),
            vec![],
            vec![Stmt::Unsupported("Loop".to_string()), Stmt::Return(Expr::LitNum(0))],
        ),
        Stmt::Unsupported("Import".to_string()),
        Stmt::DefCmd("c".to_string(), vec![], vec![Stmt::CallCmd("ls".to_string(), vec![odd()])]),
        Stmt::CallCmd("f".to_string(), vec![]),
    ];
    assert_eq!(
        diagnostics(&program),
        vec![
            Notice::SkippedDeclaration(0),
            Notice::UnsupportedStatement(1, 0),
            Notice::SkippedDeclaration(2),
            Notice::UnsupportedExpression(3, 0),
            Notice::SkippedDeclaration(4),
        ]
    );
}

#[test]
fn clean_program_has_no_notices() {
    let program = vec![Stmt::DefFun(
        "f".to_string(),
        vec!["a".to_string()],
        vec![Stmt::CallCmd("info".to_string(), vec![plain()]), Stmt::Return(Expr::LitNum(0))],
    )];
    assert!(diagnostics(&program).is_empty());
    assert!(diagnostics(&vec![]).is_empty());
}

#[test]
fn call_kinds() {
    let mut syms = SymbolSet::new();
    syms.insert("deploy".to_string());
    syms.insert("output".to_string());
    assert_eq!(classify(&syms, "info"), CallKind::Builtin);
    assert_eq!(classify(&syms, "output"), CallKind::Builtin);
    assert_eq!(classify(&syms, "deploy"), CallKind::Routine);
    assert_eq!(classify(&syms, "ls"), CallKind::External);
    assert_eq!(classify(&syms, "Info"), CallKind::External);
    assert_eq!(classify(&syms, ""), CallKind::External);
    assert_eq!(classify(&SymbolSet::new(), "deploy"), CallKind::External);
}
