use sol_lint::ast::{BinOpKind, Expr, Stmt};
use sol_lint::arithmetic::{check_for_multiplication, check_unsafe_arithmetic, contains_div_before_mul};
use sol_lint::guard::{contains_unprotected_selfdestruct, stmt_is_destructive, stmt_is_guard};

fn ident(name: &str) -> Expr {
    Expr::Ident(name.to_string())
}

fn call(callee: &str, args: Vec<Expr>) -> Expr {
    Expr::Call(Box::new(ident(callee)), args)
}

fn binary(left: Expr, op: BinOpKind, right: Expr) -> Expr {
    Expr::Binary(Box::new(left), op, Box::new(right))
}

fn expr_stmt(e: Expr) -> Stmt {
    Stmt::Expr(e)
}

#[test]
fn div_with_mul_on_the_right_is_flagged() {
    // a / (b * c)
    let e = binary(ident("a"), BinOpKind::Div, binary(ident("b"), BinOpKind::Mul, ident("c")));
    assert!(contains_div_before_mul(&e));
    assert!(check_unsafe_arithmetic(&expr_stmt(e)));
}

#[test]
fn mul_then_div_is_not_flagged() {
    // (a * b) / c
    let e = binary(binary(ident("a"), BinOpKind::Mul, ident("b")), BinOpKind::Div, ident("c"));
    assert!(!contains_div_before_mul(&e));
    assert!(!check_unsafe_arithmetic(&expr_stmt(e)));
}

#[test]
fn plain_div_is_not_flagged() {
    // a / b
    let e = binary(ident("a"), BinOpKind::Div, ident("b"));
    assert!(!contains_div_before_mul(&e));
    assert!(!check_unsafe_arithmetic(&expr_stmt(e)));
}

#[test]
fn mul_node_is_recognized() {
    let e = binary(ident("b"), BinOpKind::Mul, ident("c"));
    assert!(check_for_multiplication(&e));
    let other = binary(ident("b"), BinOpKind::OtherOp, ident("c"));
    assert!(!check_for_multiplication(&other));
    assert!(!check_for_multiplication(&ident("b")));
}

#[test]
fn non_expression_statement_is_not_flagged() {
    assert!(!check_unsafe_arithmetic(&Stmt::OtherStmt));
}

#[test]
fn guard_before_selfdestruct_protects() {
    // [require(x); selfdestruct(y);]
    let body = vec![
        expr_stmt(call("require", vec![ident("x")])),
        expr_stmt(call("selfdestruct", vec![ident("y")])),
    ];
    assert!(!contains_unprotected_selfdestruct(&body));
}

#[test]
fn guard_after_selfdestruct_does_not_protect() {
    // [selfdestruct(y); require(x);]
    let body = vec![
        expr_stmt(call("selfdestruct", vec![ident("y")])),
        expr_stmt(call("require", vec![ident("x")])),
    ];
    assert!(contains_unprotected_selfdestruct(&body));
}

#[test]
fn lone_selfdestruct_is_unprotected() {
    // [selfdestruct(y);]
    let body = vec![expr_stmt(call("selfdestruct", vec![ident("y")]))];
    assert!(contains_unprotected_selfdestruct(&body));
}

#[test]
fn suicide_counts_as_destructive() {
    let body = vec![expr_stmt(call("suicide", vec![ident("y")]))];
    assert!(contains_unprotected_selfdestruct(&body));
    assert!(stmt_is_destructive(&expr_stmt(call("suicide", vec![]))));
    assert!(stmt_is_destructive(&expr_stmt(call("selfdestruct", vec![]))));
    assert!(!stmt_is_destructive(&expr_stmt(call("require", vec![]))));
}

#[test]
fn guard_statement_is_recognized() {
    assert!(stmt_is_guard(&expr_stmt(call("require", vec![ident("x")]))));
    assert!(!stmt_is_guard(&expr_stmt(call("requires", vec![ident("x")]))));
    assert!(!stmt_is_guard(&expr_stmt(ident("require"))));
    assert!(!stmt_is_guard(&Stmt::OtherStmt));
}

#[test]
fn guard_ahead_of_both_destructive_calls_protects_them() {
    // [require(x); suicide(y); selfdestruct(z);] — the guard precedes every
    // destructive call, so nothing is unprotected.
    let body = vec![
        expr_stmt(call("require", vec![ident("x")])),
        expr_stmt(call("suicide", vec![ident("y")])),
        expr_stmt(call("selfdestruct", vec![ident("z")])),
    ];
    assert!(!contains_unprotected_selfdestruct(&body));
}

#[test]
fn other_calls_do_not_affect_the_guard_state() {
    let body = vec![
        expr_stmt(call("log", vec![ident("x")])),
        expr_stmt(call("selfdestruct", vec![ident("y")])),
    ];
    assert!(contains_unprotected_selfdestruct(&body));
}

#[test]
fn destructive_callee_must_be_a_bare_identifier() {
    // A call whose callee is itself a call is not matched.
    let nested = Expr::Call(Box::new(call("selfdestruct", vec![])), vec![]);
    assert!(!contains_unprotected_selfdestruct(&vec![expr_stmt(nested)]));
}
