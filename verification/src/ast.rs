//! The tree representation the analysis reads: a source unit holds items,
//! a contract holds variable declarations and function definitions, a
//! function body is a sequence of statements, and an expression is an
//! identifier, a call, or a binary operation, among others.
//!
//! The analysis never mutates a tree; every detector is a pure function of
//! these values.

use vstd::prelude::*;

verus! {

/// The operator carried by a binary expression. Only division and
/// multiplication are meaningful to the analysis; every other operator is
/// `OtherOp`.
#[derive(Debug, PartialEq, Eq)]
pub enum BinOpKind {
    Div,
    Mul,
    OtherOp,
}

/// An expression. The analysis interprets bare identifiers, calls whose
/// callee is an identifier, and binary operations; every other expression
/// form is `OtherExpr`.
#[derive(Debug, PartialEq, Eq)]
pub enum Expr {
    Ident(String),
    Call(Box<Expr>, Vec<Expr>),
    Binary(Box<Expr>, BinOpKind, Box<Expr>),
    OtherExpr,
}

/// A statement. The analysis interprets only expression statements; every
/// other statement form (blocks, conditionals, loops, ...) is `OtherStmt`
/// and is not recursed into.
#[derive(Debug, PartialEq, Eq)]
pub enum Stmt {
    Expr(Expr),
    OtherStmt,
}

/// A function definition: an optional name and an optional body. A function
/// without a body (an interface declaration) contributes nothing to the
/// detectors.
#[derive(Debug, PartialEq, Eq)]
pub struct FunctionDefinition {
    pub name: Option<String>,
    pub body: Option<Vec<Stmt>>,
}

/// An item of a contract body: a state-variable declaration (whose name may
/// be absent in malformed or partial trees), a function definition, or
/// anything else.
#[derive(Debug, PartialEq, Eq)]
pub enum ContractItem {
    Variable(Option<String>),
    Function(FunctionDefinition),
    OtherItem,
}

/// A contract: a name and an ordered sequence of contract items.
#[derive(Debug, PartialEq, Eq)]
pub struct Contract {
    pub name: String,
    pub items: Vec<ContractItem>,
}

/// A top-level item of a source unit.
#[derive(Debug, PartialEq, Eq)]
pub enum Item {
    Contract(Contract),
    OtherTopItem,
}

/// One parsed source file: an ordered sequence of top-level items.
#[derive(Debug, PartialEq, Eq)]
pub struct SourceUnit {
    pub items: Vec<Item>,
}

/// The view of an optional name: the character sequence it holds, if any.
pub open spec fn opt_name_view(n: Option<String>) -> Option<Seq<char>> {
    match n {
        Some(s) => Some(s@),
        None => None,
    }
}

} // verus!
