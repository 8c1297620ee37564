//! A static analyzer for smart-contract abstract syntax trees. Given a
//! parsed source unit it reports, per contract: state variables that are
//! declared but never used, division expressions whose right operand is a
//! multiplication (an integer-precision hazard), and calls to destructive
//! functions (`selfdestruct`, `suicide`) that no prior `require` guard
//! protects.
//!
//! Parsing source text into the tree and rendering findings are the
//! caller's business; this crate consumes an [`ast::SourceUnit`] and
//! produces [`finding::Finding`] records, and every function here is a
//! pure, verified function of that tree.

pub mod ast;
pub mod finding;
pub mod symbols;
pub mod analyze;
pub mod arithmetic;
pub mod guard;
pub mod laws;
pub mod unused;
