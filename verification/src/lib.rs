//! A tiny SQL `SELECT` calculator: a verified evaluator for arithmetic,
//! comparison, `SQRT`, and integer casts over literal operands.
//!
//! The library never touches SQL text or floating point itself. Callers hand
//! it an already-parsed statement model ([`ast`]); evaluation reduces the
//! projected expression to a symbolic numeric plan ([`value::NumExpr`]) or a
//! typed error, and an unverified front end executes the plan numerically.

pub mod ast;
pub mod value;
pub mod numtext;
pub mod eval;
pub mod driver;
pub mod laws;
