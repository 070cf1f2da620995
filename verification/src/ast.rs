//! The statement and expression model the evaluator works on.
//!
//! These types hold, as plain values, exactly what evaluation reads from a
//! parsed SQL statement: the front end converts the parser's tree into this
//! model one node at a time, mapping every node shape the evaluator has no
//! rule for to the `Other` variant of the matching type.

use vstd::prelude::*;

verus! {

/// A binary operator, reduced to what evaluation distinguishes: the four
/// supported operators, and `Other` for any further operator the parser
/// may produce.
#[derive(Clone, Copy, PartialEq, Eq, Structural, Debug)]
pub enum Op {
    Plus,
    Minus,
    Multiply,
    Gt,
    Other,
}

/// A literal operand. `Number` holds the decimal text exactly as the parser
/// produced it; the quoted variants hold the unquoted text verbatim. `Other`
/// stands for every further literal kind (booleans, nulls, placeholders).
#[derive(Debug)]
pub enum Literal {
    Number(String),
    SingleQuoted(String),
    DoubleQuoted(String),
    Other,
}

/// One node of an expression tree.
///
/// `Func` keeps the function's name and its first argument, if any: only the
/// first argument ever takes part in evaluation, named and unnamed argument
/// syntax both unwrap to the inner expression. `CastInt` is a cast whose
/// target is an integer type; casts to any other type, and every further
/// node shape, convert to `Other`.
#[derive(Debug)]
pub enum Expr {
    Binary { left: Box<Expr>, op: Op, right: Box<Expr> },
    Func { name: String, arg: Option<Box<Expr>> },
    Lit(Literal),
    Nested(Box<Expr>),
    CastInt(Box<Expr>),
    Other,
}

/// One item of a `SELECT` projection list: an unnamed expression, or any
/// other item shape (wildcards, aliased expressions).
#[derive(Debug)]
pub enum SelectItem {
    Unnamed(Expr),
    Other,
}

/// The body of a query: a plain `SELECT` with its projection list, or any
/// other body shape (set operations such as `UNION`).
#[derive(Debug)]
pub enum QueryBody {
    Select(Vec<SelectItem>),
    Other,
}

/// One parsed statement: a query, or any other statement kind.
#[derive(Debug)]
pub enum Stmt {
    Query(QueryBody),
    Other,
}

/// The mathematical model of a [`Literal`].
pub enum LiteralV {
    Number(Seq<char>),
    SingleQuoted(Seq<char>),
    DoubleQuoted(Seq<char>),
    Other,
}

/// The mathematical model of an [`Expr`].
pub enum ExprV {
    Binary { left: Box<ExprV>, op: Op, right: Box<ExprV> },
    Func { name: Seq<char>, arg: Option<Box<ExprV>> },
    Lit(LiteralV),
    Nested(Box<ExprV>),
    CastInt(Box<ExprV>),
    Other,
}

/// The mathematical model of a [`SelectItem`].
pub enum SelectItemV {
    Unnamed(ExprV),
    Other,
}

/// The mathematical model of a [`QueryBody`].
pub enum QueryBodyV {
    Select(Seq<SelectItemV>),
    Other,
}

/// The mathematical model of a [`Stmt`].
pub enum StmtV {
    Query(QueryBodyV),
    Other,
}

impl View for Literal {
    type V = LiteralV;

    open spec fn view(&self) -> LiteralV {
        match self {
            Literal::Number(s) => LiteralV::Number(s@),
            Literal::SingleQuoted(s) => LiteralV::SingleQuoted(s@),
            Literal::DoubleQuoted(s) => LiteralV::DoubleQuoted(s@),
            Literal::Other => LiteralV::Other,
        }
    }
}

/// The model of an expression node, structurally.
pub open spec fn expr_view(e: Expr) -> ExprV
    decreases e,
{
    match e {
        Expr::Binary { left, op, right } => ExprV::Binary {
            left: Box::new(expr_view(*left)),
            op,
            right: Box::new(expr_view(*right)),
        },
        Expr::Func { name, arg } => ExprV::Func {
            name: name@,
            arg: match arg {
                Option::None => Option::None,
                Option::Some(a) => Option::Some(Box::new(expr_view(*a))),
            },
        },
        Expr::Lit(l) => ExprV::Lit(l@),
        Expr::Nested(inner) => ExprV::Nested(Box::new(expr_view(*inner))),
        Expr::CastInt(inner) => ExprV::CastInt(Box::new(expr_view(*inner))),
        Expr::Other => ExprV::Other,
    }
}

impl View for Expr {
    type V = ExprV;

    open spec fn view(&self) -> ExprV {
        expr_view(*self)
    }
}

impl View for SelectItem {
    type V = SelectItemV;

    open spec fn view(&self) -> SelectItemV {
        match self {
            SelectItem::Unnamed(e) => SelectItemV::Unnamed(expr_view(*e)),
            SelectItem::Other => SelectItemV::Other,
        }
    }
}

impl View for QueryBody {
    type V = QueryBodyV;

    open spec fn view(&self) -> QueryBodyV {
        match self {
            QueryBody::Select(items) => QueryBodyV::Select(
                items@.map_values(|it: SelectItem| it@),
            ),
            QueryBody::Other => QueryBodyV::Other,
        }
    }
}

impl View for Stmt {
    type V = StmtV;

    open spec fn view(&self) -> StmtV {
        match self {
            Stmt::Query(body) => StmtV::Query(body@),
            Stmt::Other => StmtV::Other,
        }
    }
}

} // verus!
