//! The result and error model of evaluation.
//!
//! Evaluation never performs floating-point arithmetic itself: a numeric
//! result is a [`NumExpr`], the exact arithmetic plan over the literal texts
//! that produced it, and a comparison result keeps its two numeric operands.
//! The front end executes such a plan numerically after evaluation; every
//! decision the evaluator takes (operand types, operator support, error
//! kinds) is independent of the numeric values and is made here.

use vstd::prelude::*;
use vstd::string::StringExecFns;

verus! {

/// A numeric computation over literal texts: what a numeric result is, before
/// any arithmetic is carried out.
///
/// `Lit` holds a numeric literal's decimal text; `Parsed` holds the text of a
/// quoted string that an integer cast turned into a number. The remaining
/// variants are the four numeric operations evaluation can apply.
#[derive(Debug)]
pub enum NumExpr {
    Lit(String),
    Add(Box<NumExpr>, Box<NumExpr>),
    Sub(Box<NumExpr>, Box<NumExpr>),
    Mul(Box<NumExpr>, Box<NumExpr>),
    Sqrt(Box<NumExpr>),
    Parsed(String),
}

/// The scalar result of a successful evaluation: a number (as its arithmetic
/// plan), a comparison `Bool(l, r)` holding for `l > r`, or the text of a
/// quoted string literal.
#[derive(Debug)]
pub enum CalcResult {
    Num(NumExpr),
    Bool(NumExpr, NumExpr),
    Str(String),
}

/// The error taxonomy of evaluation. Each kind except `Unexpected` carries a
/// human-readable message; callers match on the kind, never on the message.
#[derive(Debug)]
pub enum CalcError {
    InvalidType(String),
    UnsupportedOperator(String),
    UnsupportedFunc(String),
    InvalidRequestFormat(String),
    Unexpected,
}

/// The mathematical model of a [`NumExpr`].
pub enum NumExprV {
    Lit(Seq<char>),
    Add(Box<NumExprV>, Box<NumExprV>),
    Sub(Box<NumExprV>, Box<NumExprV>),
    Mul(Box<NumExprV>, Box<NumExprV>),
    Sqrt(Box<NumExprV>),
    Parsed(Seq<char>),
}

/// The mathematical model of a [`CalcResult`].
pub enum CalcResultV {
    Num(NumExprV),
    Bool(NumExprV, NumExprV),
    Str(Seq<char>),
}

/// The mathematical model of a [`CalcError`].
pub enum CalcErrorV {
    InvalidType(Seq<char>),
    UnsupportedOperator(Seq<char>),
    UnsupportedFunc(Seq<char>),
    InvalidRequestFormat(Seq<char>),
    Unexpected,
}

/// The model of a numeric plan, structurally.
pub open spec fn num_view(n: NumExpr) -> NumExprV
    decreases n,
{
    match n {
        NumExpr::Lit(s) => NumExprV::Lit(s@),
        NumExpr::Add(l, r) => NumExprV::Add(Box::new(num_view(*l)), Box::new(num_view(*r))),
        NumExpr::Sub(l, r) => NumExprV::Sub(Box::new(num_view(*l)), Box::new(num_view(*r))),
        NumExpr::Mul(l, r) => NumExprV::Mul(Box::new(num_view(*l)), Box::new(num_view(*r))),
        NumExpr::Sqrt(a) => NumExprV::Sqrt(Box::new(num_view(*a))),
        NumExpr::Parsed(s) => NumExprV::Parsed(s@),
    }
}

impl View for NumExpr {
    type V = NumExprV;

    open spec fn view(&self) -> NumExprV {
        num_view(*self)
    }
}

impl View for CalcResult {
    type V = CalcResultV;

    open spec fn view(&self) -> CalcResultV {
        match self {
            CalcResult::Num(n) => CalcResultV::Num(n@),
            CalcResult::Bool(l, r) => CalcResultV::Bool(l@, r@),
            CalcResult::Str(s) => CalcResultV::Str(s@),
        }
    }
}

impl View for CalcError {
    type V = CalcErrorV;

    open spec fn view(&self) -> CalcErrorV {
        match self {
            CalcError::InvalidType(m) => CalcErrorV::InvalidType(m@),
            CalcError::UnsupportedOperator(m) => CalcErrorV::UnsupportedOperator(m@),
            CalcError::UnsupportedFunc(m) => CalcErrorV::UnsupportedFunc(m@),
            CalcError::InvalidRequestFormat(m) => CalcErrorV::InvalidRequestFormat(m@),
            CalcError::Unexpected => CalcErrorV::Unexpected,
        }
    }
}

/// The model of an evaluation outcome.
pub open spec fn res_view(r: Result<CalcResult, CalcError>) -> Result<CalcResultV, CalcErrorV> {
    match r {
        Result::Ok(v) => Result::Ok(v@),
        Result::Err(e) => Result::Err(e@),
    }
}

/// The line an error renders to: a fixed bracketed tag for its kind, then its
/// message; the catch-all kind renders a fixed generic line instead.
pub open spec fn error_text(e: CalcErrorV) -> Seq<char> {
    match e {
        CalcErrorV::InvalidType(m) => "[Invalid Type]: "@ + m,
        CalcErrorV::UnsupportedOperator(m) => "[Unsupported Operator]: "@ + m,
        CalcErrorV::UnsupportedFunc(m) => "[Unsupported Function]: "@ + m,
        CalcErrorV::InvalidRequestFormat(m) => "[Invalid Request Format]: "@ + m,
        CalcErrorV::Unexpected => "[Unexpected Error]: Something went wrong"@,
    }
}

impl CalcError {
    /// Render this error as one line of text.
    pub fn render(&self) -> (r: String)
        ensures
            r@ == error_text(self@),
    {
        match self {
            CalcError::InvalidType(m) => {
                let mut s = "[Invalid Type]: ".to_owned();
                s.append(m.as_str());
                s
            },
            CalcError::UnsupportedOperator(m) => {
                let mut s = "[Unsupported Operator]: ".to_owned();
                s.append(m.as_str());
                s
            },
            CalcError::UnsupportedFunc(m) => {
                let mut s = "[Unsupported Function]: ".to_owned();
                s.append(m.as_str());
                s
            },
            CalcError::InvalidRequestFormat(m) => {
                let mut s = "[Invalid Request Format]: ".to_owned();
                s.append(m.as_str());
                s
            },
            CalcError::Unexpected => "[Unexpected Error]: Something went wrong".to_owned(),
        }
    }
}

} // verus!
