//! The expression evaluator: structural reduction of one expression tree to
//! a [`CalcResult`] or a [`CalcError`].
//!
//! [`eval_expr`] is the mathematical definition of evaluation; [`calc`] and
//! its helpers compute it. Both operands of a binary operation must reduce
//! to numbers before the operator is even looked at, so an unsupported
//! operator over a non-numeric operand reports the operand's type error; if
//! both operands fail, the left error wins. `SQRT` is the one recognized
//! function, and an integer cast accepts exactly the strings that
//! [`spec_is_numeric_text`] admits.

use crate::ast::{Expr, ExprV, Literal, LiteralV, Op};
use crate::numtext::{is_numeric_text, spec_is_numeric_text};
use crate::value::{res_view, CalcError, CalcErrorV, CalcResult, CalcResultV, NumExpr, NumExprV};
use vstd::prelude::*;

verus! {

/// Message of the type error for a non-numeric binary operand.
pub open spec fn msg_binary_numbers_only() -> Seq<char> {
    "Binary operators supported by Numbers only"@
}

/// Message of the unsupported-operator error.
pub open spec fn msg_unsupported_operator() -> Seq<char> {
    "You try to use unsupported operator"@
}

/// Message of the type error for an unsupported literal kind.
pub open spec fn msg_unsupported_type() -> Seq<char> {
    "You try to use unsupported type"@
}

/// Message of the type error for a function call without an argument.
pub open spec fn msg_sqrt_needs_arg() -> Seq<char> {
    "SQRT must has an argument"@
}

/// Message of the type error for a non-numeric `SQRT` argument.
pub open spec fn msg_sqrt_numbers_only() -> Seq<char> {
    "SQRT supports only Number"@
}

/// Message of the unsupported-function error.
pub open spec fn msg_only_sqrt() -> Seq<char> {
    "Only SQRT func is supported"@
}

/// Message of the type error for a failed integer cast.
pub open spec fn msg_cast_numbers_only() -> Seq<char> {
    "CAST supports only Number"@
}

/// What a literal reduces to: a number keeps its text, a quoted string
/// becomes text, every other literal kind is a type error.
pub open spec fn eval_literal(l: LiteralV) -> Result<CalcResultV, CalcErrorV> {
    match l {
        LiteralV::Number(s) => Result::Ok(CalcResultV::Num(NumExprV::Lit(s))),
        LiteralV::SingleQuoted(s) => Result::Ok(CalcResultV::Str(s)),
        LiteralV::DoubleQuoted(s) => Result::Ok(CalcResultV::Str(s)),
        LiteralV::Other => Result::Err(CalcErrorV::InvalidType(msg_unsupported_type())),
    }
}

/// What an operator yields once both operands are numbers.
pub open spec fn apply_op(op: Op, l: NumExprV, r: NumExprV) -> Result<CalcResultV, CalcErrorV> {
    match op {
        Op::Plus => Result::Ok(CalcResultV::Num(NumExprV::Add(Box::new(l), Box::new(r)))),
        Op::Minus => Result::Ok(CalcResultV::Num(NumExprV::Sub(Box::new(l), Box::new(r)))),
        Op::Multiply => Result::Ok(CalcResultV::Num(NumExprV::Mul(Box::new(l), Box::new(r)))),
        Op::Gt => Result::Ok(CalcResultV::Bool(l, r)),
        Op::Other => Result::Err(CalcErrorV::UnsupportedOperator(msg_unsupported_operator())),
    }
}

/// A binary operand: the number it reduced to, its own error, or a type
/// error if it reduced to anything but a number.
pub open spec fn spec_numeric_operand(r: Result<CalcResultV, CalcErrorV>) -> Result<
    NumExprV,
    CalcErrorV,
> {
    match r {
        Result::Ok(CalcResultV::Num(n)) => Result::Ok(n),
        Result::Ok(_) => Result::Err(CalcErrorV::InvalidType(msg_binary_numbers_only())),
        Result::Err(e) => Result::Err(e),
    }
}

/// What a binary operation yields from its two evaluated operands: the left
/// operand's failure wins, then the right one's, and only then the operator
/// is looked at.
pub open spec fn eval_binary(
    lr: Result<CalcResultV, CalcErrorV>,
    op: Op,
    rr: Result<CalcResultV, CalcErrorV>,
) -> Result<CalcResultV, CalcErrorV> {
    match spec_numeric_operand(lr) {
        Result::Err(e) => Result::Err(e),
        Result::Ok(l) => match spec_numeric_operand(rr) {
            Result::Err(e) => Result::Err(e),
            Result::Ok(r) => apply_op(op, l, r),
        },
    }
}

/// What a function call yields from its name and its evaluated first
/// argument: only `SQRT` is recognized, it needs an argument, and the
/// argument must have reduced to a number.
pub open spec fn eval_function(
    name: Seq<char>,
    arg: Option<Result<CalcResultV, CalcErrorV>>,
) -> Result<CalcResultV, CalcErrorV> {
    if name == "SQRT"@ {
        match arg {
            Option::None => Result::Err(CalcErrorV::InvalidType(msg_sqrt_needs_arg())),
            Option::Some(r) => match r {
                Result::Err(e) => Result::Err(e),
                Result::Ok(CalcResultV::Num(n)) => Result::Ok(
                    CalcResultV::Num(NumExprV::Sqrt(Box::new(n))),
                ),
                Result::Ok(_) => Result::Err(CalcErrorV::InvalidType(msg_sqrt_numbers_only())),
            },
        }
    } else {
        Result::Err(CalcErrorV::UnsupportedFunc(msg_only_sqrt()))
    }
}

/// What an integer cast yields from its evaluated operand: the operand must
/// have reduced to a string holding valid numeric text.
pub open spec fn eval_cast(r: Result<CalcResultV, CalcErrorV>) -> Result<
    CalcResultV,
    CalcErrorV,
> {
    match r {
        Result::Err(e) => Result::Err(e),
        Result::Ok(CalcResultV::Str(s)) => if spec_is_numeric_text(s) {
            Result::Ok(CalcResultV::Num(NumExprV::Parsed(s)))
        } else {
            Result::Err(CalcErrorV::InvalidType(msg_cast_numbers_only()))
        },
        Result::Ok(_) => Result::Err(CalcErrorV::InvalidType(msg_cast_numbers_only())),
    }
}

/// The evaluated first argument of a function call, if any.
pub open spec fn opt_res_view(a: Option<Result<CalcResult, CalcError>>) -> Option<
    Result<CalcResultV, CalcErrorV>,
> {
    match a {
        Option::None => Option::None,
        Option::Some(r) => Option::Some(res_view(r)),
    }
}

/// What an expression evaluates to: the mathematical definition of the
/// whole evaluator.
pub open spec fn eval_expr(e: ExprV) -> Result<CalcResultV, CalcErrorV>
    decreases e,
{
    match e {
        ExprV::Binary { left, op, right } => eval_binary(eval_expr(*left), op, eval_expr(*right)),
        ExprV::Func { name, arg } => eval_function(
            name,
            match arg {
                Option::None => Option::None,
                Option::Some(a) => Option::Some(eval_expr(*a)),
            },
        ),
        ExprV::Lit(l) => eval_literal(l),
        ExprV::Nested(inner) => eval_expr(*inner),
        ExprV::CastInt(inner) => eval_cast(eval_expr(*inner)),
        ExprV::Other => Result::Err(CalcErrorV::Unexpected),
    }
}

/// Apply a binary operator to two numeric operands.
pub fn apply(op: Op, first_val: NumExpr, second_val: NumExpr) -> (r: Result<
    CalcResult,
    CalcError,
>)
    ensures
        res_view(r) == apply_op(op, first_val@, second_val@),
{
    match op {
        Op::Plus => Ok(CalcResult::Num(NumExpr::Add(Box::new(first_val), Box::new(second_val)))),
        Op::Minus => Ok(CalcResult::Num(NumExpr::Sub(Box::new(first_val), Box::new(second_val)))),
        Op::Multiply => Ok(
            CalcResult::Num(NumExpr::Mul(Box::new(first_val), Box::new(second_val))),
        ),
        Op::Gt => Ok(CalcResult::Bool(first_val, second_val)),
        Op::Other => Err(
            CalcError::UnsupportedOperator("You try to use unsupported operator".to_owned()),
        ),
    }
}

/// Reduce an evaluated operand to its number, or to the error a binary
/// operation reports for it.
fn numeric_operand(r: Result<CalcResult, CalcError>) -> (out: Result<NumExpr, CalcError>)
    ensures
        (match out {
            Ok(n) => Result::<NumExprV, CalcErrorV>::Ok(n@),
            Err(e) => Result::<NumExprV, CalcErrorV>::Err(e@),
        }) == spec_numeric_operand(res_view(r)),
{
    match r {
        Ok(CalcResult::Num(n)) => Ok(n),
        Ok(_) => Err(
            CalcError::InvalidType("Binary operators supported by Numbers only".to_owned()),
        ),
        Err(e) => Err(e),
    }
}

/// Combine two evaluated operands with a binary operator.
pub fn calc_binary_operation(
    lr: Result<CalcResult, CalcError>,
    op: Op,
    rr: Result<CalcResult, CalcError>,
) -> (r: Result<CalcResult, CalcError>)
    ensures
        res_view(r) == eval_binary(res_view(lr), op, res_view(rr)),
{
    match numeric_operand(lr) {
        Err(e) => Err(e),
        Ok(l) => match numeric_operand(rr) {
            Err(e) => Err(e),
            Ok(r) => apply(op, l, r),
        },
    }
}

/// Reduce a literal operand.
pub fn parse_primitive_value(value: &Literal) -> (r: Result<CalcResult, CalcError>)
    ensures
        res_view(r) == eval_literal(value@),
{
    match value {
        Literal::Number(s) => Ok(CalcResult::Num(NumExpr::Lit(s.clone()))),
        Literal::SingleQuoted(s) => Ok(CalcResult::Str(s.clone())),
        Literal::DoubleQuoted(s) => Ok(CalcResult::Str(s.clone())),
        Literal::Other => Err(
            CalcError::InvalidType("You try to use unsupported type".to_owned()),
        ),
    }
}

/// Dispatch a function call on its name and evaluated first argument.
pub fn calc_function(name: &String, arg: Option<Result<CalcResult, CalcError>>) -> (r: Result<
    CalcResult,
    CalcError,
>)
    ensures
        res_view(r) == eval_function(name@, opt_res_view(arg)),
{
    let sqrt_name = "SQRT".to_owned();
    if name.eq(&sqrt_name) {
        match arg {
            None => Err(CalcError::InvalidType("SQRT must has an argument".to_owned())),
            Some(res) => match res {
                Err(e) => Err(e),
                Ok(CalcResult::Num(n)) => Ok(CalcResult::Num(NumExpr::Sqrt(Box::new(n)))),
                Ok(_) => Err(CalcError::InvalidType("SQRT supports only Number".to_owned())),
            },
        }
    } else {
        Err(CalcError::UnsupportedFunc("Only SQRT func is supported".to_owned()))
    }
}

/// Turn an evaluated cast operand into the cast's result.
pub fn cast(res: Result<CalcResult, CalcError>) -> (r: Result<CalcResult, CalcError>)
    ensures
        res_view(r) == eval_cast(res_view(res)),
{
    match res {
        Err(e) => Err(e),
        Ok(CalcResult::Str(s)) => {
            if is_numeric_text(s.as_str()) {
                Ok(CalcResult::Num(NumExpr::Parsed(s)))
            } else {
                Err(CalcError::InvalidType("CAST supports only Number".to_owned()))
            }
        },
        Ok(_) => Err(CalcError::InvalidType("CAST supports only Number".to_owned())),
    }
}

/// Reduce one expression tree to a scalar result or an error.
pub fn calc(expr: &Expr) -> (r: Result<CalcResult, CalcError>)
    ensures
        res_view(r) == eval_expr(expr@),
    decreases *expr,
{
    match expr {
        Expr::Binary { left, op, right } => {
            let lr = calc(left);
            let rr = calc(right);
            calc_binary_operation(lr, *op, rr)
        },
        Expr::Func { name, arg } => {
            let ar = match arg {
                None => None,
                Some(a) => Some(calc(a)),
            };
            calc_function(name, ar)
        },
        Expr::Lit(l) => parse_primitive_value(l),
        Expr::Nested(inner) => calc(inner),
        Expr::CastInt(inner) => cast(calc(inner)),
        Expr::Other => Err(CalcError::Unexpected),
    }
}

} // verus!
