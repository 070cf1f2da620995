//! Laws of evaluation: properties that hold of every input, proved once
//! here rather than observed on examples.

use crate::ast::{ExprV, LiteralV, Op, Stmt, StmtV, QueryBodyV, SelectItemV};
use crate::driver::{msg_not_sql, msg_only_queries, msg_only_select, msg_only_unnamed, run_parsed};
use crate::eval::{
    apply_op, eval_expr, msg_cast_numbers_only, msg_only_sqrt, msg_unsupported_operator,
};
use crate::numtext::spec_is_numeric_text;
use crate::value::{CalcErrorV, CalcResultV, NumExprV};
use vstd::prelude::*;

verus! {

/// For all numeric literal texts `a` and `b`, a binary operator over the two
/// literals evaluates to exactly what the operator yields on the two
/// numbers: the arithmetic plan for `+`, `-` and `*`, the comparison for
/// `>`, and the unsupported-operator error for anything else.
pub proof fn lemma_binary_over_literals(a: Seq<char>, op: Op, b: Seq<char>)
    ensures
        eval_expr(
            (ExprV::Binary {
                left: Box::new(ExprV::Lit(LiteralV::Number(a))),
                op,
                right: Box::new(ExprV::Lit(LiteralV::Number(b))),
            }),
        ) == apply_op(op, NumExprV::Lit(a), NumExprV::Lit(b)),
{
    assert(eval_expr(ExprV::Lit(LiteralV::Number(a))) == Result::<
        CalcResultV,
        CalcErrorV,
    >::Ok(CalcResultV::Num(NumExprV::Lit(a))));
    assert(eval_expr(ExprV::Lit(LiteralV::Number(b))) == Result::<
        CalcResultV,
        CalcErrorV,
    >::Ok(CalcResultV::Num(NumExprV::Lit(b))));
}

/// An operator outside the supported set yields the unsupported-operator
/// error whenever both operands reduce to numbers, whatever the operands
/// are.
pub proof fn lemma_unsupported_operator(l: ExprV, r: ExprV)
    requires
        eval_expr(l) matches Result::Ok(CalcResultV::Num(_)),
        eval_expr(r) matches Result::Ok(CalcResultV::Num(_)),
    ensures
        eval_expr(
            (ExprV::Binary { left: Box::new(l), op: Op::Other, right: Box::new(r) }),
        ) == Result::<CalcResultV, CalcErrorV>::Err(
            CalcErrorV::UnsupportedOperator(msg_unsupported_operator()),
        ),
{
}

/// A call of any function but `SQRT` yields the unsupported-function error,
/// whatever its argument holds or evaluates to.
pub proof fn lemma_unknown_function(name: Seq<char>, arg: Option<Box<ExprV>>)
    requires
        name != "SQRT"@,
    ensures
        eval_expr((ExprV::Func { name, arg })) == Result::<CalcResultV, CalcErrorV>::Err(
            CalcErrorV::UnsupportedFunc(msg_only_sqrt()),
        ),
{
}

/// `SQRT` of an expression that reduces to a number reduces to the square
/// root of that number's plan.
pub proof fn lemma_sqrt_of_number(arg: ExprV, n: NumExprV)
    requires
        eval_expr(arg) == Result::<CalcResultV, CalcErrorV>::Ok(CalcResultV::Num(n)),
    ensures
        eval_expr(
            (ExprV::Func { name: "SQRT"@, arg: Option::Some(Box::new(arg)) }),
        ) == Result::<CalcResultV, CalcErrorV>::Ok(
            CalcResultV::Num(NumExprV::Sqrt(Box::new(n))),
        ),
{
}

/// An integer cast of an expression that reduces to a string yields the
/// parsed number exactly when the string is valid numeric text, and a type
/// error otherwise.
pub proof fn lemma_cast_of_string(inner: ExprV, s: Seq<char>)
    requires
        eval_expr(inner) == Result::<CalcResultV, CalcErrorV>::Ok(CalcResultV::Str(s)),
    ensures
        spec_is_numeric_text(s) ==> eval_expr(ExprV::CastInt(Box::new(inner)))
            == Result::<CalcResultV, CalcErrorV>::Ok(CalcResultV::Num(NumExprV::Parsed(s))),
        !spec_is_numeric_text(s) ==> eval_expr(ExprV::CastInt(Box::new(inner)))
            == Result::<CalcResultV, CalcErrorV>::Err(
            CalcErrorV::InvalidType(msg_cast_numbers_only()),
        ),
{
}

/// Grouping is transparent: a nested expression evaluates to whatever its
/// inner expression evaluates to.
pub proof fn lemma_nested_transparent(inner: ExprV)
    ensures
        eval_expr(ExprV::Nested(Box::new(inner))) == eval_expr(inner),
{
}

/// Every rejected request shape yields an invalid-request error, never the
/// catch-all: a parse failure and an empty statement list, a statement that
/// is no query, a query body that is no plain `SELECT`, an empty projection
/// list, and a projection item that is no unnamed expression.
pub proof fn lemma_driver_rejections(stmts: Seq<Stmt>)
    ensures
        run_parsed(Option::None) == Result::<CalcResultV, CalcErrorV>::Err(
            CalcErrorV::InvalidRequestFormat(msg_not_sql()),
        ),
        stmts.len() == 0 ==> run_parsed(Option::Some(stmts)) == Result::<
            CalcResultV,
            CalcErrorV,
        >::Err(CalcErrorV::InvalidRequestFormat(msg_not_sql())),
        stmts.len() > 0 && stmts[0]@ == StmtV::Other ==> run_parsed(Option::Some(stmts))
            == Result::<CalcResultV, CalcErrorV>::Err(
            CalcErrorV::InvalidRequestFormat(msg_only_queries()),
        ),
        stmts.len() > 0 && stmts[0]@ == StmtV::Query(QueryBodyV::Other) ==> run_parsed(
            Option::Some(stmts),
        ) == Result::<CalcResultV, CalcErrorV>::Err(
            CalcErrorV::InvalidRequestFormat(msg_only_select()),
        ),
        stmts.len() > 0 && stmts[0]@ == StmtV::Query(QueryBodyV::Select(Seq::empty()))
            ==> run_parsed(Option::Some(stmts)) == Result::<CalcResultV, CalcErrorV>::Err(
            CalcErrorV::InvalidRequestFormat(msg_only_select()),
        ),
        stmts.len() > 0 && (stmts[0]@ matches StmtV::Query(QueryBodyV::Select(items))
            && items.len() > 0 && items[0] == SelectItemV::Other) ==> run_parsed(
            Option::Some(stmts),
        ) == Result::<CalcResultV, CalcErrorV>::Err(
            CalcErrorV::InvalidRequestFormat(msg_only_unnamed()),
        ),
{
}

/// Evaluation is pure: the outcome is a function of the parsed input alone,
/// so evaluating the same input twice yields the same result.
pub proof fn lemma_evaluation_deterministic(p1: Option<Seq<Stmt>>, p2: Option<Seq<Stmt>>)
    requires
        p1 == p2,
    ensures
        run_parsed(p1) == run_parsed(p2),
{
}

} // verus!
