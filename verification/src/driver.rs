//! The query driver: from a parse outcome to an evaluation outcome.
//!
//! The front end parses the SQL text and converts the statements into the
//! [`crate::ast`] model, handing [`exec`] `None` when parsing failed. The
//! driver validates the statement shape — one query, with a plain `SELECT`
//! body, whose first projection item is an unnamed expression — and
//! evaluates that expression; every other shape is an invalid-request
//! error. Only the first statement and the first projection item are ever
//! looked at.

use crate::ast::{QueryBody, QueryBodyV, SelectItem, SelectItemV, Stmt, StmtV};
use crate::eval::eval_expr;
use crate::value::{res_view, CalcError, CalcErrorV, CalcResult, CalcResultV};
use vstd::prelude::*;

verus! {

/// Message of the invalid-request error for unparsable text or an empty
/// statement list.
pub open spec fn msg_not_sql() -> Seq<char> {
    "It is not SQL, man"@
}

/// Message of the invalid-request error for a statement that is not a query.
pub open spec fn msg_only_queries() -> Seq<char> {
    "only Queries are supported"@
}

/// Message of the invalid-request error for a query body that is not a
/// plain `SELECT`, or for an empty projection list.
pub open spec fn msg_only_select() -> Seq<char> {
    "only SELECT is supported"@
}

/// Message of the invalid-request error for a projection item that is not
/// an unnamed expression.
pub open spec fn msg_only_unnamed() -> Seq<char> {
    "only Unnamed expressions are supported"@
}

/// What one statement yields: its first projected expression's evaluation,
/// or the invalid-request error naming the first shape check that failed.
pub open spec fn run_stmt(s: StmtV) -> Result<CalcResultV, CalcErrorV> {
    match s {
        StmtV::Query(body) => match body {
            QueryBodyV::Select(items) => if items.len() == 0 {
                Result::Err(CalcErrorV::InvalidRequestFormat(msg_only_select()))
            } else {
                match items[0] {
                    SelectItemV::Unnamed(e) => eval_expr(e),
                    SelectItemV::Other => Result::Err(
                        CalcErrorV::InvalidRequestFormat(msg_only_unnamed()),
                    ),
                }
            },
            QueryBodyV::Other => Result::Err(CalcErrorV::InvalidRequestFormat(msg_only_select())),
        },
        StmtV::Other => Result::Err(CalcErrorV::InvalidRequestFormat(msg_only_queries())),
    }
}

/// What a parse outcome yields: a parse failure and an empty statement list
/// are invalid requests, anything else is decided by the first statement.
pub open spec fn run_parsed(parsed: Option<Seq<Stmt>>) -> Result<CalcResultV, CalcErrorV> {
    match parsed {
        Option::None => Result::Err(CalcErrorV::InvalidRequestFormat(msg_not_sql())),
        Option::Some(stmts) => if stmts.len() == 0 {
            Result::Err(CalcErrorV::InvalidRequestFormat(msg_not_sql()))
        } else {
            run_stmt(stmts[0]@)
        },
    }
}

/// Evaluate a parse outcome: `None` stands for text the parser refused.
pub fn exec(parsed: Option<Vec<Stmt>>) -> (r: Result<CalcResult, CalcError>)
    ensures
        res_view(r) == run_parsed(
            match parsed {
                Option::None => Option::None,
                Option::Some(stmts) => Option::Some(stmts@),
            },
        ),
{
    match parsed {
        None => Err(CalcError::InvalidRequestFormat("It is not SQL, man".to_owned())),
        Some(stmts) => {
            if stmts.len() == 0 {
                Err(CalcError::InvalidRequestFormat("It is not SQL, man".to_owned()))
            } else {
                match &stmts[0] {
                    Stmt::Query(body) => match body {
                        QueryBody::Select(items) => {
                            if items.len() == 0 {
                                Err(
                                    CalcError::InvalidRequestFormat(
                                        "only SELECT is supported".to_owned(),
                                    ),
                                )
                            } else {
                                match &items[0] {
                                    SelectItem::Unnamed(e) => crate::eval::calc(e),
                                    SelectItem::Other => Err(
                                        CalcError::InvalidRequestFormat(
                                            "only Unnamed expressions are supported".to_owned(),
                                        ),
                                    ),
                                }
                            }
                        },
                        QueryBody::Other => Err(
                            CalcError::InvalidRequestFormat("only SELECT is supported".to_owned()),
                        ),
                    },
                    Stmt::Other => Err(
                        CalcError::InvalidRequestFormat("only Queries are supported".to_owned()),
                    ),
                }
            }
        },
    }
}

} // verus!
