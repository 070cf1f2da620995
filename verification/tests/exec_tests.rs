// End-to-end tests: SQL text through sqlparser, converted to the library's
// statement model, evaluated by the verified driver, and the returned
// numeric plan executed with floating point.

use sql_calc::ast::{Expr, Literal, Op, QueryBody, SelectItem, Stmt};
use sql_calc::value::{CalcError, CalcResult, NumExpr};
use sqlparser::ast as sq;

fn conv_op(op: &sq::BinaryOperator) -> Op {
    match op {
        sq::BinaryOperator::Plus => Op::Plus,
        sq::BinaryOperator::Minus => Op::Minus,
        sq::BinaryOperator::Multiply => Op::Multiply,
        sq::BinaryOperator::Gt => Op::Gt,
        _ => Op::Other,
    }
}

fn conv_value(v: &sq::Value) -> Literal {
    match v {
        sq::Value::Number(s, _) => Literal::Number(s.clone()),
        sq::Value::SingleQuotedString(s) => Literal::SingleQuoted(s.clone()),
        sq::Value::DoubleQuotedString(s) => Literal::DoubleQuoted(s.clone()),
        _ => Literal::Other,
    }
}

fn func_name(f: &sq::Function) -> String {
    match f.name.0.first() {
        Some(sq::ObjectNamePart::Identifier(id)) => id.value.clone(),
        _ => String::new(),
    }
}

fn conv_arg_expr(a: &sq::FunctionArgExpr) -> Expr {
    match a {
        sq::FunctionArgExpr::Expr(e) => conv_expr(e),
        _ => Expr::Other,
    }
}

fn func_arg(f: &sq::Function) -> Option<Box<Expr>> {
    match &f.args {
        sq::FunctionArguments::List(list) => list.args.first().map(|a| Box::new(match a {
            sq::FunctionArg::Named { arg, .. } => conv_arg_expr(arg),
            sq::FunctionArg::ExprNamed { arg, .. } => conv_arg_expr(arg),
            sq::FunctionArg::Unnamed(arg) => conv_arg_expr(arg),
        })),
        _ => None,
    }
}

fn conv_expr(e: &sq::Expr) -> Expr {
    match e {
        sq::Expr::BinaryOp { left, op, right } => Expr::Binary {
            left: Box::new(conv_expr(left)),
            op: conv_op(op),
            right: Box::new(conv_expr(right)),
        },
        sq::Expr::Function(f) => Expr::Func { name: func_name(f), arg: func_arg(f) },
        sq::Expr::Value(v) => Expr::Lit(conv_value(&v.value)),
        sq::Expr::Nested(inner) => Expr::Nested(Box::new(conv_expr(inner))),
        sq::Expr::Cast { expr, data_type: sq::DataType::Int(_), .. } => {
            Expr::CastInt(Box::new(conv_expr(expr)))
        }
        _ => Expr::Other,
    }
}

fn conv_item(it: &sq::SelectItem) -> SelectItem {
    match it {
        sq::SelectItem::UnnamedExpr(e) => SelectItem::Unnamed(conv_expr(e)),
        _ => SelectItem::Other,
    }
}

fn conv_stmt(s: &sq::Statement) -> Stmt {
    match s {
        sq::Statement::Query(q) => Stmt::Query(match q.body.as_ref() {
            sq::SetExpr::Select(sel) => {
                QueryBody::Select(sel.projection.iter().map(conv_item).collect())
            }
            _ => QueryBody::Other,
        }),
        _ => Stmt::Other,
    }
}

fn exec(query: String) -> Result<CalcResult, CalcError> {
    let dialect = sqlparser::dialect::GenericDialect {};
    let parsed = sqlparser::parser::Parser::parse_sql(&dialect, &query)
        .ok()
        .map(|stmts| stmts.iter().map(conv_stmt).collect::<Vec<_>>());
    sql_calc::driver::exec(parsed)
}

fn num_value(n: &NumExpr) -> f64 {
    match n {
        NumExpr::Lit(s) => s.parse::<f64>().unwrap(),
        NumExpr::Add(l, r) => num_value(l) + num_value(r),
        NumExpr::Sub(l, r) => num_value(l) - num_value(r),
        NumExpr::Mul(l, r) => num_value(l) * num_value(r),
        NumExpr::Sqrt(a) => num_value(a).sqrt(),
        NumExpr::Parsed(s) => s.parse::<f64>().unwrap(),
    }
}

// The executed outcome, flattened for comparison in tests.
fn outcome(res: &Result<CalcResult, CalcError>) -> String {
    match res {
        Ok(CalcResult::Num(n)) => format!("num {}", num_value(n)),
        Ok(CalcResult::Bool(l, r)) => format!("bool {}", num_value(l) > num_value(r)),
        Ok(CalcResult::Str(s)) => format!("str {}", s),
        Err(e) => e.render(),
    }
}

#[test]
fn exec_single_operator() {
    let res = exec(String::from("SELECT 1 + 1"));
    if let CalcResult::Num(val) = res.unwrap() {
        assert_eq!(num_value(&val), 2.0);
    } else {
        panic!();
    }
}

#[test]
fn exec_multy_operator() {
    let res = exec(String::from("SELECT 1 + 1 * 3"));
    if let CalcResult::Num(val) = res.unwrap() {
        assert_eq!(num_value(&val), 4.0);
    } else {
        panic!();
    }
}

#[test]
fn exec_gt_operator() {
    let res = exec(String::from("SELECT 2 > 3"));
    if let CalcResult::Bool(l, r) = res.unwrap() {
        assert!(!(num_value(&l) > num_value(&r)));
    } else {
        panic!();
    }
}

#[test]
fn exec_operators_with_quotas() {
    let res = exec(String::from("SELECT (1 + (2+3+4)-5)+(6+7)"));
    if let CalcResult::Num(val) = res.unwrap() {
        assert_eq!(num_value(&val), 18.0);
    } else {
        panic!();
    }
}

#[test]
fn exec_unsupported_operators() {
    let res = exec(String::from("SELECT 1 / 2"));
    assert!(matches!(res.unwrap_err(), CalcError::UnsupportedOperator(_)));
}

#[test]
fn exec_func_sqrt() {
    let res = exec(String::from("SELECT SQRT(5 + 2 * 4)"));
    if let CalcResult::Num(val) = res.unwrap() {
        assert_eq!(num_value(&val), 3.605551275463989);
    } else {
        panic!();
    }
}

#[test]
fn exec_func_sqrt_gt() {
    let res = exec(String::from("SELECT SQRT(16) > SQRT(4)"));
    if let CalcResult::Bool(l, r) = res.unwrap() {
        assert!(num_value(&l) > num_value(&r));
    } else {
        panic!();
    }
}

#[test]
fn exec_func_unsupported() {
    let res = exec(String::from("SELECT Log(2)"));
    assert!(matches!(res.unwrap_err(), CalcError::UnsupportedFunc(_)));
}

#[test]
fn exec_cast() {
    let res = exec(String::from("SELECT CAST('2' as int)"));
    if let CalcResult::Num(val) = res.unwrap() {
        assert_eq!(num_value(&val), 2.0);
    } else {
        panic!();
    }
}

#[test]
fn exec_cast_invalied() {
    let res = exec(String::from("SELECT CAST('qwe' as int)"));
    assert!(matches!(res.unwrap_err(), CalcError::InvalidType(_)));
}

#[test]
fn exec_invalied_expr() {
    let res = exec(String::from("SELECT * from table"));
    assert!(matches!(res.unwrap_err(), CalcError::InvalidRequestFormat(_)));
}

#[test]
fn exec_invalied_statement() {
    let res = exec(String::from("INSERT INTO table"));
    assert!(matches!(res.unwrap_err(), CalcError::InvalidRequestFormat(_)));
}

#[test]
fn exec_invalied_format() {
    let res = exec(String::from("Give the data"));
    assert!(matches!(res.unwrap_err(), CalcError::InvalidRequestFormat(_)));
}

#[test]
fn exec_minus_operator() {
    let res = exec(String::from("SELECT 2.5 - 4"));
    if let CalcResult::Num(val) = res.unwrap() {
        assert_eq!(num_value(&val), -1.5);
    } else {
        panic!();
    }
}

#[test]
fn exec_gt_true() {
    let res = exec(String::from("SELECT 3.5 > 3"));
    if let CalcResult::Bool(l, r) = res.unwrap() {
        assert!(num_value(&l) > num_value(&r));
    } else {
        panic!();
    }
}

#[test]
fn exec_string_literal() {
    let res = exec(String::from("SELECT 'hello'"));
    if let CalcResult::Str(s) = res.unwrap() {
        assert_eq!(s, String::from("hello"));
    } else {
        panic!();
    }
}

#[test]
fn exec_cast_of_float_text() {
    let res = exec(String::from("SELECT CAST('2.5' as int)"));
    if let CalcResult::Num(val) = res.unwrap() {
        assert_eq!(num_value(&val), 2.5);
    } else {
        panic!();
    }
}

#[test]
fn exec_boolean_literal_is_invalid_type() {
    let res = exec(String::from("SELECT true"));
    assert!(matches!(res.unwrap_err(), CalcError::InvalidType(_)));
}

#[test]
fn exec_column_reference_is_unexpected() {
    let res = exec(String::from("SELECT x"));
    assert!(matches!(res.unwrap_err(), CalcError::Unexpected));
}

#[test]
fn exec_same_text_twice_same_outcome() {
    let text = "SELECT SQRT(2) > CAST('1.4' as int)";
    let first = exec(String::from(text));
    let second = exec(String::from(text));
    assert_eq!(outcome(&first), outcome(&second));
    let first = exec(String::from("Give the data"));
    let second = exec(String::from("Give the data"));
    assert_eq!(outcome(&first), outcome(&second));
}
