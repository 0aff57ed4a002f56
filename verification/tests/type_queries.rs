use pine_sema::syntax::{BinaryOp, Expr, ExprKind, Literal, Span, SwitchArm};
use pine_sema::type_queries::{type_of_expr_with_params, KnownTypes};
use pine_sema::types::{PineType, Qualifier, ValueKind};

fn span(s: usize) -> Span {
    Span::new(s, s + 1)
}

fn t(q: Qualifier, k: ValueKind) -> PineType {
    PineType::new(q, k)
}

fn name(n: &str, s: usize) -> Expr {
    Expr { kind: ExprKind::Identifier(n.to_string()), span: span(s) }
}

fn lit(v: i64, s: usize) -> Expr {
    Expr { kind: ExprKind::Literal(Literal::Int(v)), span: span(s) }
}

fn binary(op: BinaryOp, l: Expr, r: Expr, s: usize) -> Expr {
    Expr { kind: ExprKind::Binary { op, left: Box::new(l), right: Box::new(r) }, span: span(s) }
}

fn known() -> KnownTypes {
    KnownTypes {
        types: vec![(span(90), t(Qualifier::Simple, ValueKind::String))],
        names: vec![("close".to_string(), t(Qualifier::Series, ValueKind::Float)), ("len".to_string(), t(Qualifier::Simple, ValueKind::Int))],
    }
}

#[test]
fn names_params_and_literals_are_typed() {
    let k = known();
    let params = vec![("len".to_string(), t(Qualifier::Series, ValueKind::Int))];
    assert_eq!(type_of_expr_with_params(&k, &[], &name("len", 1)), Some(t(Qualifier::Simple, ValueKind::Int)));
    assert_eq!(type_of_expr_with_params(&k, &params, &name("len", 1)), Some(t(Qualifier::Series, ValueKind::Int)));
    assert_eq!(type_of_expr_with_params(&k, &[], &name("missing", 1)), None);
    assert_eq!(type_of_expr_with_params(&k, &[], &lit(3, 2)), Some(t(Qualifier::Const, ValueKind::Int)));
    assert_eq!(type_of_expr_with_params(&k, &[], &name("anything", 90)), Some(t(Qualifier::Simple, ValueKind::String)));
}

#[test]
fn operators_conditionals_and_history_are_typed() {
    let k = known();
    assert_eq!(
        type_of_expr_with_params(&k, &[], &binary(BinaryOp::Add, name("len", 1), lit(1, 2), 3)),
        Some(t(Qualifier::Simple, ValueKind::Int))
    );
    assert_eq!(
        type_of_expr_with_params(&k, &[], &binary(BinaryOp::Mul, name("close", 1), lit(2, 2), 3)),
        Some(t(Qualifier::Series, ValueKind::Float))
    );
    assert_eq!(
        type_of_expr_with_params(&k, &[], &binary(BinaryOp::Gt, name("close", 1), lit(2, 2), 3)),
        Some(t(Qualifier::Series, ValueKind::Bool))
    );
    let history = Expr { kind: ExprKind::History { expr: Box::new(name("len", 1)), offset: Box::new(lit(1, 2)) }, span: span(3) };
    assert_eq!(type_of_expr_with_params(&k, &[], &history), Some(t(Qualifier::Series, ValueKind::Int)));
    let ternary = Expr {
        kind: ExprKind::Ternary { condition: Box::new(name("len", 1)), then_expr: Box::new(lit(1, 2)), else_expr: Box::new(name("close", 3)) },
        span: span(4),
    };
    assert_eq!(type_of_expr_with_params(&k, &[], &ternary), Some(t(Qualifier::Series, ValueKind::Float)));
    let switch = Expr {
        kind: ExprKind::Switch {
            selector: Some(Box::new(name("len", 10))),
            arms: vec![
                SwitchArm { condition: Some(lit(1, 11)), result: lit(5, 12), span: span(11) },
                SwitchArm { condition: None, result: lit(6, 13), span: span(13) },
            ],
        },
        span: span(9),
    };
    assert_eq!(type_of_expr_with_params(&k, &[], &switch), Some(t(Qualifier::Simple, ValueKind::Int)));
    let call = Expr { kind: ExprKind::Call { callee: Box::new(name("f", 20)), args: Vec::new() }, span: span(21) };
    assert_eq!(type_of_expr_with_params(&k, &[], &call), None);
}
