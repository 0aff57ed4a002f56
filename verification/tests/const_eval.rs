use pine_sema::const_eval::{known_const_int_value, ConstFacts};
use pine_sema::syntax::{BinaryOp, Expr, ExprKind, Literal, Span, SwitchArm, UnaryOp};

fn span(start: usize) -> Span {
    Span::new(start, start + 1)
}

fn lit(v: i64, start: usize) -> Expr {
    Expr { kind: ExprKind::Literal(Literal::Int(v)), span: span(start) }
}

fn name(n: &str, start: usize) -> Expr {
    Expr { kind: ExprKind::Identifier(n.to_string()), span: span(start) }
}

fn binary(op: BinaryOp, left: Expr, right: Expr) -> Expr {
    let s = left.span;
    Expr { kind: ExprKind::Binary { op, left: Box::new(left), right: Box::new(right) }, span: s }
}

fn facts() -> ConstFacts {
    ConstFacts { ints: vec![("length".to_string(), 14), ("big".to_string(), i64::MAX)], bools: vec![(span(50), true)], keys: vec![(span(60), 1), (span(61), 2), (span(62), 1)] }
}

#[test]
fn constant_integers_fold_with_checked_arithmetic() {
    let f = facts();
    assert_eq!(known_const_int_value(&f, &lit(5, 0)), Some(5));
    assert_eq!(known_const_int_value(&f, &name("length", 0)), Some(14));
    assert_eq!(known_const_int_value(&f, &name("other", 0)), None);
    assert_eq!(known_const_int_value(&f, &binary(BinaryOp::Mul, name("length", 0), lit(2, 1))), Some(28));
    assert_eq!(known_const_int_value(&f, &binary(BinaryOp::Sub, lit(3, 0), name("length", 1))), Some(-11));
    assert_eq!(known_const_int_value(&f, &binary(BinaryOp::Add, name("big", 0), lit(1, 1))), None);
    assert_eq!(known_const_int_value(&f, &binary(BinaryOp::Mod, lit(-7, 0), lit(3, 1))), Some(-1));
    assert_eq!(known_const_int_value(&f, &binary(BinaryOp::Mod, lit(7, 0), lit(0, 1))), None);
    assert_eq!(known_const_int_value(&f, &binary(BinaryOp::Div, lit(7, 0), lit(1, 1))), None);
    let neg = Expr { kind: ExprKind::Unary { op: UnaryOp::Minus, expr: Box::new(name("length", 1)) }, span: span(0) };
    assert_eq!(known_const_int_value(&f, &neg), Some(-14));
    let min = Expr { kind: ExprKind::Unary { op: UnaryOp::Minus, expr: Box::new(lit(i64::MIN, 1)) }, span: span(0) };
    assert_eq!(known_const_int_value(&f, &min), None);
}

#[test]
fn constant_conditionals_and_switches() {
    let f = facts();
    let known = Expr {
        kind: ExprKind::Ternary { condition: Box::new(name("c", 50)), then_expr: Box::new(lit(1, 1)), else_expr: Box::new(lit(2, 2)) },
        span: span(0),
    };
    assert_eq!(known_const_int_value(&f, &known), Some(1));
    let unknown_same = Expr {
        kind: ExprKind::Ternary { condition: Box::new(name("c", 51)), then_expr: Box::new(lit(4, 1)), else_expr: Box::new(lit(4, 2)) },
        span: span(0),
    };
    assert_eq!(known_const_int_value(&f, &unknown_same), Some(4));
    let arm = |condition: Option<Expr>, v: i64| SwitchArm { condition, result: lit(v, 90), span: span(90) };
    let keyed = Expr {
        kind: ExprKind::Switch {
            selector: Some(Box::new(name("mode", 60))),
            arms: vec![arm(Some(name("a", 61)), 10), arm(Some(name("b", 62)), 20), arm(None, 30)],
        },
        span: span(0),
    };
    assert_eq!(known_const_int_value(&f, &keyed), Some(20));
    let unknown_key = Expr {
        kind: ExprKind::Switch { selector: Some(Box::new(name("mode", 63))), arms: vec![arm(Some(name("a", 61)), 5), arm(None, 5)] },
        span: span(0),
    };
    assert_eq!(known_const_int_value(&f, &unknown_key), Some(5));
    let no_default = Expr {
        kind: ExprKind::Switch { selector: Some(Box::new(name("mode", 63))), arms: vec![arm(Some(name("a", 61)), 5)] },
        span: span(0),
    };
    assert_eq!(known_const_int_value(&f, &no_default), None);
    let conditions = Expr {
        kind: ExprKind::Switch { selector: None, arms: vec![arm(Some(name("c", 50)), 8), arm(None, 9)] },
        span: span(0),
    };
    assert_eq!(known_const_int_value(&f, &conditions), Some(8));
}
