use pine_sema::compatibility::CompatibilityReport;
use pine_sema::expr_analysis::{analyze_expr, ExprKnowledge};
use pine_sema::statements::AnalyzerState;
use pine_sema::syntax::{BinaryOp, CallArg, Expr, ExprKind, Literal, Span, SwitchArm, UnaryOp};
use pine_sema::types::{PineType, Qualifier, ValueKind};

fn span(s: usize) -> Span {
    Span::new(s, s + 1)
}

fn state() -> AnalyzerState {
    AnalyzerState {
        diagnostics: Vec::new(),
        compatibility: CompatibilityReport::default(),
        block_depth: 0,
        loop_depth: 0,
        function_depth: 0,
        expr_depth: 0,
        scopes: vec![Vec::new()],
        function_stack: Vec::new(),
    }
}

fn name(n: &str, s: usize) -> Expr {
    Expr { kind: ExprKind::Identifier(n.to_string()), span: span(s) }
}

fn lit(v: i64, s: usize) -> Expr {
    Expr { kind: ExprKind::Literal(Literal::Int(v)), span: span(s) }
}

fn t(q: Qualifier, k: ValueKind) -> PineType {
    PineType::new(q, k)
}

fn known() -> ExprKnowledge {
    ExprKnowledge {
        types: vec![
            (span(1), t(Qualifier::Series, ValueKind::Float)),
            (span(2), t(Qualifier::Series, ValueKind::UserType)),
            (span(3), t(Qualifier::Series, ValueKind::UserType)),
            (span(4), t(Qualifier::Const, ValueKind::Int)),
        ],
        builtins: vec!["close".to_string()],
        same_udt_ternaries: vec![span(30)],
        tuples: Vec::new(),
        user_types: Vec::new(),
        udt_receivers: Vec::new(),
        value_user_types: Vec::new(),
        callables: Vec::new(),
    }
}

#[test]
fn names_record_supported_builtins_and_history_is_series() {
    let mut st = state();
    let k = known();
    assert_eq!(analyze_expr(&mut st, &k, &name("close", 1)), Some(t(Qualifier::Series, ValueKind::Float)));
    assert_eq!(st.compatibility.supported[0].feature, "close");
    let history = Expr { kind: ExprKind::History { expr: Box::new(name("close", 1)), offset: Box::new(lit(-1, 5)) }, span: span(6) };
    assert_eq!(analyze_expr(&mut st, &k, &history), Some(t(Qualifier::Series, ValueKind::Float)));
    assert_eq!(st.compatibility.unsupported[0].feature, "negative_history_offset");
    let udt_history = Expr { kind: ExprKind::History { expr: Box::new(name("p", 2)), offset: Box::new(lit(1, 7)) }, span: span(8) };
    assert_eq!(analyze_expr(&mut st, &k, &udt_history), None);
    assert_eq!(st.compatibility.unsupported[1].feature, "user-defined type history");
}

#[test]
fn conditionals_check_condition_and_branches() {
    let mut st = state();
    let k = known();
    let bad = Expr {
        kind: ExprKind::Ternary { condition: Box::new(name("n", 4)), then_expr: Box::new(name("p", 2)), else_expr: Box::new(name("q", 3)) },
        span: span(20),
    };
    assert_eq!(analyze_expr(&mut st, &k, &bad), None);
    let messages: Vec<String> = st.diagnostics.iter().map(|d| d.message.clone()).collect();
    assert_eq!(
        messages,
        vec![
            "condition must be bool, got Const Int".to_string(),
            "ternary user-defined type branches must resolve to the same UDT identity".to_string(),
        ]
    );
    let mut st = state();
    let good = Expr {
        kind: ExprKind::Ternary { condition: Box::new(name("n", 4)), then_expr: Box::new(name("p", 2)), else_expr: Box::new(name("q", 3)) },
        span: span(30),
    };
    assert_eq!(analyze_expr(&mut st, &k, &good), Some(t(Qualifier::Series, ValueKind::UserType)));
    let tuple = Expr { kind: ExprKind::Tuple(vec![lit(1, 40), Expr { kind: ExprKind::Literal(Literal::Color(0xff0000)), span: span(41) }]), span: span(42) };
    assert_eq!(analyze_expr(&mut st, &k, &tuple), Some(t(Qualifier::Series, ValueKind::Tuple)));
    assert!(st.compatibility.supported.iter().any(|f| f.feature == "hex color literal"));
}

#[test]
fn deep_expressions_and_nameless_callees_are_reported() {
    let mut st = state();
    st.expr_depth = 128;
    assert_eq!(analyze_expr(&mut st, &known(), &lit(1, 50)), None);
    assert_eq!(st.diagnostics[0].code, "E_SEMA_EXPR_DEPTH");
    assert_eq!(st.expr_depth, 128);
    let mut st = state();
    let call = Expr { kind: ExprKind::Call { callee: Box::new(lit(1, 51)), args: Vec::new() }, span: span(52) };
    assert_eq!(analyze_expr(&mut st, &known(), &call), None);
    assert_eq!(st.diagnostics[0].code, "E_CALL_TARGET");
    assert_eq!(st.diagnostics[0].message, "expected function name");
    assert_eq!(st.expr_depth, 0);
}

fn call(callee: &str, args: Vec<Expr>, s: usize) -> Expr {
    let args = args.into_iter().map(|value| CallArg { name: None, span: value.span, value }).collect();
    Expr { kind: ExprKind::Call { callee: Box::new(name(callee, s)), args }, span: span(s + 1) }
}

fn codes(st: &AnalyzerState) -> Vec<String> {
    st.diagnostics.iter().map(|d| d.code.clone()).collect()
}

#[test]
fn unknown_functions_are_reported_at_the_callee() {
    let mut st = state();
    assert_eq!(analyze_expr(&mut st, &known(), &call("foo", vec![], 60)), None);
    assert_eq!(codes(&st), vec!["E_UNKNOWN_FUNCTION".to_string()]);
    assert_eq!(st.diagnostics[0].message, "unknown function `foo`");
    assert_eq!(st.diagnostics[0].span, span(60));
}

#[test]
fn calls_analyze_their_arguments_and_refuse_unsupported_namespaces() {
    let mut st = state();
    let nested = call("foo", vec![], 70);
    assert_eq!(analyze_expr(&mut st, &known(), &call("log.info", vec![nested], 72)), None);
    assert_eq!(codes(&st), vec!["E_UNKNOWN_FUNCTION".to_string(), "E_UNSUPPORTED_FEATURE".to_string()]);
    assert_eq!(st.compatibility.unsupported[0].feature, "log.info");
    assert_eq!(st.compatibility.unsupported[0].span, span(72));
}

#[test]
fn builtin_and_user_function_calls_take_their_resolved_types() {
    let mut k = known();
    k.builtins.push("ta.sma".to_string());
    k.callables.push("f".to_string());
    k.types.push((span(81), t(Qualifier::Series, ValueKind::Float)));
    k.types.push((span(84), t(Qualifier::Simple, ValueKind::Int)));
    let mut st = state();
    assert_eq!(analyze_expr(&mut st, &k, &call("ta.sma", vec![name("close", 1), lit(14, 82)], 80)), Some(t(Qualifier::Series, ValueKind::Float)));
    assert_eq!(analyze_expr(&mut st, &k, &call("f", vec![], 83)), Some(t(Qualifier::Simple, ValueKind::Int)));
    assert!(st.diagnostics.is_empty());
    let features: Vec<String> = st.compatibility.supported.iter().map(|f| f.feature.clone()).collect();
    assert_eq!(features, vec!["close".to_string(), "ta.sma".to_string()]);
}

#[test]
fn operators_type_their_operands() {
    let k = known();
    let mut st = state();
    let sum = Expr { kind: ExprKind::Binary { op: BinaryOp::Add, left: Box::new(lit(1, 90)), right: Box::new(name("close", 1)) }, span: span(91) };
    assert_eq!(analyze_expr(&mut st, &k, &sum), Some(t(Qualifier::Series, ValueKind::Float)));
    let ints = Expr { kind: ExprKind::Binary { op: BinaryOp::Mul, left: Box::new(lit(2, 92)), right: Box::new(lit(3, 93)) }, span: span(94) };
    assert_eq!(analyze_expr(&mut st, &k, &ints), Some(t(Qualifier::Const, ValueKind::Int)));
    let ratio = Expr { kind: ExprKind::Binary { op: BinaryOp::Div, left: Box::new(lit(2, 92)), right: Box::new(lit(3, 93)) }, span: span(95) };
    assert_eq!(analyze_expr(&mut st, &k, &ratio), Some(t(Qualifier::Const, ValueKind::Float)));
    let cmp = Expr { kind: ExprKind::Binary { op: BinaryOp::Lt, left: Box::new(lit(2, 92)), right: Box::new(name("close", 1)) }, span: span(96) };
    assert_eq!(analyze_expr(&mut st, &k, &cmp), Some(t(Qualifier::Series, ValueKind::Bool)));
    assert!(st.diagnostics.is_empty());
    let bad = Expr { kind: ExprKind::Binary { op: BinaryOp::And, left: Box::new(lit(2, 92)), right: Box::new(lit(3, 93)) }, span: span(97) };
    assert_eq!(analyze_expr(&mut st, &k, &bad), None);
    assert_eq!(st.diagnostics[0].message, "operator And does not accept Const Int and Const Int");
    assert_eq!(st.diagnostics[0].span, span(97));
    let neg = Expr { kind: ExprKind::Unary { op: UnaryOp::Not, expr: Box::new(lit(2, 98)) }, span: span(99) };
    assert_eq!(analyze_expr(&mut st, &k, &neg), None);
    assert_eq!(st.diagnostics[1].message, "operator Not does not accept Const Int");
    assert_eq!(st.diagnostics[1].span, span(98));
}

fn arm(condition: Option<Expr>, result: Expr) -> SwitchArm {
    let span = result.span;
    SwitchArm { condition, result, span }
}

fn text(v: &str, s: usize) -> Expr {
    Expr { kind: ExprKind::Literal(Literal::Str(v.to_string())), span: span(s) }
}

#[test]
fn switches_merge_their_arms() {
    let mut k = known();
    k.types.push((span(100), t(Qualifier::Series, ValueKind::Bool)));
    let mut st = state();
    let switch = Expr {
        kind: ExprKind::Switch { selector: None, arms: vec![arm(Some(name("up", 100)), lit(1, 101)), arm(None, lit(2, 102))] },
        span: span(103),
    };
    assert_eq!(analyze_expr(&mut st, &k, &switch), Some(t(Qualifier::Series, ValueKind::Int)));
    assert!(st.diagnostics.is_empty());
    assert!(st.compatibility.supported.iter().any(|f| f.feature == "switch"));

    let mut st = state();
    let mixed = Expr {
        kind: ExprKind::Switch { selector: None, arms: vec![arm(Some(lit(1, 104)), lit(1, 105)), arm(None, text("a", 106))] },
        span: span(107),
    };
    assert_eq!(analyze_expr(&mut st, &k, &mixed), None);
    let messages: Vec<String> = st.diagnostics.iter().map(|d| d.message.clone()).collect();
    assert_eq!(
        messages,
        vec!["condition must be bool, got Const Int".to_string(), "switch arms have incompatible types Int and String".to_string()]
    );
    assert_eq!(st.diagnostics[1].span, span(107));

    let mut st = state();
    let selected = Expr {
        kind: ExprKind::Switch { selector: Some(Box::new(lit(3, 108))), arms: vec![arm(Some(lit(1, 109)), lit(1, 110))] },
        span: span(111),
    };
    assert_eq!(analyze_expr(&mut st, &k, &selected), Some(t(Qualifier::Const, ValueKind::Int)));
    assert!(st.diagnostics.is_empty());
}

fn qualified(parts: &[&str], s: usize) -> Expr {
    Expr { kind: ExprKind::QualifiedName(parts.iter().map(|p| p.to_string()).collect()), span: span(s) }
}

#[test]
fn qualified_names_are_builtins_fields_or_reported() {
    let mut k = known();
    k.builtins.push("color.teal".to_string());
    k.types.push((span(120), t(Qualifier::Const, ValueKind::Color)));
    k.types.push((span(121), t(Qualifier::Series, ValueKind::Float)));
    let mut st = state();
    assert_eq!(analyze_expr(&mut st, &k, &qualified(&["color", "teal"], 120)), Some(t(Qualifier::Const, ValueKind::Color)));
    assert_eq!(analyze_expr(&mut st, &k, &qualified(&["pt", "price"], 121)), Some(t(Qualifier::Series, ValueKind::Float)));
    let features: Vec<String> = st.compatibility.supported.iter().map(|f| f.feature.clone()).collect();
    assert_eq!(features, vec!["color.teal".to_string()]);
    assert!(st.diagnostics.is_empty());
    assert_eq!(analyze_expr(&mut st, &k, &qualified(&["color", "nope"], 122)), None);
    assert_eq!(st.diagnostics[0].code, "E_UNKNOWN_COLOR");
    assert_eq!(st.diagnostics[0].message, "unknown named color `color.nope`");
    assert_eq!(analyze_expr(&mut st, &k, &qualified(&["log", "info"], 123)), None);
    assert_eq!(st.compatibility.unsupported[0].feature, "log.info");
    assert_eq!(st.compatibility.unsupported[0].span, span(123));
}
