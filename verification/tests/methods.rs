use pine_sema::imported_user_types::ImportedUserTypeInfo;
use pine_sema::compatibility::CompatibilityReport;
use pine_sema::expr_analysis::ExprKnowledge;
use pine_sema::methods::{analyze_user_method_call_with_receiver, prepare_user_method_call, MethodInfo, MethodParamInfo};
use pine_sema::statements::AnalyzerState;
use pine_sema::syntax::{CallArg, Diagnostic, Expr, ExprKind, Literal, Span, Stmt, StmtKind};
use pine_sema::types::{PineType, Qualifier, ValueKind};
use pine_sema::user_types::{SourceId, UserTypeIdentity};

fn methods() -> Vec<MethodInfo> {
    vec![MethodInfo {
        receiver_type: "Point".to_string(),
        name: "shift".to_string(),
        receiver_name: "self".to_string(),
        params: vec![
            MethodParamInfo { name: "dx".to_string(), pine_type: PineType::new(Qualifier::Series, ValueKind::Float), user_type_name: None },
            MethodParamInfo { name: "dy".to_string(), pine_type: PineType::new(Qualifier::Series, ValueKind::Float), user_type_name: None },
        ],
        span: Span::new(0, 9),
        body: vec![Stmt {
            kind: StmtKind::Expr(Expr { kind: ExprKind::Identifier("dx".to_string()), span: Span::new(40, 42) }),
            span: Span::new(40, 42),
        }],
    }]
}

fn imported() -> Vec<(String, ImportedUserTypeInfo)> {
    vec![(
        "lib.Box".to_string(),
        ImportedUserTypeInfo {
            identity: UserTypeIdentity { source_id: SourceId { index: 1 }, name: "Box".to_string() },
            fields: Vec::new(),
            span: Span::new(0, 1),
        },
    )]
}

fn arg(name: Option<&str>, start: usize) -> CallArg {
    let span = Span::new(start, start + 1);
    CallArg { name: name.map(str::to_owned), value: Expr { kind: ExprKind::Literal(Literal::Int(1)), span }, span }
}

fn run(receiver: &str, method: &str, args: &[CallArg], stack: &[&str]) -> (Option<(usize, Vec<usize>)>, Vec<Diagnostic>, usize) {
    let stack: Vec<String> = stack.iter().map(|s| s.to_string()).collect();
    let mut supported = Vec::new();
    let mut report = Vec::new();
    let mut diagnostics = Vec::new();
    let r = prepare_user_method_call(
        &methods(),
        &imported(),
        receiver,
        method,
        Span::new(30, 35),
        args,
        &stack,
        &mut supported,
        &mut report,
        &mut diagnostics,
    );
    (r, diagnostics, supported.len())
}

fn messages(d: &[Diagnostic]) -> Vec<String> {
    d.iter().map(|x| x.message.clone()).collect()
}

#[test]
fn method_calls_bind_their_arguments() {
    let (r, d, supported) = run("Point", "shift", &[arg(Some("dy"), 1), arg(Some("dx"), 3)], &[]);
    assert_eq!(r, Some((0, vec![1, 0])));
    assert!(d.is_empty());
    assert_eq!(supported, 1);
}

#[test]
fn unknown_recursive_and_imported_methods_are_reported() {
    let (r, d, _) = run("Point", "scale", &[], &[]);
    assert_eq!(r, None);
    assert_eq!(messages(&d), vec!["unknown method `scale` for `Point`".to_string()]);
    let (_, d, _) = run("lib.Box", "area", &[], &[]);
    assert_eq!(
        messages(&d),
        vec!["imported method `area` for receiver `lib.Box` is not supported; imported method dispatch requires imported UDT identity".to_string()]
    );
    assert_eq!(d[0].code, "E_IMPORT_UNSUPPORTED_METHOD");
    let (_, d, _) = run("Point", "shift", &[], &["f", "method:Point.shift"]);
    assert_eq!(messages(&d), vec!["recursive method `shift` is not supported".to_string()]);
}

#[test]
fn method_argument_errors_use_the_method_name() {
    let (r, d, supported) = run("Point", "shift", &[arg(None, 1), arg(None, 2), arg(None, 3)], &[]);
    assert_eq!(r, None);
    assert_eq!(messages(&d), vec!["`shift` expects 2 argument(s), got 3".to_string()]);
    assert_eq!(d[0].span, Span::new(3, 4));
    assert_eq!(supported, 0);
}

fn fresh_state(stack: &[&str]) -> AnalyzerState {
    AnalyzerState {
        diagnostics: Vec::new(),
        compatibility: CompatibilityReport::default(),
        block_depth: 0,
        loop_depth: 0,
        function_depth: 0,
        expr_depth: 0,
        scopes: vec![Vec::new()],
        function_stack: stack.iter().map(|s| s.to_string()).collect(),
    }
}

#[test]
fn method_bodies_give_the_result_and_restore_the_context() {
    let float = PineType::new(Qualifier::Series, ValueKind::Float);
    let known = ExprKnowledge { types: vec![(Span::new(40, 42), float)], builtins: Vec::new(), same_udt_ternaries: Vec::new(), tuples: Vec::new(), user_types: Vec::new(), udt_receivers: Vec::new(), value_user_types: Vec::new(), callables: Vec::new() };
    let mut st = fresh_state(&["f"]);
    let r = analyze_user_method_call_with_receiver(
        &mut st,
        &known,
        &methods(),
        &imported(),
        "Point",
        PineType::new(Qualifier::Series, ValueKind::Float),
        Span::new(30, 35),
        "shift",
        &[arg(None, 1), arg(None, 3)],
        &[Some(float), Some(float)],
    );
    assert_eq!(r, Some(float));
    assert!(st.diagnostics.is_empty());
    assert_eq!(st.function_stack, vec!["f".to_string()]);
    assert_eq!((st.function_depth, st.scopes.len()), (0, 1));
    assert!(st.scopes[0].is_empty());

    let mut st = fresh_state(&[]);
    let r = analyze_user_method_call_with_receiver(
        &mut st,
        &known,
        &methods(),
        &imported(),
        "Point",
        float,
        Span::new(30, 35),
        "scale",
        &[],
        &[],
    );
    assert_eq!(r, None);
    assert_eq!(messages(&st.diagnostics), vec!["unknown method `scale` for `Point`".to_string()]);
    assert_eq!(st.diagnostics[0].code, "E_UNKNOWN_METHOD");
    assert!(st.function_stack.is_empty());
}
