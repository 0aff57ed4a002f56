use pine_sema::functions::{register_functions, FunctionInfo};
use pine_sema::syntax::{CallArg, Diagnostic, Expr, ExprKind, Literal, Span, Stmt, StmtKind};
use pine_sema::udf_args::prepare_udf_call;

fn strings(names: &[&str]) -> Vec<String> {
    names.iter().map(|n| n.to_string()).collect()
}

fn function(name: &str, params: &[&str], start: usize) -> Stmt {
    Stmt {
        kind: StmtKind::Function { name: name.to_string(), params: strings(params), body: Vec::new() },
        span: Span::new(start, start + 5),
    }
}

fn messages(diagnostics: &[Diagnostic]) -> Vec<String> {
    diagnostics.iter().map(|d| d.message.clone()).collect()
}

fn literal(start: usize) -> Expr {
    Expr { kind: ExprKind::Literal(Literal::Int(1)), span: Span::new(start, start + 1) }
}

fn positional(value: Expr) -> CallArg {
    let span = value.span;
    CallArg { name: None, value, span }
}

fn named(name: &str, value: Expr) -> CallArg {
    let span = value.span;
    CallArg { name: Some(name.to_string()), value, span }
}

fn plot_call(start: usize) -> Expr {
    let callee = Expr { kind: ExprKind::Identifier("plot".to_string()), span: Span::new(start, start + 4) };
    Expr {
        kind: ExprKind::Call { callee: Box::new(callee), args: vec![positional(literal(start + 5))] },
        span: Span::new(start, start + 7),
    }
}

#[test]
fn functions_register_in_order_with_their_statement() {
    let statements = vec![
        function("f", &["a", "b"], 0),
        Stmt { kind: StmtKind::Break, span: Span::new(6, 7) },
        function("g", &[], 8),
    ];
    let mut functions: Vec<FunctionInfo> = Vec::new();
    let mut diagnostics = Vec::new();
    register_functions(&statements, &strings(&["close"]), &mut functions, &mut diagnostics);
    assert!(diagnostics.is_empty());
    assert_eq!(functions.len(), 2);
    assert_eq!(functions[0].name, "f");
    assert_eq!(functions[0].params, strings(&["a", "b"]));
    assert_eq!(functions[1].statement, 2);
    assert_eq!(functions[1].span, Span::new(8, 13));
}

#[test]
fn function_registration_refusals() {
    let statements = vec![
        function("f", &["a"], 0),
        function("f", &[], 10),
        function("close", &[], 20),
        function("h", &["x", "x"], 30),
    ];
    let mut functions: Vec<FunctionInfo> = Vec::new();
    let mut diagnostics = Vec::new();
    register_functions(&statements, &strings(&["close"]), &mut functions, &mut diagnostics);
    assert_eq!(functions.len(), 1);
    assert_eq!(
        messages(&diagnostics),
        vec![
            "function `f` is already defined".to_string(),
            "function `close` conflicts with an existing symbol".to_string(),
            "function `h` has duplicate parameter names".to_string(),
        ]
    );
    let codes: Vec<String> = diagnostics.iter().map(|d| d.code.clone()).collect();
    assert_eq!(codes, strings(&["E_FUNCTION_DUPLICATE", "E_FUNCTION_NAME", "E_FUNCTION_PARAM"]));
    assert_eq!(diagnostics[0].span, Span::new(10, 15));
}

struct Prepared {
    result: Option<Vec<usize>>,
    supported: usize,
    report: Vec<(String, Span)>,
    diagnostics: Vec<Diagnostic>,
}

fn prepare(args: &[CallArg], stack: &[&str]) -> Prepared {
    let mut supported = Vec::new();
    let mut report = Vec::new();
    let mut diagnostics = Vec::new();
    let result = prepare_udf_call(
        "f",
        Span::new(50, 51),
        Span::new(0, 5),
        &strings(&["a", "b"]),
        args,
        &strings(stack),
        &mut supported,
        &mut report,
        &mut diagnostics,
    );
    Prepared {
        result,
        supported: supported.len(),
        report: report.iter().map(|u| (u.feature.clone(), u.span)).collect(),
        diagnostics,
    }
}

#[test]
fn udf_calls_bind_arguments_to_parameters() {
    let bound = prepare(&[named("b", literal(1)), named("a", literal(3))], &["g"]);
    assert_eq!(bound.result, Some(vec![1, 0]));
    assert_eq!(bound.supported, 1);
    assert!(bound.diagnostics.is_empty());
}

#[test]
fn recursive_and_deep_udf_calls_are_refused() {
    let recursive = prepare(&[positional(literal(1))], &["g", "f"]);
    assert_eq!(recursive.result, None);
    assert_eq!(messages(&recursive.diagnostics), vec!["recursive function `f` is not supported".to_string()]);
    let deep: Vec<String> = (0..64).map(|i| format!("g{i}")).collect();
    let deep: Vec<&str> = deep.iter().map(String::as_str).collect();
    let too_deep = prepare(&[positional(literal(1))], &deep);
    assert_eq!(messages(&too_deep.diagnostics), vec!["user-defined function call chain is too deep".to_string()]);
    assert_eq!(too_deep.supported, 0);
}

#[test]
fn side_effecting_arguments_are_refused_but_bound() {
    let outcome = prepare(&[positional(plot_call(10)), positional(literal(20))], &[]);
    assert_eq!(outcome.result, Some(vec![0, 1]));
    assert_eq!(outcome.report, vec![("function_side_effect".to_string(), Span::new(10, 17))]);
    assert_eq!(
        messages(&outcome.diagnostics),
        vec!["`function_side_effect` is not supported: side-effecting calls cannot be passed as user-defined function arguments".to_string()]
    );
}

#[test]
fn udf_call_argument_errors_stop_the_call() {
    let outcome = prepare(&[positional(literal(1)), positional(literal(2)), positional(literal(3))], &[]);
    assert_eq!(outcome.result, None);
    assert_eq!(messages(&outcome.diagnostics), vec!["`f` expects 2 argument(s), got 3".to_string()]);
    assert_eq!(outcome.supported, 0);
}
