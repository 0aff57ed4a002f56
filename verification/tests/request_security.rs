use pine_sema::accepts::Accepts;
use pine_sema::arg_facts::ArgFacts;
use pine_sema::call_validation::CallContext;
use pine_sema::compatibility::{FeatureUse, UnsupportedFeature};
use pine_sema::declaration_checks::DrawingSettings;
use pine_sema::request_expressions::{
    request_expression_call_name, request_expression_is_provider_scalar,
    request_expression_is_provider_tuple_value, request_expression_is_pure_scalar,
    request_expression_is_same_context_value,
};
use pine_sema::request_security::{
    analyze_bound_legacy_security, analyze_request_call, RequestFacts,
    LEGACY_SECURITY_UNSUPPORTED_REASON, REQUEST_SECURITY_LOWER_TF_UNSUPPORTED_REASON,
    REQUEST_SECURITY_UNSUPPORTED_REASON,
};
use pine_sema::signatures::{BuiltinParam, BuiltinSignature};
use pine_sema::syntax::{CallArg, Diagnostic, Expr, ExprKind, Literal, Span};
use pine_sema::types::{PineType, Qualifier, ValueKind};

fn span(start: usize) -> Span {
    Span::new(start, start + 1)
}

fn ident(name: &str, start: usize) -> Expr {
    Expr { kind: ExprKind::Identifier(name.to_string()), span: span(start) }
}

fn qualified(name: &str, start: usize) -> Expr {
    Expr {
        kind: ExprKind::QualifiedName(name.split('.').map(str::to_owned).collect()),
        span: span(start),
    }
}

fn string(value: &str, start: usize) -> Expr {
    Expr { kind: ExprKind::Literal(Literal::Str(value.to_string())), span: span(start) }
}

fn number(value: i64, start: usize) -> Expr {
    Expr { kind: ExprKind::Literal(Literal::Int(value)), span: span(start) }
}

fn positional(value: Expr) -> CallArg {
    let span = value.span;
    CallArg { name: None, value, span }
}

fn named(name: &str, value: Expr) -> CallArg {
    let span = value.span;
    CallArg { name: Some(name.to_string()), value, span }
}

fn call(callee: Expr, args: Vec<CallArg>) -> Expr {
    let span = callee.span;
    Expr { kind: ExprKind::Call { callee: Box::new(callee), args }, span }
}

fn tuple(items: Vec<Expr>, start: usize) -> Expr {
    Expr { kind: ExprKind::Tuple(items), span: span(start) }
}

fn param(name: &'static str, accepts: Accepts, optional: bool) -> BuiltinParam {
    BuiltinParam { name, accepts, optional }
}

fn security_signature() -> BuiltinSignature {
    BuiltinSignature {
        name: "request.security",
        params: vec![
            param("symbol", Accepts::StringCompatible, false),
            param("timeframe", Accepts::StringCompatible, false),
            param("expression", Accepts::SeriesFloat, false),
            param("gaps", Accepts::StringCompatible, true),
            param("lookahead", Accepts::StringCompatible, true),
        ],
        variadic: false,
    }
}

fn context(n: usize) -> CallContext {
    CallContext {
        facts: (0..n).map(|_| ArgFacts::unknown()).collect(),
        array_type_name: None,
        value_type_name: None,
        second_array_type_name: None,
        array_from_element_type_known: true,
        array_from_inference: None,
    }
}

fn no_facts() -> RequestFacts {
    RequestFacts { renames: Vec::new(), legacy_provider_scalar: false, legacy_provider_tuple: false }
}

fn series_float() -> Option<PineType> {
    Some(PineType::new(Qualifier::Series, ValueKind::Float))
}

struct Outcome {
    result: Option<PineType>,
    supported: Vec<FeatureUse>,
    report: Vec<UnsupportedFeature>,
    diagnostics: Vec<Diagnostic>,
}

fn request(name: &str, args: &[CallArg], arg_types: &[Option<PineType>]) -> Outcome {
    let mut settings = DrawingSettings::default();
    let mut supported = Vec::new();
    let mut report = Vec::new();
    let mut diagnostics = Vec::new();
    let result = analyze_request_call(
        name,
        &security_signature(),
        span(0),
        args,
        arg_types,
        &context(args.len()),
        &no_facts(),
        &mut settings,
        &mut supported,
        &mut report,
        &mut diagnostics,
    );
    Outcome { result, supported, report, diagnostics }
}

fn reasons(report: &[UnsupportedFeature]) -> Vec<(String, String)> {
    report.iter().map(|u| (u.feature.clone(), u.reason.clone())).collect()
}

#[test]
fn same_context_request_is_supported_and_series() {
    let args = vec![
        positional(qualified("syminfo.tickerid", 1)),
        positional(qualified("timeframe.period", 2)),
        positional(ident("close", 3)),
    ];
    let outcome = request(
        "request.security",
        &args,
        &[None, None, series_float()],
    );
    assert_eq!(outcome.result, series_float());
    assert_eq!(outcome.supported.len(), 1);
    assert_eq!(outcome.supported[0].feature, "request.security");
    assert!(outcome.report.is_empty());
    assert!(outcome.diagnostics.is_empty());
}

#[test]
fn same_context_request_refuses_strategy_state() {
    let args = vec![
        positional(qualified("syminfo.tickerid", 1)),
        positional(qualified("timeframe.period", 2)),
        positional(qualified("strategy.position_size", 3)),
    ];
    let outcome = request("request.security", &args, &[None, None, series_float()]);
    assert_eq!(outcome.result, series_float());
    assert_eq!(
        reasons(&outcome.report),
        vec![("request.security".to_string(), REQUEST_SECURITY_UNSUPPORTED_REASON.to_string())]
    );
    assert_eq!(outcome.diagnostics.len(), 1);
    assert_eq!(outcome.diagnostics[0].code, "E_UNSUPPORTED_FEATURE");
}

#[test]
fn provider_request_reads_provider_series() {
    let args = vec![
        positional(string("NASDAQ:AAPL", 1)),
        positional(string("D", 2)),
        positional(call(qualified("ta.sma", 3), vec![positional(ident("close", 4)), positional(number(14, 5))])),
    ];
    let outcome = request("request.security", &args, &[None, None, series_float()]);
    assert_eq!(outcome.result, series_float());
    assert!(outcome.report.is_empty());
}

#[test]
fn provider_request_refuses_local_names_and_blank_symbols() {
    let local = vec![
        positional(string("NASDAQ:AAPL", 1)),
        positional(string("D", 2)),
        positional(ident("my_value", 3)),
    ];
    assert_eq!(request("request.security", &local, &[None, None, series_float()]).report.len(), 1);
    let blank = vec![
        positional(string(" \t", 1)),
        positional(qualified("timeframe.period", 2)),
        positional(ident("close", 3)),
    ];
    assert_eq!(request("request.security", &blank, &[None, None, series_float()]).report.len(), 1);
}

#[test]
fn named_leading_arguments_are_reported() {
    let args = vec![
        named("symbol", qualified("syminfo.tickerid", 1)),
        positional(qualified("timeframe.period", 2)),
        positional(ident("close", 3)),
    ];
    let outcome = request("request.security", &args, &[None, None, series_float()]);
    let codes: Vec<String> = outcome.diagnostics.iter().map(|d| d.code.clone()).collect();
    assert_eq!(codes, vec!["E_CALL_ARG_NAME".to_string(), "E_UNSUPPORTED_FEATURE".to_string()]);
    assert_eq!(outcome.report.len(), 1);
}

#[test]
fn too_few_arguments_give_no_type() {
    let args = vec![positional(qualified("syminfo.tickerid", 1)), positional(qualified("timeframe.period", 2))];
    let outcome = request("request.security", &args, &[None, None]);
    assert_eq!(outcome.result, None);
    assert_eq!(outcome.report.len(), 1);
}

#[test]
fn other_request_functions_are_refused() {
    let lower = request("request.security_lower_tf", &[], &[]);
    assert_eq!(lower.result, None);
    assert!(lower.supported.is_empty());
    assert_eq!(
        reasons(&lower.report),
        vec![(
            "request.security_lower_tf".to_string(),
            REQUEST_SECURITY_LOWER_TF_UNSUPPORTED_REASON.to_string()
        )]
    );
    let other = request("request.financial", &[], &[]);
    assert_eq!(
        reasons(&other.report),
        vec![(
            "request.financial".to_string(),
            "this request function is outside the supported request.security subset".to_string()
        )]
    );
    assert_eq!(
        other.diagnostics[0].message,
        "`request.financial` is not supported: this request function is outside the supported request.security subset"
    );
}

#[test]
fn legacy_security_accepts_legacy_chart_names() {
    let args = vec![
        positional(ident("tickerid", 1)),
        positional(ident("period", 2)),
        positional(ident("close", 3)),
    ];
    let mut settings = DrawingSettings::default();
    let mut supported = Vec::new();
    let mut report = Vec::new();
    let mut diagnostics = Vec::new();
    let result = analyze_bound_legacy_security(
        &security_signature(),
        span(0),
        &args,
        &[None, None, series_float()],
        &context(3),
        &no_facts(),
        &mut settings,
        &mut supported,
        &mut report,
        &mut diagnostics,
    );
    assert_eq!(result, series_float());
    assert_eq!(supported[0].feature, "security");
    assert!(report.is_empty());
}

#[test]
fn legacy_security_uses_legacy_provider_verdict() {
    let args = vec![
        positional(ident("sym", 1)),
        positional(string("D", 2)),
        positional(ident("value", 3)),
    ];
    let types = [Some(PineType::new(Qualifier::Simple, ValueKind::String)), None, series_float()];
    let mut settings = DrawingSettings::default();
    let mut supported = Vec::new();
    let mut report = Vec::new();
    let mut diagnostics = Vec::new();
    analyze_bound_legacy_security(
        &security_signature(),
        span(0),
        &args,
        &types,
        &context(3),
        &no_facts(),
        &mut settings,
        &mut supported,
        &mut report,
        &mut diagnostics,
    );
    assert_eq!(
        reasons(&report),
        vec![("security".to_string(), LEGACY_SECURITY_UNSUPPORTED_REASON.to_string())]
    );
    let accepted = RequestFacts { renames: Vec::new(), legacy_provider_scalar: true, legacy_provider_tuple: false };
    let mut report = Vec::new();
    analyze_bound_legacy_security(
        &security_signature(),
        span(0),
        &args,
        &types,
        &context(3),
        &accepted,
        &mut settings,
        &mut supported,
        &mut report,
        &mut diagnostics,
    );
    assert!(report.is_empty());
}

#[test]
fn requested_expression_classification() {
    let none: Vec<(Span, String)> = Vec::new();
    let sum = call(qualified("math.max", 1), vec![positional(ident("close", 2)), positional(ident("open", 3))]);
    assert!(request_expression_is_pure_scalar(&sum, &none));
    assert!(request_expression_is_provider_scalar(&sum, &none));
    let named_arg = call(qualified("ta.sma", 1), vec![positional(ident("close", 2)), named("length", number(3, 3))]);
    assert!(!request_expression_is_pure_scalar(&named_arg, &none));
    let pair = tuple(vec![ident("close", 1), ident("x", 2)], 0);
    assert!(!request_expression_is_pure_scalar(&pair, &none));
    assert!(request_expression_is_same_context_value(&pair, &none));
    assert!(!request_expression_is_provider_tuple_value(&pair, &none));
    let provider_pair = tuple(vec![ident("close", 1), ident("open", 2)], 0);
    assert!(request_expression_is_provider_tuple_value(&provider_pair, &none));
    let macd = call(
        qualified("ta.macd", 1),
        vec![positional(ident("close", 2)), positional(number(12, 3)), positional(number(26, 4)), positional(number(9, 5))],
    );
    assert!(request_expression_is_provider_tuple_value(&macd, &none));
    assert!(!request_expression_is_provider_scalar(&macd, &none));
}

#[test]
fn legacy_call_names_are_resolved_by_callee_span() {
    let renames = vec![(span(1), "ta.sma".to_string())];
    let legacy_call = call(ident("sma", 1), vec![positional(ident("close", 2)), positional(number(5, 3))]);
    assert_eq!(request_expression_call_name(&ident("sma", 1), &renames), Some("ta.sma".to_string()));
    assert_eq!(request_expression_call_name(&ident("sma", 7), &renames), Some("sma".to_string()));
    assert!(request_expression_is_provider_scalar(&legacy_call, &renames));
    assert!(!request_expression_is_provider_scalar(&legacy_call, &[]));
    assert_eq!(request_expression_call_name(&number(1, 1), &renames), None);
}
