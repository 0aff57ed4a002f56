use pine_sema::compatibility::UnsupportedFeature;
use pine_sema::expression_checks::{expect_bool, expect_int, expect_non_zero_loop_step, validate_history_offset};
use pine_sema::syntax::{Diagnostic, Span};
use pine_sema::types::{PineType, Qualifier, ValueKind};
use pine_sema::udf_args::{report_udf_arg_error, UdfArgError};

#[test]
fn conditions_and_loop_ranges_are_typed() {
    let mut diagnostics: Vec<Diagnostic> = Vec::new();
    expect_bool(PineType::new(Qualifier::Series, ValueKind::Bool), Span::new(0, 1), &mut diagnostics);
    expect_bool(PineType::new(Qualifier::Series, ValueKind::Int), Span::new(0, 1), &mut diagnostics);
    expect_int(PineType::new(Qualifier::Const, ValueKind::Int), Span::new(2, 3), &mut diagnostics);
    expect_int(PineType::new(Qualifier::Simple, ValueKind::Float), Span::new(2, 3), &mut diagnostics);
    expect_non_zero_loop_step(Span::new(4, 5), Some(0), &mut diagnostics);
    expect_non_zero_loop_step(Span::new(4, 5), Some(-1), &mut diagnostics);
    expect_non_zero_loop_step(Span::new(4, 5), None, &mut diagnostics);
    let summary: Vec<(String, String)> = diagnostics.iter().map(|d| (d.code.clone(), d.message.clone())).collect();
    assert_eq!(
        summary,
        vec![
            ("E_CONDITION_TYPE".to_owned(), "condition must be bool, got Series Int".to_owned()),
            ("E_LOOP_RANGE_TYPE".to_owned(), "for loop range must be int, got Simple Float".to_owned()),
            ("E_LOOP_STEP".to_owned(), "for loop step cannot be zero".to_owned()),
        ]
    );
}

#[test]
fn history_offsets_must_be_non_negative_integers() {
    let mut report: Vec<UnsupportedFeature> = Vec::new();
    let mut diagnostics: Vec<Diagnostic> = Vec::new();
    let int = Some(PineType::new(Qualifier::Series, ValueKind::Int));
    validate_history_offset(Span::new(0, 1), Some(3), None, &mut report, &mut diagnostics);
    validate_history_offset(Span::new(0, 1), None, int, &mut report, &mut diagnostics);
    assert!(report.is_empty());
    validate_history_offset(Span::new(1, 2), Some(-1), None, &mut report, &mut diagnostics);
    validate_history_offset(Span::new(2, 3), None, Some(PineType::new(Qualifier::Series, ValueKind::Float)), &mut report, &mut diagnostics);
    validate_history_offset(Span::new(3, 4), None, None, &mut report, &mut diagnostics);
    let features: Vec<&str> = report.iter().map(|u| u.feature.as_str()).collect();
    assert_eq!(features, vec!["negative_history_offset", "dynamic_history_offset", "dynamic_history_offset"]);
    assert_eq!(
        diagnostics[0].message,
        "`negative_history_offset` is not supported: history offsets must be non-negative in the current supported subset"
    );
    assert_eq!(diagnostics.len(), 3);
}

#[test]
fn udf_argument_errors_are_reported() {
    let mut diagnostics: Vec<Diagnostic> = Vec::new();
    let call = Span::new(0, 20);
    report_udf_arg_error("f", call, 2, 3, UdfArgError::TooMany { span: Span::new(15, 16) }, &mut diagnostics);
    report_udf_arg_error("f", call, 2, 1, UdfArgError::Missing { param: "b".to_owned() }, &mut diagnostics);
    report_udf_arg_error("f", call, 2, 2, UdfArgError::Duplicate { name: "a".to_owned(), span: Span::new(5, 6) }, &mut diagnostics);
    report_udf_arg_error("f", call, 2, 2, UdfArgError::UnknownName { name: "z".to_owned(), span: Span::new(7, 8) }, &mut diagnostics);
    report_udf_arg_error("f", call, 2, 2, UdfArgError::PositionalAfterNamed { span: Span::new(9, 10) }, &mut diagnostics);
    let summary: Vec<(String, String, usize)> =
        diagnostics.iter().map(|d| (d.code.clone(), d.message.clone(), d.span.start)).collect();
    assert_eq!(
        summary,
        vec![
            ("E_FUNCTION_ARITY".to_owned(), "`f` expects 2 argument(s), got 3".to_owned(), 15),
            ("E_FUNCTION_ARITY".to_owned(), "`f` is missing argument `b`".to_owned(), 0),
            ("E_FUNCTION_ARG_DUPLICATE".to_owned(), "`f` argument `a` is provided more than once".to_owned(), 5),
            ("E_FUNCTION_ARG_NAME".to_owned(), "`f` has no argument named `z`".to_owned(), 7),
            (
                "E_FUNCTION_ARG_ORDER".to_owned(),
                "positional arguments cannot follow named arguments in user-defined function calls".to_owned(),
                9
            ),
        ]
    );
}
