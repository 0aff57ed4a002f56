use pine_sema::strategy_checks::{validate_strategy_declaration_args, StrategySettingArgs};
use pine_sema::strategy::{
    is_strategy_state_variable, is_supported_strategy_state_variable, strategy_exit_arg_family,
    StrategyExitArgFamily,
};
use pine_sema::strategy_checks::{
    first_named_span, validate_script_declaration_call, validate_strategy_exit_args,
    validate_strategy_state_variable, ScriptMode,
};
use pine_sema::syntax::{CallArg, Diagnostic, Expr, ExprKind, Literal, Span};

fn arg(name: Option<&str>, start: usize) -> CallArg {
    let span = Span::new(start, start + 1);
    CallArg {
        name: name.map(str::to_owned),
        value: Expr {
            kind: ExprKind::Literal(Literal::Int(1)),
            span,
        },
        span,
    }
}

fn check(args: &[CallArg]) -> Vec<Diagnostic> {
    let mut diagnostics = Vec::new();
    validate_strategy_exit_args(args, &mut diagnostics);
    diagnostics
}

fn summary(diagnostics: &[Diagnostic]) -> Vec<(String, String, usize)> {
    diagnostics
        .iter()
        .map(|d| (d.code.clone(), d.message.clone(), d.span.start))
        .collect()
}

#[test]
fn positional_stop_and_limit_form_a_supported_bracket() {
    let args = [arg(None, 0), arg(None, 10), arg(None, 20), arg(None, 30)];
    assert!(check(&args).is_empty());
}

#[test]
fn profit_with_loss_is_supported() {
    let args = [arg(None, 0), arg(Some("profit"), 10), arg(Some("loss"), 20)];
    assert!(check(&args).is_empty());
}

#[test]
fn two_downside_triggers_are_refused_at_the_first_upside_or_tick_argument() {
    let args = [arg(None, 0), arg(Some("stop"), 10), arg(Some("loss"), 20)];
    assert_eq!(
        summary(&check(&args)),
        vec![(
            "E_CALL_ARG_NAME".to_owned(),
            "`strategy.exit` combined trigger families are not supported in the current strategy subset".to_owned(),
            20
        )]
    );
}

#[test]
fn three_triggers_are_refused_at_the_named_tick_argument() {
    let args = [arg(None, 0), arg(None, 10), arg(None, 20), arg(None, 30), arg(Some("loss"), 40)];
    let diagnostics = check(&args);
    assert_eq!(diagnostics.len(), 1);
    assert_eq!(diagnostics[0].span, Span::new(40, 41));
}

#[test]
fn trailing_exit_needs_one_activation_and_an_offset() {
    let ok = [arg(None, 0), arg(Some("trail_price"), 10), arg(Some("trail_offset"), 20)];
    assert!(check(&ok).is_empty());

    let missing_offset = [arg(None, 0), arg(Some("trail_points"), 10)];
    assert_eq!(
        summary(&check(&missing_offset)),
        vec![(
            "E_CALL_ARG_NAME".to_owned(),
            "`strategy.exit` trailing exits require exactly one of `trail_price` or `trail_points` plus `trail_offset`".to_owned(),
            10
        )]
    );
}

#[test]
fn trailing_exit_cannot_be_mixed_with_fixed_triggers() {
    let args = [
        arg(None, 0),
        arg(Some("trail_price"), 10),
        arg(Some("trail_points"), 20),
        arg(Some("trail_offset"), 30),
        arg(Some("limit"), 40),
    ];
    assert_eq!(
        summary(&check(&args)),
        vec![
            (
                "E_CALL_ARG_NAME".to_owned(),
                "`strategy.exit` cannot combine trailing exits with fixed stop, limit, profit, or loss triggers in the current strategy subset".to_owned(),
                10
            ),
            (
                "E_CALL_ARG_NAME".to_owned(),
                "`strategy.exit` trailing exits require exactly one of `trail_price` or `trail_points` plus `trail_offset`".to_owned(),
                10
            ),
        ]
    );
}

#[test]
fn qty_and_qty_percent_cannot_be_combined() {
    let args = [
        arg(None, 0),
        arg(Some("stop"), 10),
        arg(Some("qty"), 20),
        arg(Some("qty_percent"), 30),
    ];
    assert_eq!(
        summary(&check(&args)),
        vec![(
            "E_CALL_ARG_NAME".to_owned(),
            "`strategy.exit` cannot combine `qty` and `qty_percent` in the current strategy subset".to_owned(),
            30
        )]
    );
}

#[test]
fn a_fifth_positional_argument_must_be_named() {
    let args = [arg(None, 0), arg(None, 10), arg(None, 20), arg(None, 30), arg(None, 40)];
    let diagnostics = check(&args);
    assert_eq!(diagnostics.len(), 1);
    assert_eq!(
        diagnostics[0].message,
        "`strategy.exit` profit and loss arguments must be named arguments"
    );
    assert_eq!(diagnostics[0].code, "E_CALL_ARG_NAME");
    assert_eq!(diagnostics[0].span, Span::new(40, 41));
}

#[test]
fn an_exit_without_triggers_is_an_arity_error() {
    let args = [arg(None, 0), arg(None, 10)];
    assert_eq!(
        summary(&check(&args)),
        vec![(
            "E_CALL_ARITY".to_owned(),
            "`strategy.exit` requires one of `stop`, `limit`, `profit`, or `loss`".to_owned(),
            0
        )]
    );
    assert!(check(&[arg(None, 0)]).is_empty());
}

#[test]
fn unsupported_options_are_reported_without_the_arity_error() {
    let args = [arg(None, 0), arg(Some("comment"), 10)];
    assert_eq!(
        summary(&check(&args)),
        vec![(
            "E_CALL_ARG_NAME".to_owned(),
            "`strategy.exit` argument `comment` is not supported in the current strategy subset".to_owned(),
            10
        )]
    );
}

#[test]
fn unknown_argument_names_are_ignored_here() {
    let args = [arg(None, 0), arg(Some("stop"), 10), arg(Some("colour"), 20)];
    assert!(check(&args).is_empty());
}

#[test]
fn first_named_span_finds_the_earliest_named_argument() {
    let args = [arg(None, 0), arg(Some("b"), 10), arg(Some("a"), 20)];
    assert_eq!(first_named_span(&args, &["a", "b"]), Some(Span::new(10, 11)));
    assert_eq!(first_named_span(&args, &["c"]), None);
}

#[test]
fn exit_argument_families() {
    assert_eq!(
        strategy_exit_arg_family("stop"),
        Some(StrategyExitArgFamily::DownsidePriceTrigger)
    );
    assert_eq!(
        strategy_exit_arg_family("trail_points"),
        Some(StrategyExitArgFamily::TrailingActivation)
    );
    assert_eq!(
        strategy_exit_arg_family("alert_message"),
        Some(StrategyExitArgFamily::UnsupportedOption)
    );
    assert_eq!(strategy_exit_arg_family("when"), None);
}

#[test]
fn strategy_state_variables() {
    assert!(is_strategy_state_variable("strategy.equity"));
    assert!(is_supported_strategy_state_variable("strategy.opentrades"));
    assert!(!is_strategy_state_variable("strategy.long"));
}

#[test]
fn the_first_top_level_declaration_is_kept() {
    let mut declaration = None;
    let mut diagnostics = Vec::new();
    assert!(validate_script_declaration_call("strategy", Span::new(0, 8), 0, 0, &mut declaration, &mut diagnostics));
    assert_eq!(declaration, Some((ScriptMode::Strategy, Span::new(0, 8))));
    assert!(!validate_script_declaration_call("indicator", Span::new(20, 29), 0, 0, &mut declaration, &mut diagnostics));
    assert_eq!(declaration, Some((ScriptMode::Strategy, Span::new(0, 8))));
    assert_eq!(
        diagnostics[0].message,
        "script already has a Strategy declaration; only one indicator(...) or strategy(...) declaration is allowed"
    );
    assert_eq!(diagnostics[0].code, "E_SCRIPT_DECL_DUPLICATE");
}

#[test]
fn nested_declarations_are_refused() {
    let mut declaration = None;
    let mut diagnostics = Vec::new();
    assert!(!validate_script_declaration_call("indicator", Span::new(4, 9), 1, 0, &mut declaration, &mut diagnostics));
    assert_eq!(declaration, None);
    assert_eq!(diagnostics[0].message, "`indicator` declarations must be top-level");
    assert_eq!(diagnostics[0].code, "E_SCRIPT_DECL_LOCATION");
    assert!(!validate_script_declaration_call("plot", Span::new(4, 9), 1, 1, &mut declaration, &mut diagnostics));
    assert_eq!(diagnostics.len(), 1);
    assert!(!validate_script_declaration_call("indicator", Span::new(0, 1), 0, 0, &mut declaration, &mut diagnostics));
    assert_eq!(declaration, Some((ScriptMode::Indicator, Span::new(0, 1))));
}

#[test]
fn strategy_state_variables_need_a_strategy_script() {
    let mut diagnostics = Vec::new();
    assert!(validate_strategy_state_variable("strategy.equity", Span::new(2, 3), None, &mut diagnostics));
    assert_eq!(
        diagnostics[0].message,
        "`strategy.equity` is only supported in scripts declared with strategy(...)"
    );
    assert!(!validate_strategy_state_variable(
        "strategy.equity",
        Span::new(2, 3),
        Some((ScriptMode::Strategy, Span::new(0, 1))),
        &mut diagnostics
    ));
    assert!(!validate_strategy_state_variable("close", Span::new(2, 3), None, &mut diagnostics));
    assert_eq!(diagnostics.len(), 1);
}

#[test]
fn strategy_declaration_settings_and_errors() {
    let span = |s: usize| pine_sema::syntax::Span::new(s, s + 1);
    let arg = |name: Option<&str>, s: usize| pine_sema::syntax::CallArg {
        name: name.map(str::to_owned),
        value: pine_sema::syntax::Expr { kind: pine_sema::syntax::ExprKind::Literal(pine_sema::syntax::Literal::Na), span: span(s) },
        span: span(s),
    };
    let args = vec![arg(None, 0), arg(None, 1), arg(None, 2), arg(None, 3), arg(None, 4), arg(None, 5), arg(None, 6)];
    let mut facts = vec![pine_sema::arg_facts::ArgFacts::unknown(); 7];
    facts[5].literal_string = Some("strategy.percent_of_equity".to_string());
    let positive = vec![None, None, None, None, Some(true), None, Some(false)];
    let mut diagnostics = Vec::new();
    let chosen = validate_strategy_declaration_args(&args, &facts, &positive, &mut diagnostics);
    assert_eq!(chosen, StrategySettingArgs { initial_capital: Some(4), default_qty_value: None });
    let messages: Vec<String> = diagnostics.iter().map(|d| d.message.clone()).collect();
    assert_eq!(
        messages,
        vec![
            "`strategy` argument `default_qty_type` only supports strategy.fixed".to_string(),
            "`strategy` argument `default_qty_value` must be positive".to_string(),
        ]
    );
    let named = vec![arg(Some("default_qty_value"), 0), arg(Some("initial_capital"), 1)];
    let mut diagnostics = Vec::new();
    let chosen = validate_strategy_declaration_args(&named, &[], &[Some(true), Some(false)], &mut diagnostics);
    assert_eq!(chosen, StrategySettingArgs { initial_capital: None, default_qty_value: Some(0) });
    assert_eq!(diagnostics[0].message, "`strategy` argument `initial_capital` must be positive");
}
