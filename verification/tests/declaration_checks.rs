use pine_sema::requests::validate_request_security_merge_args;
use pine_sema::accepts::Accepts;
use pine_sema::alerts::validate_alert_args;
use pine_sema::arg_facts::ArgFacts;
use pine_sema::compatibility::{unsupported, UnsupportedFeature};
use pine_sema::declaration_checks::{
    validate_indicator_args, validate_label_string_arg, validate_max_bars_back_args, DrawingSettings,
};
use pine_sema::signatures::{BuiltinParam, BuiltinSignature};
use pine_sema::syntax::{CallArg, Diagnostic, Expr, ExprKind, Literal, Span};

fn arg(name: Option<&str>, start: usize) -> CallArg {
    let span = Span::new(start, start + 1);
    CallArg {
        name: name.map(str::to_owned),
        value: Expr {
            kind: ExprKind::Literal(Literal::Na),
            span,
        },
        span,
    }
}

fn param(name: &'static str) -> BuiltinParam {
    BuiltinParam {
        name,
        accepts: Accepts::StringCompatible,
        optional: true,
    }
}

fn signature(name: &'static str, params: &[&'static str]) -> BuiltinSignature {
    BuiltinSignature {
        name,
        params: params.iter().map(|p| param(p)).collect(),
        variadic: false,
    }
}

fn indicator() -> BuiltinSignature {
    signature(
        "indicator",
        &[
            "title",
            "shorttitle",
            "overlay",
            "format",
            "precision",
            "scale",
            "max_bars_back",
            "timeframe",
            "timeframe_gaps",
            "explicit_plot_zorder",
            "max_lines_count",
            "max_labels_count",
            "max_boxes_count",
        ],
    )
}

fn string_fact(value: &str) -> ArgFacts {
    let mut facts = ArgFacts::unknown();
    facts.known_string = Some(value.to_owned());
    facts.literal_string = Some(value.to_owned());
    facts
}

fn int_fact(value: i64) -> ArgFacts {
    let mut facts = ArgFacts::unknown();
    facts.known_int = Some(value);
    facts.literal_int = Some(value);
    facts
}

fn messages(diagnostics: &[Diagnostic]) -> Vec<String> {
    diagnostics.iter().map(|d| d.message.clone()).collect()
}

#[test]
fn indicator_format_and_scale_must_be_known_options() {
    let args = [arg(None, 0), arg(Some("format"), 10), arg(Some("scale"), 20)];
    let facts = [ArgFacts::unknown(), string_fact("format.money"), string_fact("scale.none")];
    let mut settings = DrawingSettings::default();
    let mut diagnostics = Vec::new();
    validate_indicator_args(&indicator(), &args, &facts, &mut settings, &mut diagnostics);
    assert_eq!(
        messages(&diagnostics),
        vec!["`indicator` argument `format` only supports format.inherit, format.price, format.percent, format.volume".to_owned()]
    );
}

#[test]
fn indicator_precision_range() {
    let args = [arg(None, 0), arg(Some("precision"), 10)];
    let mut settings = DrawingSettings::default();
    let mut diagnostics = Vec::new();
    validate_indicator_args(&indicator(), &args, &[ArgFacts::unknown(), int_fact(17)], &mut settings, &mut diagnostics);
    assert_eq!(
        messages(&diagnostics),
        vec!["`indicator` argument `precision` must be between 0 and 16".to_owned()]
    );
    let mut diagnostics = Vec::new();
    validate_indicator_args(&indicator(), &args, &[ArgFacts::unknown(), int_fact(16)], &mut settings, &mut diagnostics);
    assert!(diagnostics.is_empty());
}

#[test]
fn indicator_drawing_counts_are_checked_and_recorded() {
    let args = [
        arg(None, 0),
        arg(Some("max_boxes_count"), 10),
        arg(Some("max_lines_count"), 20),
        arg(Some("max_polylines_count"), 30),
    ];
    let facts = [ArgFacts::unknown(), int_fact(50), int_fact(501), int_fact(100)];
    let mut settings = DrawingSettings::default();
    let mut diagnostics = Vec::new();
    validate_indicator_args(&indicator(), &args, &facts, &mut settings, &mut diagnostics);
    assert_eq!(
        messages(&diagnostics),
        vec!["`indicator` argument `max_lines_count` must be between 1 and 500".to_owned()]
    );
    assert_eq!(
        settings,
        DrawingSettings {
            max_boxes_count: Some(50),
            max_lines_count: None,
            max_polylines_count: Some(100),
        }
    );
}

#[test]
fn indicator_positional_drawing_count_must_be_named() {
    let args: Vec<CallArg> = (0..13).map(|i| arg(None, i * 10)).collect();
    let mut settings = DrawingSettings::default();
    let mut diagnostics = Vec::new();
    validate_indicator_args(&indicator(), &args, &[], &mut settings, &mut diagnostics);
    assert_eq!(
        messages(&diagnostics),
        vec![
            "`indicator` argument `max_lines_count` must be named in the current subset".to_owned(),
            "`indicator` argument `max_boxes_count` must be named in the current subset".to_owned(),
        ]
    );
    assert_eq!(settings, DrawingSettings::default());
}

#[test]
fn history_bounds_must_fit_an_unsigned_32_bit_count() {
    let args = [arg(None, 0), arg(Some("max_bars_back"), 10)];
    let mut settings = DrawingSettings::default();
    let mut diagnostics = Vec::new();
    validate_indicator_args(&indicator(), &args, &[ArgFacts::unknown(), int_fact(-1)], &mut settings, &mut diagnostics);
    assert_eq!(
        messages(&diagnostics),
        vec!["`indicator` argument `max_bars_back` must be non-negative".to_owned()]
    );

    let bars_back = signature("max_bars_back", &["var", "num"]);
    let args = [arg(None, 0), arg(None, 10)];
    let mut diagnostics = Vec::new();
    validate_max_bars_back_args(&bars_back, &args, &[ArgFacts::unknown(), int_fact(4_294_967_296)], &mut diagnostics);
    assert_eq!(
        messages(&diagnostics),
        vec!["`max_bars_back` argument `num` must fit in a 32-bit unsigned history bound".to_owned()]
    );
    let mut diagnostics = Vec::new();
    validate_max_bars_back_args(&bars_back, &args, &[ArgFacts::unknown(), int_fact(4_294_967_295)], &mut diagnostics);
    assert!(diagnostics.is_empty());
}

#[test]
fn other_calls_are_not_indicator_declarations() {
    let args = [arg(Some("format"), 0)];
    let mut settings = DrawingSettings::default();
    let mut diagnostics = Vec::new();
    validate_indicator_args(&signature("plot", &["series"]), &args, &[string_fact("x")], &mut settings, &mut diagnostics);
    assert!(diagnostics.is_empty());
}

#[test]
fn label_string_options_check_positional_arguments_only_at_their_index() {
    let sig = signature("plotshape", &["series", "title", "style"]);
    let args = [arg(None, 0), arg(None, 10), arg(None, 20)];
    let facts = [ArgFacts::unknown(), ArgFacts::unknown(), string_fact("shape.star")];
    let mut diagnostics = Vec::new();
    validate_label_string_arg(&sig, &args, &facts, 2, "style", &["shape.circle", "shape.cross"], &mut diagnostics);
    assert_eq!(
        messages(&diagnostics),
        vec!["`plotshape` argument `style` only supports shape.circle, shape.cross".to_owned()]
    );
    let mut diagnostics = Vec::new();
    validate_label_string_arg(&sig, &args, &facts, 1, "style", &["shape.circle"], &mut diagnostics);
    assert!(diagnostics.is_empty());
}

#[test]
fn refusals_go_to_the_report_and_the_diagnostics() {
    let mut report: Vec<UnsupportedFeature> = Vec::new();
    let mut diagnostics = Vec::new();
    unsupported("request.seed", "seeds are not available", Span::new(3, 9), &mut report, &mut diagnostics);
    assert_eq!(report.len(), 1);
    assert_eq!(report[0].feature, "request.seed");
    assert_eq!(diagnostics[0].code, "E_UNSUPPORTED_FEATURE");
    assert_eq!(
        diagnostics[0].message,
        "`request.seed` is not supported: seeds are not available"
    );
}

#[test]
fn alert_frequency_and_placeholders() {
    let alert = signature("alert", &["message", "freq"]);
    let args = [arg(None, 0), arg(None, 10)];
    let facts = [string_fact("price {{close}}"), string_fact("alert.freq_every_tick")];
    let mut report = Vec::new();
    let mut diagnostics = Vec::new();
    validate_alert_args(&alert, &args, &facts, &mut report, &mut diagnostics);
    assert_eq!(
        messages(&diagnostics),
        vec![
            "`alert_placeholders` is not supported: alert placeholder `{{close}}` is not supported in the current alert subset".to_owned(),
            "`alert_frequency` is not supported: only alert.freq_all, alert.freq_once_per_bar, and alert.freq_once_per_bar_close are supported in the current alert frequency subset".to_owned(),
        ]
    );
    assert_eq!(report.len(), 2);

    let condition = signature("alertcondition", &["condition", "title", "message"]);
    let args = [arg(None, 0), arg(Some("title"), 10), arg(Some("message"), 20)];
    let facts = [ArgFacts::unknown(), string_fact("{{close}} up"), string_fact("{{close}} at {{plot_0}}")];
    let mut report = Vec::new();
    let mut diagnostics = Vec::new();
    validate_alert_args(&condition, &args, &facts, &mut report, &mut diagnostics);
    assert_eq!(report.len(), 2);
    assert_eq!(
        report[1].reason,
        "alert placeholder `{{plot_0}}` is not supported in the current alert subset"
    );
    assert_eq!(report[0].span, Span::new(10, 11));
}

#[test]
fn request_security_merge_arguments() {
    let security = signature("request.security", &["symbol", "timeframe", "expression", "gaps", "lookahead"]);
    let args = [arg(None, 0), arg(None, 10), arg(None, 20), arg(None, 30), arg(None, 40)];
    let facts = [
        ArgFacts::unknown(),
        ArgFacts::unknown(),
        ArgFacts::unknown(),
        string_fact("barmerge.gaps_off"),
        string_fact("barmerge.lookahead_on"),
    ];
    let mut diagnostics = Vec::new();
    assert!(!validate_request_security_merge_args(&security, &args, &facts, &mut diagnostics));
    assert_eq!(
        messages(&diagnostics),
        vec!["`request.security` argument `lookahead` only supports barmerge.lookahead_off".to_owned()]
    );
    let mut diagnostics = Vec::new();
    assert!(validate_request_security_merge_args(&security, &args[..4], &facts, &mut diagnostics));
    let named = [arg(None, 0), arg(None, 10), arg(None, 20), arg(Some("currency"), 30)];
    assert!(!validate_request_security_merge_args(&security, &named, &[], &mut diagnostics));
    assert!(diagnostics.is_empty());
}
