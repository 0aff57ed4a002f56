use pine_sema::drawing::{label_new_scalar_params, line_new_scalar_params};
use pine_sema::arg_facts::ArgFacts;
use pine_sema::drawing_checks::{
    validate_box_new_args, validate_label_new_args, validate_label_new_overload,
    validate_line_new_args,
};
use pine_sema::signatures::BuiltinSignature;
use pine_sema::syntax::{CallArg, Diagnostic, Expr, ExprKind, Literal, Span};
use pine_sema::types::{PineType, Qualifier, ValueKind};

fn arg(name: Option<&str>, start: usize) -> CallArg {
    let span = Span::new(start, start + 1);
    CallArg {
        name: name.map(str::to_owned),
        value: Expr {
            kind: ExprKind::Literal(Literal::Na),
            span,
        },
        span,
    }
}

fn signature(name: &'static str) -> BuiltinSignature {
    BuiltinSignature {
        name,
        params: Vec::new(),
        variadic: false,
    }
}

fn known_string(value: &str) -> ArgFacts {
    ArgFacts {
        known_string: Some(value.to_owned()),
        known_string_domain: Some(vec![value.to_owned()]),
        known_int: None,
        known_strict_int: None,
        literal_string: Some(value.to_owned()),
        literal_int: None,
    }
}

fn known_int(value: Result<i64, ()>) -> ArgFacts {
    ArgFacts {
        known_string: None,
        known_string_domain: None,
        known_int: None,
        known_strict_int: Some(value),
        literal_string: None,
        literal_int: None,
    }
}

fn series(kind: ValueKind) -> Option<PineType> {
    Some(PineType::new(Qualifier::Series, kind))
}

fn messages(diagnostics: &[Diagnostic]) -> Vec<String> {
    diagnostics.iter().map(|d| d.message.clone()).collect()
}

#[test]
fn label_new_with_too_few_arguments_stops_at_arity() {
    let mut diagnostics = Vec::new();
    let args = [arg(Some("text"), 5)];
    assert!(validate_label_new_args(&signature("label.new"), &args, &[], &[], &mut diagnostics));
    assert_eq!(
        messages(&diagnostics),
        vec!["`label.new` expects at least 2 argument(s), got 1".to_owned()]
    );
    assert_eq!(diagnostics[0].code, "E_CALL_ARITY");
    assert_eq!(diagnostics[0].span, Span::new(5, 6));
}

#[test]
fn label_new_checks_types_names_and_option_values() {
    let mut diagnostics = Vec::new();
    let args = [
        arg(None, 0),
        arg(None, 10),
        arg(Some("xloc"), 20),
        arg(Some("textalign"), 30),
        arg(Some("colour"), 40),
    ];
    let arg_types = [series(ValueKind::String), series(ValueKind::Float)];
    let facts = [
        ArgFacts::unknown(),
        ArgFacts::unknown(),
        known_string("xloc.bar_time"),
        known_string("text.align_middle"),
        ArgFacts::unknown(),
    ];
    validate_label_new_args(
        &signature("label.new"),
        &args,
        &arg_types,
        &facts,
        &mut diagnostics,
    );
    assert_eq!(
        messages(&diagnostics),
        vec![
            "`label.new` argument `x` expects integer-compatible, got series string".to_owned(),
            "`label.new` has no argument named `colour`".to_owned(),
            "`label.new` argument `textalign` only supports text.align_left, text.align_center, text.align_right".to_owned(),
        ]
    );
    assert_eq!(diagnostics[2].code, "E_CALL_ARG_VALUE");
    assert_eq!(diagnostics[2].span, Span::new(30, 31));
}

#[test]
fn label_new_style_accepts_a_proven_series_of_supported_values() {
    let mut diagnostics = Vec::new();
    let args = [arg(None, 0), arg(None, 10), arg(Some("style"), 20)];
    let facts = [
        ArgFacts::unknown(),
        ArgFacts::unknown(),
        ArgFacts {
            known_string: None,
            known_string_domain: Some(vec![
                "label.style_none".to_owned(),
                "label.style_flag".to_owned(),
            ]),
            known_int: None,
            known_strict_int: None,
            literal_string: None,
            literal_int: None,
        },
    ];
    validate_label_new_args(&signature("label.new"), &args, &[], &facts, &mut diagnostics);
    assert!(diagnostics.is_empty());

    let facts = [
        ArgFacts::unknown(),
        ArgFacts::unknown(),
        ArgFacts {
            known_string: None,
            known_string_domain: Some(vec![
                "label.style_none".to_owned(),
                "label.style_banner".to_owned(),
            ]),
            known_int: None,
            known_strict_int: None,
            literal_string: None,
            literal_int: None,
        },
    ];
    validate_label_new_args(&signature("label.new"), &args, &[], &facts, &mut diagnostics);
    assert_eq!(diagnostics.len(), 1);
    assert!(diagnostics[0]
        .message
        .starts_with("`label.new` argument `style` only supports label.style_label_down, "));
}

#[test]
fn label_new_size_and_text_formatting_values() {
    let mut diagnostics = Vec::new();
    let args = [
        arg(None, 0),
        arg(None, 10),
        arg(Some("size"), 20),
        arg(Some("text_formatting"), 30),
    ];
    let facts = [
        ArgFacts::unknown(),
        ArgFacts::unknown(),
        known_string("size.giant"),
        known_int(Ok(4)),
    ];
    validate_label_new_args(&signature("label.new"), &args, &[], &facts, &mut diagnostics);
    assert_eq!(
        messages(&diagnostics),
        vec![
            "`label.new` argument `size` only supports size.auto, size.tiny, size.small, size.normal, size.large, size.huge or int sizes".to_owned(),
            "`label.new` argument `text_formatting` only supports text.format_none, text.format_bold, text.format_italic, or text.format_bold + text.format_italic".to_owned(),
        ]
    );

    let mut diagnostics = Vec::new();
    let facts = [
        ArgFacts::unknown(),
        ArgFacts::unknown(),
        known_string("size.huge"),
        known_int(Ok(3)),
    ];
    validate_label_new_args(&signature("label.new"), &args, &[], &facts, &mut diagnostics);
    assert!(diagnostics.is_empty());

    let facts = [
        ArgFacts::unknown(),
        ArgFacts::unknown(),
        ArgFacts::unknown(),
        known_int(Err(())),
    ];
    validate_label_new_args(&signature("label.new"), &args, &[], &facts, &mut diagnostics);
    assert_eq!(diagnostics.len(), 1);
}

#[test]
fn label_new_with_too_many_arguments_points_past_the_last_parameter() {
    let params = label_new_scalar_params();
    let args: Vec<CallArg> = (0..15).map(|i| arg(None, i * 10)).collect();
    let mut diagnostics = Vec::new();
    validate_label_new_overload(&args, &[], &params, &[], &mut diagnostics);
    assert_eq!(
        diagnostics[0].message,
        "`label.new` expects at most 14 argument(s), got 15"
    );
    assert_eq!(diagnostics[0].span, Span::new(140, 141));
}

#[test]
fn label_new_point_overload_is_chosen_by_a_chart_point() {
    let mut diagnostics = Vec::new();
    let args = [arg(None, 0), arg(Some("x"), 10)];
    validate_label_new_args(
        &signature("label.new"),
        &args,
        &[series(ValueKind::ChartPoint)],
        &[],
        &mut diagnostics,
    );
    assert_eq!(
        messages(&diagnostics),
        vec!["`label.new` has no argument named `x`".to_owned()]
    );
}

#[test]
fn line_new_requires_known_extend_and_style_values() {
    let mut diagnostics = Vec::new();
    let args = [
        arg(None, 0),
        arg(None, 10),
        arg(None, 20),
        arg(None, 30),
        arg(Some("extend"), 40),
    ];
    assert!(validate_line_new_args(&signature("line.new"), &args, &[], &[], &mut diagnostics));
    assert_eq!(
        messages(&diagnostics),
        vec!["`line.new` argument `extend` only supports extend.none, extend.right, extend.left, extend.both".to_owned()]
    );
    assert_eq!(line_new_scalar_params().len(), 10);
}

#[test]
fn box_new_checks_its_string_options() {
    let mut diagnostics = Vec::new();
    let args = [
        arg(None, 0),
        arg(None, 10),
        arg(None, 20),
        arg(None, 30),
        arg(Some("border_style"), 40),
        arg(Some("text_wrap"), 50),
    ];
    let facts = [
        ArgFacts::unknown(),
        ArgFacts::unknown(),
        ArgFacts::unknown(),
        ArgFacts::unknown(),
        known_string("line.style_dotted"),
        known_string("text.wrap_word"),
    ];
    assert!(validate_box_new_args(&signature("box.new"), &args, &[], &facts, &mut diagnostics));
    assert_eq!(
        messages(&diagnostics),
        vec!["`box.new` argument `text_wrap` only supports text.wrap_none, text.wrap_auto".to_owned()]
    );
}

#[test]
fn other_builtins_are_not_drawing_constructors() {
    let mut diagnostics = Vec::new();
    let args = [arg(None, 0)];
    assert!(!validate_label_new_args(&signature("plot"), &args, &[], &[], &mut diagnostics));
    assert!(!validate_line_new_args(&signature("label.new"), &args, &[], &[], &mut diagnostics));
    assert!(!validate_box_new_args(&signature("line.new"), &args, &[], &[], &mut diagnostics));
    assert!(diagnostics.is_empty());
}
