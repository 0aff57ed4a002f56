use pine_sema::accepts::Accepts;
use pine_sema::arg_facts::ArgFacts;
use pine_sema::call_validation::{validate_call_args, CallContext};
use pine_sema::compatibility::UnsupportedFeature;
use pine_sema::declaration_checks::DrawingSettings;
use pine_sema::signatures::{BuiltinParam, BuiltinSignature};
use pine_sema::syntax::{CallArg, Diagnostic, Expr, ExprKind, Literal, Span};
use pine_sema::types::{PineType, Qualifier, ValueKind};

fn arg(name: Option<&str>, start: usize) -> CallArg {
    let span = Span::new(start, start + 1);
    CallArg {
        name: name.map(str::to_owned),
        value: Expr {
            kind: ExprKind::Literal(Literal::Na),
            span,
        },
        span,
    }
}

fn param(name: &'static str, accepts: Accepts, optional: bool) -> BuiltinParam {
    BuiltinParam {
        name,
        accepts,
        optional,
    }
}

fn context(facts: Vec<ArgFacts>) -> CallContext {
    CallContext {
        facts,
        array_type_name: None,
        value_type_name: None,
        second_array_type_name: None,
        array_from_element_type_known: true,
        array_from_inference: None,
    }
}

fn run(
    signature: &BuiltinSignature,
    args: &[CallArg],
    arg_types: &[Option<PineType>],
    ctx: &CallContext,
) -> (Vec<Diagnostic>, Vec<UnsupportedFeature>, DrawingSettings) {
    let mut settings = DrawingSettings::default();
    let mut report = Vec::new();
    let mut diagnostics = Vec::new();
    validate_call_args(signature, args, arg_types, ctx, &mut settings, &mut report, &mut diagnostics);
    (diagnostics, report, settings)
}

fn messages(diagnostics: &[Diagnostic]) -> Vec<String> {
    diagnostics.iter().map(|d| d.message.clone()).collect()
}

#[test]
fn time_calls_use_their_own_checks() {
    let time = BuiltinSignature {
        name: "time",
        params: vec![param("timeframe", Accepts::SimpleString, false)],
        variadic: false,
    };
    let (diagnostics, _, _) = run(&time, &[], &[], &context(Vec::new()));
    assert_eq!(
        messages(&diagnostics),
        vec!["`time` expects at least 1 argument(s), got 0".to_owned()]
    );
}

#[test]
fn generic_calls_check_arity_then_types_then_values() {
    let push = BuiltinSignature {
        name: "array.push",
        params: vec![
            param("id", Accepts::Array, false),
            param("value", Accepts::MatrixElementCompatible(0), false),
        ],
        variadic: false,
    };
    let args = [arg(None, 0), arg(None, 10)];
    let arg_types = [
        Some(PineType::new(Qualifier::Series, ValueKind::IntArray)),
        Some(PineType::new(Qualifier::Series, ValueKind::String)),
    ];
    let (diagnostics, report, _) = run(&push, &args, &arg_types, &context(Vec::new()));
    assert_eq!(
        messages(&diagnostics),
        vec!["`array.push` argument `value` expects integer-compatible, got series string".to_owned()]
    );
    assert!(report.is_empty());

    let (diagnostics, _, _) = run(&push, &args[..1], &arg_types, &context(Vec::new()));
    assert_eq!(
        messages(&diagnostics),
        vec!["`array.push` expects at least 2 argument(s), got 1".to_owned()]
    );
}

#[test]
fn indicator_declarations_record_their_drawing_limits() {
    let indicator = BuiltinSignature {
        name: "indicator",
        params: vec![
            param("title", Accepts::ConstString, false),
            param("max_boxes_count", Accepts::ConstNumeric, true),
        ],
        variadic: false,
    };
    let args = [arg(None, 0), arg(Some("max_boxes_count"), 10)];
    let mut count = ArgFacts::unknown();
    count.literal_int = Some(25);
    let (diagnostics, _, settings) = run(&indicator, &args, &[], &context(vec![ArgFacts::unknown(), count]));
    assert!(diagnostics.is_empty());
    assert_eq!(settings.max_boxes_count, Some(25));
}

#[test]
fn alerts_report_refused_frequencies() {
    let alert = BuiltinSignature {
        name: "alert",
        params: vec![
            param("message", Accepts::StringCompatible, false),
            param("freq", Accepts::ConstString, true),
        ],
        variadic: false,
    };
    let args = [arg(None, 0), arg(Some("freq"), 10)];
    let (diagnostics, report, _) = run(&alert, &args, &[], &context(Vec::new()));
    assert_eq!(report.len(), 1);
    assert_eq!(report[0].feature, "alert_frequency");
    assert_eq!(diagnostics.len(), 1);
    assert_eq!(diagnostics[0].code, "E_UNSUPPORTED_FEATURE");
}

#[test]
fn drawing_constructors_skip_the_generic_checks() {
    let label = BuiltinSignature {
        name: "label.new",
        params: Vec::new(),
        variadic: false,
    };
    let args = [arg(None, 0), arg(None, 10)];
    let (diagnostics, _, _) = run(&label, &args, &[], &context(Vec::new()));
    assert!(diagnostics.is_empty());
}
