use pine_sema::accepts::Accepts;
use pine_sema::call_checks::{resolve_param, validate_call_arity_and_types};
use pine_sema::signatures::{BuiltinParam, BuiltinSignature};
use pine_sema::syntax::{CallArg, Diagnostic, Expr, ExprKind, Literal, Span};
use pine_sema::types::{
    qualifier_debug_name, type_debug_label, value_kind_debug_name, PineType, Qualifier, ValueKind,
};

fn arg(name: Option<&str>, start: usize) -> CallArg {
    let span = Span::new(start, start + 1);
    CallArg {
        name: name.map(str::to_owned),
        value: Expr {
            kind: ExprKind::Literal(Literal::Na),
            span,
        },
        span,
    }
}

fn param(name: &'static str, accepts: Accepts, optional: bool) -> BuiltinParam {
    BuiltinParam {
        name,
        accepts,
        optional,
    }
}

fn sma() -> BuiltinSignature {
    BuiltinSignature {
        name: "ta.sma",
        params: vec![
            param("source", Accepts::SeriesNumeric, false),
            param("length", Accepts::SimpleInt, false),
        ],
        variadic: false,
    }
}

fn ty(qualifier: Qualifier, kind: ValueKind) -> Option<PineType> {
    Some(PineType::new(qualifier, kind))
}

fn check(signature: &BuiltinSignature, args: &[CallArg], arg_types: &[Option<PineType>]) -> Vec<Diagnostic> {
    let mut diagnostics = Vec::new();
    validate_call_arity_and_types(signature, args, arg_types, &mut diagnostics);
    diagnostics
}

fn messages(diagnostics: &[Diagnostic]) -> Vec<String> {
    diagnostics.iter().map(|d| d.message.clone()).collect()
}

#[test]
fn too_few_arguments_is_the_only_report() {
    let diagnostics = check(&sma(), &[arg(None, 3)], &[ty(Qualifier::Series, ValueKind::String)]);
    assert_eq!(
        messages(&diagnostics),
        vec!["`ta.sma` expects at least 2 argument(s), got 1".to_owned()]
    );
    assert_eq!(diagnostics[0].code, "E_CALL_ARITY");
    assert_eq!(diagnostics[0].span, Span::new(3, 4));
    let none = check(&sma(), &[], &[]);
    assert_eq!(none[0].span, Span::new(0, 0));
}

#[test]
fn too_many_arguments_points_at_the_first_extra_one() {
    let args = [arg(None, 0), arg(None, 10), arg(None, 20)];
    let diagnostics = check(&sma(), &args, &[]);
    assert_eq!(
        messages(&diagnostics),
        vec!["`ta.sma` expects at most 2 argument(s), got 3".to_owned()]
    );
    assert_eq!(diagnostics[0].span, Span::new(20, 21));
}

#[test]
fn argument_types_are_checked_against_their_parameters() {
    let args = [arg(None, 0), arg(Some("length"), 10)];
    let arg_types = [
        ty(Qualifier::Series, ValueKind::Float),
        ty(Qualifier::Series, ValueKind::Int),
    ];
    let diagnostics = check(&sma(), &args, &arg_types);
    assert_eq!(
        messages(&diagnostics),
        vec!["`ta.sma` argument `length` does not accept Series Int".to_owned()]
    );
    assert_eq!(diagnostics[0].code, "E_CALL_ARG_TYPE");
    assert!(check(
        &sma(),
        &args,
        &[ty(Qualifier::Series, ValueKind::Float), ty(Qualifier::Const, ValueKind::Int)]
    )
    .is_empty());
}

#[test]
fn unknown_argument_names_are_reported() {
    let args = [arg(None, 0), arg(Some("len"), 10)];
    let diagnostics = check(&sma(), &args, &[]);
    assert_eq!(
        messages(&diagnostics),
        vec!["`ta.sma` has no argument named `len`".to_owned()]
    );
    assert_eq!(diagnostics[0].code, "E_CALL_ARG_NAME");
}

#[test]
fn single_length_overload_of_the_extreme_builtins() {
    let highest = BuiltinSignature {
        name: "ta.highest",
        params: vec![
            param("source", Accepts::SeriesNumeric, false),
            param("length", Accepts::SimpleInt, false),
        ],
        variadic: false,
    };
    assert!(check(&highest, &[arg(None, 0)], &[ty(Qualifier::Const, ValueKind::Int)]).is_empty());
    assert_eq!(
        messages(&check(&highest, &[arg(Some("source"), 0)], &[])),
        vec!["`ta.highest` single-argument overload has no argument named `source`".to_owned()]
    );
    assert_eq!(
        messages(&check(&highest, &[arg(None, 0)], &[ty(Qualifier::Series, ValueKind::Int)])),
        vec!["`ta.highest` argument `length` does not accept Series Int".to_owned()]
    );
}

#[test]
fn two_argument_overload_of_the_pivot_builtins() {
    let pivothigh = BuiltinSignature {
        name: "ta.pivothigh",
        params: vec![
            param("source", Accepts::SeriesNumeric, false),
            param("leftbars", Accepts::SimpleInt, false),
            param("rightbars", Accepts::SimpleInt, false),
        ],
        variadic: false,
    };
    let args = [arg(None, 0), arg(Some("right"), 10)];
    let arg_types = [ty(Qualifier::Series, ValueKind::Int), None];
    assert_eq!(
        messages(&check(&pivothigh, &args, &arg_types)),
        vec![
            "`ta.pivothigh` argument `leftbars` does not accept Series Int".to_owned(),
            "`ta.pivothigh` two-argument overload has no argument named `right`".to_owned(),
        ]
    );
}

#[test]
fn variadic_builtins_bind_extra_arguments_to_the_last_parameter() {
    let max = BuiltinSignature {
        name: "math.max",
        params: vec![
            param("number0", Accepts::NumericCompatible, false),
            param("number1", Accepts::NumericCompatible, false),
        ],
        variadic: true,
    };
    let args = [arg(None, 0), arg(None, 10), arg(None, 20)];
    let arg_types = [None, None, ty(Qualifier::Series, ValueKind::String)];
    assert_eq!(
        messages(&check(&max, &args, &arg_types)),
        vec!["`math.max` argument `number1` does not accept Series String".to_owned()]
    );
}

#[test]
fn array_join_takes_user_type_arrays_as_its_id() {
    let join = BuiltinSignature {
        name: "array.join",
        params: vec![
            param("id", Accepts::Array, false),
            param("separator", Accepts::StringCompatible, true),
        ],
        variadic: false,
    };
    let args = [arg(None, 0)];
    assert!(check(&join, &args, &[ty(Qualifier::Series, ValueKind::UserTypeArray)]).is_empty());
}

#[test]
fn resolving_parameters_by_name_and_position() {
    let signature = sma();
    let mut diagnostics = Vec::new();
    assert_eq!(
        resolve_param(&signature, 5, &arg(Some("length"), 0), &mut diagnostics).map(|p| p.name),
        Some("length")
    );
    assert_eq!(
        resolve_param(&signature, 0, &arg(None, 0), &mut diagnostics).map(|p| p.name),
        Some("source")
    );
    assert!(resolve_param(&signature, 2, &arg(None, 0), &mut diagnostics).is_none());
    assert!(diagnostics.is_empty());
    assert!(resolve_param(&signature, 0, &arg(Some("period"), 7), &mut diagnostics).is_none());
    assert_eq!(diagnostics[0].message, "`ta.sma` has no argument named `period`");
}

#[test]
fn debug_labels_of_types() {
    assert_eq!(qualifier_debug_name(Qualifier::Simple), "Simple");
    assert_eq!(value_kind_debug_name(ValueKind::MapValue), "Map");
    assert_eq!(
        type_debug_label(PineType::new(Qualifier::Const, ValueKind::UserTypeArray)),
        "Const UserTypeArray"
    );
}
