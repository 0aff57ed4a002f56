use pine_sema::syntax::{CallArg, Diagnostic, Expr, ExprKind, Literal, Span};
use pine_sema::types::{PineType, Qualifier, ValueKind};
use pine_sema::user_type_arrays::{
    analyze_user_type_array_new_call, array_from_user_type_element_inference,
    mark_user_type_array_element_result, mark_user_type_array_result,
};
use pine_sema::user_type_constructors::resolve_constructor_args;
use pine_sema::user_types::{
    SourceId, UserTypeArrayElementInference, UserTypeFieldInfo, UserTypeIdentity, UserTypeInfo,
};

fn arg(name: Option<&str>, start: usize) -> CallArg {
    let span = Span::new(start, start + 1);
    CallArg { name: name.map(str::to_owned), value: Expr { kind: ExprKind::Literal(Literal::Na), span }, span }
}

fn user_type(name: &str, fields: &[(&str, ValueKind, Option<&str>)]) -> UserTypeInfo {
    UserTypeInfo {
        identity: UserTypeIdentity { source_id: SourceId::root(), name: name.to_string() },
        name: name.to_string(),
        fields: fields
            .iter()
            .map(|(n, k, u)| UserTypeFieldInfo {
                name: n.to_string(),
                pine_type: PineType::new(Qualifier::Series, *k),
                user_type_name: u.map(str::to_owned),
            })
            .collect(),
    }
}

fn types() -> Vec<UserTypeInfo> {
    vec![
        user_type("Point", &[("x", ValueKind::Float, None), ("y", ValueKind::Float, None)]),
        user_type("Line", &[("from", ValueKind::UserType, Some("Point"))]),
    ]
}

fn udt() -> Option<PineType> {
    Some(PineType::new(Qualifier::Series, ValueKind::UserType))
}

fn messages(diagnostics: &[Diagnostic]) -> Vec<String> {
    diagnostics.iter().map(|d| d.message.clone()).collect()
}

#[test]
fn array_from_classifies_user_type_arguments() {
    let args = [arg(None, 0), arg(None, 2), arg(None, 4)];
    let names = vec![Some("Point".to_string()), None, Some("Point".to_string())];
    let arg_types = [udt(), Some(PineType::new(Qualifier::Const, ValueKind::Int)), udt()];
    assert_eq!(
        array_from_user_type_element_inference(&args, &arg_types, &names, &types()),
        Some(UserTypeArrayElementInference::SameScalarLocal("Point".to_string()))
    );
    let mixed = vec![Some("Point".to_string()), None, Some("Line".to_string())];
    assert_eq!(
        array_from_user_type_element_inference(&args, &arg_types, &mixed, &types()),
        Some(UserTypeArrayElementInference::MixedLocal)
    );
    let unnamed = vec![None, None, Some("Point".to_string())];
    assert_eq!(
        array_from_user_type_element_inference(&args, &arg_types, &unnamed, &types()),
        Some(UserTypeArrayElementInference::UnknownUserTypeName)
    );
    let unknown = vec![Some("Ghost".to_string()), None, Some("Ghost".to_string())];
    assert_eq!(
        array_from_user_type_element_inference(&args, &arg_types, &unknown, &types()),
        Some(UserTypeArrayElementInference::UnknownUserTypeName)
    );
    let scalars = [Some(PineType::new(Qualifier::Const, ValueKind::Int))];
    assert_eq!(array_from_user_type_element_inference(&args[..1], &scalars, &[None], &types()), None);
}

fn array_new(name: &str, udt_name: &str, args: &[CallArg], arg_types: &[Option<PineType>], value: Option<&str>) -> (Vec<String>, Option<String>) {
    let mut diagnostics = Vec::new();
    let mut marked = None;
    let r = analyze_user_type_array_new_call(
        name,
        udt_name,
        Span::new(0, 3),
        args,
        arg_types,
        value,
        &types(),
        &mut diagnostics,
        &mut marked,
    );
    assert_eq!(r, Some(PineType::new(Qualifier::Simple, ValueKind::UserTypeArray)));
    (messages(&diagnostics), marked)
}

#[test]
fn array_new_of_a_scalar_type_checks_size_and_initial_value() {
    let int = Some(PineType::new(Qualifier::Simple, ValueKind::Int));
    let (diagnostics, marked) = array_new("array.new<Point>", "Point", &[arg(None, 4), arg(None, 6)], &[int, udt()], Some("Point"));
    assert!(diagnostics.is_empty());
    assert_eq!(marked, Some("Point".to_string()));
    let series_int = Some(PineType::new(Qualifier::Series, ValueKind::Int));
    let float = Some(PineType::new(Qualifier::Series, ValueKind::Float));
    let (diagnostics, _) = array_new("array.new<Point>", "Point", &[arg(None, 4), arg(None, 6)], &[series_int, float], None);
    assert_eq!(
        diagnostics,
        vec![
            "`array.new<Point>` argument `size` does not accept Series Int".to_string(),
            "`array.new<Point>` argument `initial_value` does not accept Series Float".to_string(),
        ]
    );
    let (diagnostics, _) = array_new("array.new<Point>", "Point", &[arg(None, 4), arg(None, 6)], &[int, udt()], Some("Line"));
    assert_eq!(
        diagnostics,
        vec!["`array.new<Point>` argument `initial_value` expects UDT `Point`, got `Line`".to_string()]
    );
}

#[test]
fn array_new_reports_arity_names_and_element_types() {
    let (diagnostics, _) = array_new(
        "array.new<Line>",
        "Line",
        &[arg(Some("length"), 4), arg(None, 6), arg(None, 8)],
        &[None, None, None],
        None,
    );
    assert_eq!(
        diagnostics,
        vec![
            "`array.new<Line>` expects at most 2 argument(s), got 3".to_string(),
            "`array.new<Line>` does not support UDT arrays with non-scalar fields".to_string(),
            "`array.new<Line>` has no argument named `length` at this position".to_string(),
        ]
    );
    let (diagnostics, _) = array_new("array.new<Ghost>", "Ghost", &[], &[], None);
    assert_eq!(diagnostics, vec!["`array.new<Ghost>` requires a local scalar-field UDT".to_string()]);
}

#[test]
fn array_results_carry_the_element_type() {
    let array = [Some(PineType::new(Qualifier::Series, ValueKind::UserTypeArray))];
    let args = [arg(None, 0)];
    let mut element = None;
    mark_user_type_array_element_result("array.get", &args, &array, Some("Point"), &mut element);
    assert_eq!(element, Some("Point".to_string()));
    let mut untouched = None;
    mark_user_type_array_element_result("array.size", &args, &array, Some("Point"), &mut untouched);
    assert_eq!(untouched, None);
    let mut copied = None;
    mark_user_type_array_result("array.slice", &args, &array, Some("Point"), &mut copied);
    assert_eq!(copied, Some("Point".to_string()));
    let floats = [Some(PineType::new(Qualifier::Series, ValueKind::FloatArray))];
    let mut other = None;
    mark_user_type_array_result("array.copy", &args, &floats, Some("Point"), &mut other);
    assert_eq!(other, None);
}

#[test]
fn constructor_arguments_bind_to_fields() {
    let point = &types()[0];
    let mut diagnostics = Vec::new();
    assert_eq!(
        resolve_constructor_args(point, &[arg(None, 0), arg(Some("y"), 2)], Span::new(0, 9), &mut diagnostics),
        Some(vec![Some(0), Some(1)])
    );
    assert_eq!(
        resolve_constructor_args(point, &[arg(Some("y"), 0)], Span::new(0, 9), &mut diagnostics),
        Some(vec![None, Some(0)])
    );
    assert!(diagnostics.is_empty());
}

#[test]
fn constructor_argument_errors() {
    let point = &types()[0];
    let mut diagnostics = Vec::new();
    assert_eq!(resolve_constructor_args(point, &[arg(None, 0), arg(None, 1), arg(None, 2)], Span::new(0, 9), &mut diagnostics), None);
    assert_eq!(resolve_constructor_args(point, &[arg(Some("z"), 3)], Span::new(0, 9), &mut diagnostics), None);
    assert_eq!(resolve_constructor_args(point, &[arg(None, 0), arg(Some("x"), 4)], Span::new(0, 9), &mut diagnostics), None);
    assert_eq!(resolve_constructor_args(point, &[arg(Some("y"), 0), arg(None, 5)], Span::new(0, 9), &mut diagnostics), None);
    assert_eq!(
        messages(&diagnostics),
        vec![
            "`Point.new` expects 2 field argument(s), got 3".to_string(),
            "unknown field `z` for `Point` constructor".to_string(),
            "duplicate field `x` for `Point` constructor".to_string(),
            "positional field argument cannot follow named field argument".to_string(),
        ]
    );
    assert_eq!(diagnostics[1].span, Span::new(3, 4));
    assert!(diagnostics.iter().all(|d| d.code == "E_UDT_CONSTRUCTOR_ARG"));
}
