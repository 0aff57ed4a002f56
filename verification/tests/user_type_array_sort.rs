use pine_sema::syntax::{CallArg, Diagnostic, Expr, ExprKind, Literal, Span};
use pine_sema::types::{PineType, Qualifier, ValueKind};
use pine_sema::user_type_array_sort::{
    analyze_user_type_array_sort_call, array_new_user_type_name, user_type_array_sort_arg,
    user_type_array_sort_field_index, validate_user_type_array_sort_bindings,
};
use pine_sema::arg_facts::ArgFacts;
use pine_sema::user_types::{ImportedFieldInfo, SourceId, UserTypeFieldInfo, UserTypeIdentity, UserTypeInfo};

fn arg(name: Option<&str>, start: usize) -> CallArg {
    let span = Span::new(start, start + 1);
    CallArg {
        name: name.map(str::to_owned),
        value: Expr {
            kind: ExprKind::Literal(Literal::Na),
            span,
        },
        span,
    }
}

fn bindings(args: &[CallArg]) -> Vec<(String, String)> {
    let mut diagnostics: Vec<Diagnostic> = Vec::new();
    validate_user_type_array_sort_bindings("array.sort", Span::new(100, 110), args, &mut diagnostics);
    diagnostics.iter().map(|d| (d.code.clone(), d.message.clone())).collect()
}

#[test]
fn sort_arguments_bind_to_id_order_and_sort_field() {
    assert!(bindings(&[arg(None, 0), arg(None, 10), arg(Some("sort_field"), 20)]).is_empty());
    assert_eq!(
        bindings(&[arg(Some("order"), 0), arg(None, 10)]),
        vec![
            (
                "E_CALL_ARG_ORDER".to_owned(),
                "positional arguments cannot follow named arguments in built-in calls".to_owned()
            ),
            ("E_CALL_ARITY".to_owned(), "`array.sort` is missing argument `id`".to_owned()),
        ]
    );
    assert_eq!(
        bindings(&[arg(None, 0), arg(Some("id"), 10), arg(Some("key"), 20), arg(None, 30)]),
        vec![
            ("E_CALL_ARITY".to_owned(), "`array.sort` expects at most 3 argument(s), got 4".to_owned()),
            ("E_CALL_ARG_DUPLICATE".to_owned(), "`array.sort` argument `id` is provided more than once".to_owned()),
            ("E_CALL_ARG_NAME".to_owned(), "`array.sort` has no argument named `key`".to_owned()),
        ]
    );
}

#[test]
fn a_sort_without_arguments_reports_the_call() {
    let mut diagnostics: Vec<Diagnostic> = Vec::new();
    validate_user_type_array_sort_bindings("array.sort", Span::new(100, 110), &[], &mut diagnostics);
    assert_eq!(diagnostics[0].span, Span::new(100, 110));
}

#[test]
fn sort_call_checks_order_and_field_types() {
    let args = [arg(None, 0), arg(None, 10), arg(Some("sort_field"), 20)];
    let arg_types = [
        Some(PineType::new(Qualifier::Series, ValueKind::UserTypeArray)),
        Some(PineType::new(Qualifier::Series, ValueKind::String)),
        Some(PineType::new(Qualifier::Simple, ValueKind::Int)),
    ];
    let mut diagnostics: Vec<Diagnostic> = Vec::new();
    let result = analyze_user_type_array_sort_call("array.sort_indices", Span::new(0, 30), &args, &arg_types, None, &mut diagnostics);
    assert_eq!(result, Some(PineType::new(Qualifier::Simple, ValueKind::IntArray)));
    let messages: Vec<String> = diagnostics.iter().map(|d| d.message.clone()).collect();
    assert_eq!(
        messages,
        vec![
            "`array.sort_indices` argument `order` expects const string, got series string".to_owned(),
            "`array.sort_indices` argument `sort_field` expects const int or string, got simple int".to_owned(),
            "`array.sort_indices` requires a scalar-tree UDT array and a root int, float, or string `sort_field`".to_owned(),
        ]
    );
    assert_eq!(diagnostics[2].span, Span::new(20, 21));

    let mut diagnostics: Vec<Diagnostic> = Vec::new();
    let result = analyze_user_type_array_sort_call("array.sort", Span::new(0, 30), &args[..1], &arg_types, Some(0), &mut diagnostics);
    assert_eq!(result, Some(PineType::new(Qualifier::Const, ValueKind::Void)));
    assert!(diagnostics.is_empty());
}

#[test]
fn sort_argument_lookup_and_array_new_type_names() {
    let args = [arg(None, 0), arg(Some("sort_field"), 10)];
    assert_eq!(user_type_array_sort_arg(&args, 2).map(|(i, _)| i), Some(1));
    assert!(user_type_array_sort_arg(&args, 1).is_none());
    assert_eq!(array_new_user_type_name("array.new<Point>"), Some("Point"));
    assert_eq!(array_new_user_type_name("array.new<chart.point>"), None);
    assert_eq!(array_new_user_type_name("array.new_float"), None);
}

fn bar_type() -> Vec<UserTypeInfo> {
    let field = |name: &str, kind: ValueKind| UserTypeFieldInfo {
        name: name.to_string(),
        pine_type: PineType::new(Qualifier::Series, kind),
        user_type_name: None,
    };
    vec![UserTypeInfo {
        identity: UserTypeIdentity { source_id: SourceId::root(), name: "Bar".to_string() },
        name: "Bar".to_string(),
        fields: vec![field("price", ValueKind::Float), field("up", ValueKind::Bool), field("tag", ValueKind::String)],
    }]
}

fn int_fact(value: i64) -> ArgFacts {
    let mut facts = ArgFacts::unknown();
    facts.known_int = Some(value);
    facts
}

fn string_fact(value: &str) -> ArgFacts {
    let mut facts = ArgFacts::unknown();
    facts.known_string = Some(value.to_string());
    facts
}

#[test]
fn sort_field_defaults_to_the_first_field() {
    let types = bar_type();
    let args = [arg(None, 0)];
    assert_eq!(user_type_array_sort_field_index(&args, &[ArgFacts::unknown()], Some("Bar"), &types, None), Some(0));
    assert_eq!(user_type_array_sort_field_index(&args, &[ArgFacts::unknown()], None, &types, None), None);
    assert_eq!(user_type_array_sort_field_index(&[], &[], Some("Bar"), &types, None), None);
}

#[test]
fn sort_field_by_index_or_name_must_be_sortable() {
    let types = bar_type();
    let args = [arg(None, 0), arg(None, 1), arg(None, 2)];
    let facts = |f: ArgFacts| vec![ArgFacts::unknown(), ArgFacts::unknown(), f];
    assert_eq!(user_type_array_sort_field_index(&args, &facts(int_fact(2)), Some("Bar"), &types, None), Some(2));
    assert_eq!(user_type_array_sort_field_index(&args, &facts(int_fact(1)), Some("Bar"), &types, None), None);
    assert_eq!(user_type_array_sort_field_index(&args, &facts(int_fact(-1)), Some("Bar"), &types, None), None);
    assert_eq!(user_type_array_sort_field_index(&args, &facts(int_fact(9)), Some("Bar"), &types, None), None);
    assert_eq!(user_type_array_sort_field_index(&args, &facts(string_fact("tag")), Some("Bar"), &types, None), Some(2));
    assert_eq!(user_type_array_sort_field_index(&args, &facts(string_fact("up")), Some("Bar"), &types, None), None);
    assert_eq!(user_type_array_sort_field_index(&args, &facts(ArgFacts::unknown()), Some("Bar"), &types, None), None);
}

#[test]
fn sort_field_of_imported_types() {
    let imported = vec![
        ImportedFieldInfo { name: "nested".to_string(), pine_type: None },
        ImportedFieldInfo { name: "size".to_string(), pine_type: Some(PineType::new(Qualifier::Series, ValueKind::Int)) },
    ];
    let args = [arg(None, 0), arg(Some("sort_field"), 1)];
    let facts = vec![ArgFacts::unknown(), string_fact("size")];
    assert_eq!(user_type_array_sort_field_index(&args, &facts, Some("lib.Box"), &[], Some(&imported)), Some(1));
    let first = [arg(None, 0)];
    assert_eq!(user_type_array_sort_field_index(&first, &[ArgFacts::unknown()], Some("lib.Box"), &[], Some(&imported)), None);
}
