use pine_sema::compatibility::{FeatureUse, UnsupportedFeature};
use pine_sema::map_calls::{
    analyze_map_new_call, analyze_map_operation_call, is_supported_map_scalar_type,
    map_new_template_types, unsupported_collection_mutation_udf_reason,
};
use pine_sema::maps::{mark_map_results, merge_map_results, MapResultInfo, MapTypeInfo};
use pine_sema::syntax::{CallArg, Diagnostic, Expr, ExprKind, Literal, Span};
use pine_sema::types::{PineType, Qualifier, ValueKind};

fn arg(start: usize) -> CallArg {
    let span = Span::new(start, start + 1);
    CallArg { name: None, value: Expr { kind: ExprKind::Literal(Literal::Na), span }, span }
}

fn t(qualifier: Qualifier, kind: ValueKind) -> Option<PineType> {
    Some(PineType::new(qualifier, kind))
}

fn string_to_float() -> MapTypeInfo {
    MapTypeInfo { key_kind: ValueKind::String, value_kind: ValueKind::Float }
}

struct Outcome {
    result: Option<Option<PineType>>,
    supported: Vec<FeatureUse>,
    report: Vec<UnsupportedFeature>,
    diagnostics: Vec<Diagnostic>,
    marked: Option<MapTypeInfo>,
}

fn operation(
    name: &str,
    args: &[CallArg],
    arg_types: &[Option<PineType>],
    depth: usize,
    receiver: Option<MapTypeInfo>,
    source: Option<MapTypeInfo>,
) -> Outcome {
    let mut supported = Vec::new();
    let mut report = Vec::new();
    let mut diagnostics = Vec::new();
    let mut marked = None;
    let result = analyze_map_operation_call(
        name,
        Span::new(0, 20),
        args,
        arg_types,
        depth,
        receiver,
        source,
        &mut supported,
        &mut report,
        &mut diagnostics,
        &mut marked,
    );
    Outcome { result, supported, report, diagnostics, marked }
}

fn messages(diagnostics: &[Diagnostic]) -> Vec<String> {
    diagnostics.iter().map(|d| d.message.clone()).collect()
}

#[test]
fn map_new_templates_are_split_from_the_name() {
    assert_eq!(map_new_template_types("map.new<string,float>"), Some(("string", "float")));
    assert_eq!(map_new_template_types("map.new<string>"), None);
    assert_eq!(map_new_template_types("map.new<int,float"), None);
    assert_eq!(map_new_template_types("array.new<int,float>"), None);
    assert!(is_supported_map_scalar_type("color"));
    assert!(!is_supported_map_scalar_type("label"));
    assert_eq!(
        unsupported_collection_mutation_udf_reason("map.put"),
        "collection mutation via `map.put` is not supported inside user-defined functions"
    );
}

#[test]
fn map_new_gives_a_simple_map_with_its_template() {
    let mut supported = Vec::new();
    let mut report = Vec::new();
    let mut diagnostics = Vec::new();
    let mut marked = None;
    let r = analyze_map_new_call(
        "map.new<string,float>",
        "string",
        "float",
        Span::new(0, 5),
        &[],
        &mut supported,
        &mut report,
        &mut diagnostics,
        &mut marked,
    );
    assert_eq!(r, Some(PineType::new(Qualifier::Simple, ValueKind::MapValue)));
    assert_eq!(marked, Some(string_to_float()));
    assert_eq!(supported[0].feature, "map.*");
    assert!(report.is_empty() && diagnostics.is_empty());
}

#[test]
fn map_new_rejects_arguments_and_other_templates() {
    let mut supported = Vec::new();
    let mut report = Vec::new();
    let mut diagnostics = Vec::new();
    let mut marked = None;
    let r = analyze_map_new_call(
        "map.new<int,int>",
        "int",
        "int",
        Span::new(0, 5),
        &[arg(6)],
        &mut supported,
        &mut report,
        &mut diagnostics,
        &mut marked,
    );
    assert_eq!(r, None);
    assert_eq!(messages(&diagnostics), vec!["map.new does not accept arguments in the current subset".to_string()]);
    let r = analyze_map_new_call(
        "map.new<int,label>",
        "int",
        "label",
        Span::new(0, 5),
        &[],
        &mut supported,
        &mut report,
        &mut diagnostics,
        &mut marked,
    );
    assert_eq!(r, None);
    assert_eq!(report.len(), 1);
    assert_eq!(report[0].feature, "map.new<int,label>");
    assert_eq!(
        report[0].reason,
        "map.new currently supports only int, float, bool, string, or color key/value templates"
    );
    assert!(supported.is_empty());
    assert_eq!(marked, None);
}

#[test]
fn map_operations_give_their_types() {
    let map = t(Qualifier::Simple, ValueKind::MapValue);
    let key = t(Qualifier::Series, ValueKind::String);
    let get = operation("map.get", &[arg(1), arg(2)], &[map, key], 0, Some(string_to_float()), None);
    assert_eq!(get.result, Some(t(Qualifier::Series, ValueKind::Float)));
    assert_eq!(get.supported[0].feature, "map.*");
    let keys = operation("map.keys", &[arg(1)], &[map], 0, Some(string_to_float()), None);
    assert_eq!(keys.result, Some(t(Qualifier::Simple, ValueKind::StringArray)));
    let values = operation("map.values", &[arg(1)], &[map], 0, Some(string_to_float()), None);
    assert_eq!(values.result, Some(t(Qualifier::Simple, ValueKind::FloatArray)));
    let copy = operation("map.copy", &[arg(1)], &[map], 0, Some(string_to_float()), None);
    assert_eq!(copy.result, Some(t(Qualifier::Simple, ValueKind::MapValue)));
    assert_eq!(copy.marked, Some(string_to_float()));
    let size = operation("map.size", &[arg(1)], &[map], 0, Some(string_to_float()), None);
    assert_eq!(size.result, Some(t(Qualifier::Series, ValueKind::Int)));
    assert_eq!(size.marked, None);
    let other = operation("map.foo", &[arg(1)], &[map], 0, Some(string_to_float()), None);
    assert_eq!(other.result, None);
    assert!(other.diagnostics.is_empty());
}

#[test]
fn map_operation_arity_and_side_effects() {
    let map = t(Qualifier::Simple, ValueKind::MapValue);
    let wrong = operation("map.put", &[arg(1), arg(2)], &[map, None], 0, Some(string_to_float()), None);
    assert_eq!(wrong.result, Some(None));
    assert_eq!(messages(&wrong.diagnostics), vec!["`map.put` expects 3 argument(s), got 2".to_string()]);
    assert_eq!(wrong.diagnostics[0].span, Span::new(0, 20));
    let extra = operation("map.size", &[arg(1), arg(5)], &[map, None], 0, Some(string_to_float()), None);
    assert_eq!(extra.diagnostics[0].span, Span::new(5, 6));
    let nested = operation("map.clear", &[arg(1)], &[map], 2, Some(string_to_float()), None);
    assert_eq!(nested.result, Some(None));
    assert_eq!(nested.report[0].feature, "function_side_effect");
    assert_eq!(
        nested.report[0].reason,
        "collection mutation via `map.clear` is not supported inside user-defined functions"
    );
    let read = operation("map.size", &[arg(1)], &[map], 2, Some(string_to_float()), None);
    assert_eq!(read.result, Some(t(Qualifier::Series, ValueKind::Int)));
}

#[test]
fn map_operation_receiver_and_key_checks() {
    let map = t(Qualifier::Simple, ValueKind::MapValue);
    let not_map = operation("map.size", &[arg(1)], &[t(Qualifier::Series, ValueKind::Int)], 0, None, None);
    assert_eq!(messages(&not_map.diagnostics), vec!["`map.size` argument `id` does not accept Series Int".to_string()]);
    let unknown = operation("map.size", &[arg(1)], &[map], 0, None, None);
    assert_eq!(messages(&unknown.diagnostics), vec!["`map.size` receiver map template is not known".to_string()]);
    let untyped = operation("map.size", &[arg(1)], &[None], 0, None, None);
    assert_eq!(untyped.result, Some(None));
    assert!(untyped.diagnostics.is_empty());
    let bad_key = operation(
        "map.put",
        &[arg(1), arg(2), arg(3)],
        &[map, t(Qualifier::Series, ValueKind::Int), t(Qualifier::Series, ValueKind::Bool)],
        0,
        Some(string_to_float()),
        None,
    );
    assert_eq!(bad_key.result, Some(t(Qualifier::Series, ValueKind::Void)));
    assert_eq!(
        messages(&bad_key.diagnostics),
        vec![
            "`map.put` argument `key` does not accept Series Int".to_string(),
            "`map.put` argument `value` does not accept Series Bool".to_string(),
        ]
    );
}

#[test]
fn map_put_all_needs_the_same_template() {
    let map = t(Qualifier::Simple, ValueKind::MapValue);
    let other = MapTypeInfo { key_kind: ValueKind::Int, value_kind: ValueKind::Float };
    let mismatch = operation("map.put_all", &[arg(1), arg(2)], &[map, map], 0, Some(string_to_float()), Some(other));
    assert_eq!(mismatch.result, Some(None));
    assert_eq!(
        messages(&mismatch.diagnostics),
        vec!["`map.put_all` source map template Int/Float does not match target String/Float".to_string()]
    );
    let unknown = operation("map.put_all", &[arg(1), arg(2)], &[map, map], 0, Some(string_to_float()), None);
    assert_eq!(messages(&unknown.diagnostics), vec!["`map.put_all` source map template is not known".to_string()]);
    let same = operation(
        "map.put_all",
        &[arg(1), arg(2)],
        &[map, map],
        0,
        Some(string_to_float()),
        Some(string_to_float()),
    );
    assert_eq!(same.result, Some(t(Qualifier::Series, ValueKind::Void)));
    assert!(same.diagnostics.is_empty());
}

#[test]
fn branch_map_results_merge() {
    let a = string_to_float();
    let b = MapTypeInfo { key_kind: ValueKind::Int, value_kind: ValueKind::Float };
    assert_eq!(merge_map_results(&[]), MapResultInfo::Na);
    assert_eq!(merge_map_results(&[MapResultInfo::Na, MapResultInfo::Known(a)]), MapResultInfo::Known(a));
    assert_eq!(
        merge_map_results(&[MapResultInfo::Known(a), MapResultInfo::Na, MapResultInfo::Known(a)]),
        MapResultInfo::Known(a)
    );
    assert_eq!(merge_map_results(&[MapResultInfo::Known(a), MapResultInfo::Known(b)]), MapResultInfo::Unknown);
    assert_eq!(merge_map_results(&[MapResultInfo::Known(b), MapResultInfo::Known(a)]), MapResultInfo::Unknown);
    assert_eq!(merge_map_results(&[MapResultInfo::Na, MapResultInfo::Unknown]), MapResultInfo::Unknown);
}

#[test]
fn merged_templates_mark_the_expression() {
    let a = string_to_float();
    let mut marked = None;
    assert!(mark_map_results(&[MapResultInfo::Known(a), MapResultInfo::Na], &mut marked));
    assert_eq!(marked, Some(a));
    let mut untouched = None;
    assert!(!mark_map_results(&[MapResultInfo::Na], &mut untouched));
    assert_eq!(untouched, None);
}
