use pine_sema::chart_points::{
    chart_point_field_access_for_lowering, resolve_chart_point_field_mutation,
    type_of_chart_point_field_access,
};
use pine_sema::syntax::Span;
use pine_sema::types::{PineType, Qualifier, ValueKind};

fn parts(names: &[&str]) -> Vec<String> {
    names.iter().map(|n| n.to_string()).collect()
}

fn point() -> Option<PineType> {
    Some(PineType::new(Qualifier::Simple, ValueKind::ChartPoint))
}

#[test]
fn chart_point_fields_have_the_receiver_qualifier() {
    assert_eq!(
        type_of_chart_point_field_access(&parts(&["p", "price"]), point()),
        Some(PineType::new(Qualifier::Simple, ValueKind::Float))
    );
    assert_eq!(
        type_of_chart_point_field_access(&parts(&["p", "index"]), point()),
        Some(PineType::new(Qualifier::Simple, ValueKind::Int))
    );
    assert_eq!(type_of_chart_point_field_access(&parts(&["p", "size"]), point()), None);
    assert_eq!(type_of_chart_point_field_access(&parts(&["p", "x", "y"]), point()), None);
    assert_eq!(
        type_of_chart_point_field_access(&parts(&["p", "time"]), Some(PineType::new(Qualifier::Simple, ValueKind::Label))),
        None
    );
}

#[test]
fn chart_point_fields_lower_to_slots() {
    assert_eq!(chart_point_field_access_for_lowering(&parts(&["p", "price"]), point()), Some(("p".to_string(), 2)));
    assert_eq!(chart_point_field_access_for_lowering(&parts(&["p", "time"]), point()), Some(("p".to_string(), 0)));
    assert_eq!(chart_point_field_access_for_lowering(&parts(&["p", "size"]), point()), None);
    assert_eq!(chart_point_field_access_for_lowering(&parts(&["p", "time"]), None), None);
}

#[test]
fn chart_point_field_mutation_reports_unknown_fields() {
    let mut diagnostics = Vec::new();
    assert_eq!(
        resolve_chart_point_field_mutation(point(), "time", Span::new(0, 6), &mut diagnostics),
        Some(PineType::new(Qualifier::Simple, ValueKind::Int))
    );
    assert!(diagnostics.is_empty());
    assert_eq!(resolve_chart_point_field_mutation(point(), "size", Span::new(0, 6), &mut diagnostics), None);
    assert_eq!(diagnostics.len(), 1);
    assert_eq!(diagnostics[0].message, "unknown field `size` on `chart.point`");
    assert_eq!(diagnostics[0].code, "E_CHART_POINT_UNKNOWN_FIELD");
    assert_eq!(resolve_chart_point_field_mutation(None, "size", Span::new(0, 6), &mut diagnostics), None);
    assert_eq!(diagnostics.len(), 1);
}
