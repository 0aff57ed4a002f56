use pine_sema::accepts::Accepts;
use pine_sema::legacy_drawing::{legacy_drawing_unavailable_features, UnavailableFeature};
use pine_sema::signatures::{BuiltinParam, BuiltinSignature};
use pine_sema::syntax::{CallArg, Expr, ExprKind, Literal, Span};
use pine_sema::types::{PineType, Qualifier, ValueKind};

fn arg(name: Option<&str>, start: usize) -> CallArg {
    let span = Span::new(start, start + 1);
    CallArg {
        name: name.map(str::to_owned),
        value: Expr {
            kind: ExprKind::Literal(Literal::Na),
            span,
        },
        span,
    }
}

fn signature(name: &'static str, params: Vec<BuiltinParam>) -> BuiltinSignature {
    BuiltinSignature {
        name,
        params,
        variadic: false,
    }
}

fn summary(features: &[UnavailableFeature]) -> Vec<(String, u32, usize)> {
    features
        .iter()
        .map(|f| (f.feature.clone(), f.min_version, f.span.start))
        .collect()
}

#[test]
fn version_six_scripts_have_every_feature() {
    let args = [arg(None, 0), arg(None, 10), arg(Some("text_formatting"), 20)];
    assert!(legacy_drawing_unavailable_features(6, &signature("label.new", vec![]), &args, &[]).is_empty());
}

#[test]
fn text_formatting_needs_version_six() {
    let args = [arg(None, 0), arg(None, 10), arg(Some("text_formatting"), 20)];
    assert_eq!(
        summary(&legacy_drawing_unavailable_features(5, &signature("label.new", vec![]), &args, &[])),
        vec![("label.new argument `text_formatting`".to_owned(), 6, 20)]
    );
}

#[test]
fn integer_text_sizes_need_version_six() {
    let args = [arg(None, 0), arg(None, 10), arg(Some("size"), 20)];
    let int_size = [None, None, Some(PineType::new(Qualifier::Const, ValueKind::Int))];
    let string_size = [None, None, Some(PineType::new(Qualifier::Const, ValueKind::String))];
    let sig = signature("label.new", vec![]);
    assert_eq!(
        summary(&legacy_drawing_unavailable_features(5, &sig, &args, &int_size)),
        vec![("label.new argument `size`".to_owned(), 6, 20)]
    );
    assert!(legacy_drawing_unavailable_features(5, &sig, &args, &string_size).is_empty());
}

#[test]
fn version_four_lacks_point_overloads_and_newer_parameters() {
    let args = [arg(None, 0), arg(Some("force_overlay"), 10)];
    let point = [Some(PineType::new(Qualifier::Series, ValueKind::ChartPoint))];
    assert_eq!(
        summary(&legacy_drawing_unavailable_features(4, &signature("label.new", vec![]), &args, &point)),
        vec![
            ("label.new point overload".to_owned(), 5, 0),
            ("label.new argument `force_overlay`".to_owned(), 5, 10),
        ]
    );
    assert!(legacy_drawing_unavailable_features(5, &signature("label.new", vec![]), &args, &point).is_empty());
}

#[test]
fn other_builtins_bind_by_their_own_parameters() {
    let cell = signature(
        "table.cell",
        vec![
            BuiltinParam { name: "table_id", accepts: Accepts::TableCompatible, optional: false },
            BuiltinParam { name: "tooltip", accepts: Accepts::StringCompatible, optional: true },
        ],
    );
    let args = [arg(None, 0), arg(None, 10), arg(Some("missing"), 20)];
    assert_eq!(
        summary(&legacy_drawing_unavailable_features(4, &cell, &args, &[])),
        vec![("table.cell argument `tooltip`".to_owned(), 5, 10)]
    );
}
