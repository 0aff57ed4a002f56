use pine_sema::accepts::Accepts;
use pine_sema::method_dispatch::{drawing_method_builtin_name, plan_method_call, MethodDispatch};
use pine_sema::signatures::{BuiltinParam, BuiltinSignature};
use pine_sema::syntax::{Diagnostic, Span};
use pine_sema::types::{PineType, Qualifier, ValueKind};

fn label_signature() -> BuiltinSignature {
    BuiltinSignature {
        name: "label.delete",
        params: vec![BuiltinParam { name: "id", accepts: Accepts::LabelCompatible, optional: false }],
        variadic: false,
    }
}

struct Planned {
    dispatch: MethodDispatch,
    supported: Vec<String>,
    refused: Vec<(String, String)>,
    diagnostics: Vec<Diagnostic>,
}

fn plan(kind: ValueKind, method: &str, depth: usize, drawing: Option<&BuiltinSignature>, matrix: Option<&str>, registered: bool) -> Planned {
    let mut supported = Vec::new();
    let mut report = Vec::new();
    let mut diagnostics = Vec::new();
    let dispatch = plan_method_call(
        PineType::new(Qualifier::Series, kind),
        method,
        Span::new(4, 9),
        depth,
        drawing,
        matrix,
        registered,
        &mut supported,
        &mut report,
        &mut diagnostics,
    );
    Planned {
        dispatch,
        supported: supported.iter().map(|f| f.feature.clone()).collect(),
        refused: report.iter().map(|u| (u.feature.clone(), u.reason.clone())).collect(),
        diagnostics,
    }
}

#[test]
fn drawing_methods_go_to_their_builtin() {
    assert_eq!(drawing_method_builtin_name(ValueKind::Label, "delete", Some(&label_signature())), Some("label.delete".to_string()));
    assert_eq!(drawing_method_builtin_name(ValueKind::Line, "delete", Some(&label_signature())), None);
    let p = plan(ValueKind::Label, "delete", 0, Some(&label_signature()), None, true);
    assert_eq!(p.dispatch, MethodDispatch::Drawing("label.delete".to_string()));
    assert_eq!(p.supported, vec!["label.delete".to_string()]);
    let p = plan(ValueKind::Label, "wobble", 0, None, None, false);
    assert_eq!(p.dispatch, MethodDispatch::Rejected);
    assert_eq!(
        p.refused,
        vec![("label.wobble".to_string(), "this drawing object call is not supported in the current partial drawing subset".to_string())]
    );
}

#[test]
fn user_and_map_methods_are_routed() {
    assert_eq!(plan(ValueKind::UserType, "area", 0, None, None, false).dispatch, MethodDispatch::UserMethod);
    assert_eq!(plan(ValueKind::MapValue, "get", 0, None, None, false).dispatch, MethodDispatch::MapOperation("map.get".to_string()));
    let p = plan(ValueKind::MapValue, "frob", 0, None, None, false);
    assert_eq!(p.dispatch, MethodDispatch::Rejected);
    assert_eq!(p.diagnostics[0].message, "unknown map method `frob`");
}

#[test]
fn array_methods_need_a_registered_builtin() {
    let p = plan(ValueKind::FloatArray, "push", 1, None, None, true);
    assert_eq!(p.dispatch, MethodDispatch::Builtin("array.push".to_string()));
    assert_eq!(
        p.refused,
        vec![("function_side_effect".to_string(), "collection mutation via `array.push` is not supported inside user-defined functions".to_string())]
    );
    let p = plan(ValueKind::FloatArray, "push", 0, None, None, false);
    assert_eq!(p.diagnostics[0].message, "unknown array method `push`");
    let p = plan(ValueKind::Float, "push", 0, None, None, true);
    assert_eq!(p.diagnostics[0].message, "method `push` is not supported for Series Float");
    assert_eq!(p.diagnostics[0].code, "E_METHOD_RECEIVER_TYPE");
    let p = plan(ValueKind::FloatMatrix, "get", 0, None, Some("matrix.get"), true);
    assert_eq!(p.dispatch, MethodDispatch::Builtin("matrix.get".to_string()));
    assert!(p.refused.is_empty());
}
