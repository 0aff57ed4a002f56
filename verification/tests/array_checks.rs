use pine_sema::array_checks::validate_matrix_concat_args;
use pine_sema::accepts::Accepts;
use pine_sema::array_checks::{
    validate_array_concat_args, validate_array_from_args, validate_array_value_args,
    validate_user_type_array_concat_args, validate_user_type_array_helper_args,
    validate_user_type_array_value_args,
};
use pine_sema::signatures::{BuiltinParam, BuiltinSignature};
use pine_sema::syntax::{CallArg, Diagnostic, Expr, ExprKind, Literal, Span};
use pine_sema::types::{PineType, Qualifier, ValueKind};
use pine_sema::user_types::UserTypeArrayElementInference;

fn arg(start: usize) -> CallArg {
    let span = Span::new(start, start + 1);
    CallArg {
        name: None,
        value: Expr {
            kind: ExprKind::Literal(Literal::Na),
            span,
        },
        span,
    }
}

fn signature(name: &'static str) -> BuiltinSignature {
    BuiltinSignature {
        name,
        params: vec![BuiltinParam {
            name: "id",
            accepts: Accepts::Array,
            optional: false,
        }],
        variadic: false,
    }
}

fn ty(kind: ValueKind) -> Option<PineType> {
    Some(PineType::new(Qualifier::Series, kind))
}

fn messages(diagnostics: &[Diagnostic]) -> Vec<String> {
    diagnostics.iter().map(|d| d.message.clone()).collect()
}

#[test]
fn array_values_must_fit_the_element_kind() {
    let args = [arg(0), arg(10)];
    let mut diagnostics = Vec::new();
    validate_array_value_args(&signature("array.push"), &args, &[ty(ValueKind::IntArray), ty(ValueKind::String)], &mut diagnostics);
    assert_eq!(
        messages(&diagnostics),
        vec!["`array.push` argument `value` expects integer-compatible, got series string".to_owned()]
    );
    assert_eq!(diagnostics[0].span, Span::new(10, 11));

    let mut diagnostics = Vec::new();
    validate_array_value_args(&signature("array.push"), &args, &[ty(ValueKind::FloatArray), ty(ValueKind::Int)], &mut diagnostics);
    validate_array_value_args(&signature("array.push"), &args, &[ty(ValueKind::BoolArray), ty(ValueKind::Na)], &mut diagnostics);
    validate_array_value_args(&signature("array.pop"), &args, &[ty(ValueKind::BoolArray), ty(ValueKind::Int)], &mut diagnostics);
    assert!(diagnostics.is_empty());

    let args = [arg(0), arg(10), arg(20)];
    validate_array_value_args(&signature("array.set"), &args, &[ty(ValueKind::ColorArray), None, ty(ValueKind::Float)], &mut diagnostics);
    assert_eq!(diagnostics[0].span, Span::new(20, 21));
}

#[test]
fn concatenated_arrays_must_share_a_kind() {
    let args = [arg(0), arg(10)];
    let mut diagnostics = Vec::new();
    validate_array_concat_args(&signature("array.concat"), &args, &[ty(ValueKind::IntArray), ty(ValueKind::FloatArray)], &mut diagnostics);
    assert_eq!(
        messages(&diagnostics),
        vec!["`array.concat` argument `id2` expects series array<int>, got series array<float>".to_owned()]
    );
}

#[test]
fn user_type_array_values_must_be_of_the_array_type() {
    let args = [arg(0), arg(10)];
    let udt_array = ty(ValueKind::UserTypeArray);
    let mut diagnostics = Vec::new();
    validate_user_type_array_value_args(&signature("array.push"), &args, &[udt_array, ty(ValueKind::Int)], None, None, &mut diagnostics);
    validate_user_type_array_value_args(&signature("array.push"), &args, &[udt_array, ty(ValueKind::UserType)], Some("Point"), Some("Marker"), &mut diagnostics);
    validate_user_type_array_value_args(&signature("array.push"), &args, &[udt_array, ty(ValueKind::UserType)], Some("Point"), Some("Point"), &mut diagnostics);
    assert_eq!(
        messages(&diagnostics),
        vec![
            "`array.push` argument `value` does not accept Series Int for UDT arrays".to_owned(),
            "`array.push` argument `value` expects UDT `Point`, got `Marker`".to_owned(),
        ]
    );
}

#[test]
fn user_type_arrays_concatenate_only_with_their_own_type() {
    let args = [arg(0), arg(10)];
    let udt_array = ty(ValueKind::UserTypeArray);
    let mut diagnostics = Vec::new();
    validate_user_type_array_concat_args(&signature("array.concat"), &args, &[udt_array, udt_array], Some("Point"), Some("Marker"), &mut diagnostics);
    assert_eq!(
        messages(&diagnostics),
        vec!["`array.concat` argument `id2` expects UDT array `Point`, got `Marker`".to_owned()]
    );
}

#[test]
fn other_array_helpers_refuse_user_type_arrays() {
    let args = [arg(0), arg(10)];
    let mut diagnostics = Vec::new();
    validate_user_type_array_helper_args(&signature("array.sort"), &args, &[None, ty(ValueKind::UserTypeArray)], &mut diagnostics);
    assert_eq!(diagnostics.len(), 1);
    assert_eq!(diagnostics[0].span, Span::new(10, 11));
    assert!(diagnostics[0].message.starts_with("`array.*` helper does not support UDT arrays except `array.size`"));
    let mut diagnostics = Vec::new();
    validate_user_type_array_helper_args(&signature("array.get"), &args, &[ty(ValueKind::UserTypeArray)], &mut diagnostics);
    validate_user_type_array_helper_args(&signature("math.max"), &args, &[ty(ValueKind::UserTypeArray)], &mut diagnostics);
    assert!(diagnostics.is_empty());
}

#[test]
fn array_from_needs_one_element_kind() {
    let args = [arg(0), arg(10)];
    let types = [ty(ValueKind::Int), ty(ValueKind::Bool)];
    let mut diagnostics = Vec::new();
    validate_array_from_args(&signature("array.from"), &args, &types, false, &None, &mut diagnostics);
    validate_array_from_args(&signature("array.from"), &args, &[ty(ValueKind::Int), None], false, &None, &mut diagnostics);
    validate_array_from_args(
        &signature("array.from"),
        &args,
        &types,
        false,
        &Some(UserTypeArrayElementInference::MixedLocal),
        &mut diagnostics,
    );
    validate_array_from_args(
        &signature("array.from"),
        &args,
        &types,
        false,
        &Some(UserTypeArrayElementInference::SameScalarLocal("Point".to_owned())),
        &mut diagnostics,
    );
    validate_array_from_args(&signature("array.from"), &args, &types, true, &None, &mut diagnostics);
    assert_eq!(
        messages(&diagnostics),
        vec![
            "`array.from` expects one supported array element kind, got series int and series bool".to_owned(),
            "`array.from` arguments must infer one supported array element kind".to_owned(),
            "`array.from` expects one scalar-tree UDT identity, got mixed UDT identities".to_owned(),
        ]
    );
}

#[test]
fn concatenated_matrices_must_share_a_kind() {
    let args = [arg(0), arg(10)];
    let mut diagnostics = Vec::new();
    validate_matrix_concat_args(&signature("matrix.concat"), &args, &[ty(ValueKind::FloatMatrix), ty(ValueKind::IntMatrix)], &mut diagnostics);
    validate_matrix_concat_args(&signature("matrix.concat"), &args, &[ty(ValueKind::FloatMatrix), ty(ValueKind::FloatMatrix)], &mut diagnostics);
    validate_matrix_concat_args(&signature("matrix.concat"), &args, &[ty(ValueKind::FloatMatrix), ty(ValueKind::FloatArray)], &mut diagnostics);
    assert_eq!(
        messages(&diagnostics),
        vec!["`matrix.concat` argument `id2` expects series matrix<float>, got series matrix<int>".to_owned()]
    );
}
