use pine_sema::imported_user_types::{
    imported_user_type_constructor_arg_plan, imported_user_type_constructor_has_scalar_fields,
    imported_user_type_constructor_metadata, imported_user_type_has_scalar_fields,
    ImportedUdtConstructorArgError, ImportedUdtConstructorArgPlan, ImportedUserTypeFieldInfo,
    ImportedUserTypeInfo,
};
use pine_sema::syntax::{CallArg, Expr, ExprKind, Span};
use pine_sema::types::{PineType, Qualifier, ValueKind};
use pine_sema::user_types::{SourceId, UserTypeIdentity};

fn imported_type(source_id: SourceId, name: &str, fields: Vec<ImportedUserTypeFieldInfo>) -> ImportedUserTypeInfo {
    ImportedUserTypeInfo {
        identity: UserTypeIdentity { source_id, name: name.to_owned() },
        fields,
        span: Span::new(100, 140),
    }
}

fn imported_field(name: &str, field_type: &str, pine_type: Option<PineType>) -> ImportedUserTypeFieldInfo {
    ImportedUserTypeFieldInfo { name: name.to_owned(), field_type: field_type.to_owned(), pine_type, span: Span::new(120, 130) }
}

fn call_arg(name: Option<&str>, value_name: &str) -> CallArg {
    CallArg {
        name: name.map(str::to_owned),
        value: Expr { kind: ExprKind::Identifier(value_name.to_owned()), span: Span::new(1, 2) },
        span: Span::new(1, 2),
    }
}

fn library_source() -> SourceId {
    SourceId::library(0)
}

fn point_library() -> Vec<(String, ImportedUserTypeInfo)> {
    vec![(
        "lib.Point".to_owned(),
        imported_type(
            library_source(),
            "Point",
            vec![
                imported_field("x", "float", Some(PineType::new(Qualifier::Series, ValueKind::Float))),
                imported_field("label", "string", Some(PineType::new(Qualifier::Series, ValueKind::String))),
            ],
        ),
    )]
}

#[test]
fn imported_constructor_metadata_is_found_by_qualified_name() {
    let imported = point_library();
    let point = imported_user_type_constructor_metadata(&imported, "lib.Point.new").expect("imported UDT constructor metadata");
    assert_eq!(point.identity.source_id, library_source());
    assert_eq!(point.identity.name, "Point");
    assert!(imported_user_type_constructor_metadata(&imported, "Point.new").is_none());
    assert!(imported_user_type_constructor_metadata(&imported, "lib.Point").is_none());
}

#[test]
fn plans_imported_user_type_constructor_args_without_accepting_it() {
    let imported = point_library();
    let plan = |args: &[CallArg]| imported_user_type_constructor_arg_plan(&imported, "lib.Point.new", args, true);
    assert_eq!(
        plan(&[call_arg(None, "close"), call_arg(Some("label"), "name")]),
        Some(Ok(ImportedUdtConstructorArgPlan { scalar_fields: true, field_arg_indices: vec![0, 1] }))
    );
    assert_eq!(
        plan(&[call_arg(Some("label"), "name"), call_arg(Some("x"), "close")]),
        Some(Ok(ImportedUdtConstructorArgPlan { scalar_fields: true, field_arg_indices: vec![1, 0] }))
    );
    assert_eq!(
        plan(&[call_arg(Some("label"), "name")]),
        Some(Err(ImportedUdtConstructorArgError::MissingField("x".to_owned())))
    );
    assert_eq!(
        plan(&[call_arg(Some("missing"), "close")]),
        Some(Err(ImportedUdtConstructorArgError::UnknownField("missing".to_owned())))
    );
    assert_eq!(
        plan(&[call_arg(Some("x"), "close"), call_arg(Some("x"), "open")]),
        Some(Err(ImportedUdtConstructorArgError::DuplicateField("x".to_owned())))
    );
    assert_eq!(
        plan(&[call_arg(Some("x"), "close"), call_arg(None, "name")]),
        Some(Err(ImportedUdtConstructorArgError::PositionalAfterNamed))
    );
    assert_eq!(
        plan(&[call_arg(None, "close"), call_arg(None, "name"), call_arg(None, "extra")]),
        Some(Err(ImportedUdtConstructorArgError::TooManyArgs { expected: 2, actual: 3 }))
    );
    assert_eq!(imported_user_type_constructor_arg_plan(&imported, "lib.Other.new", &[], true), None);
}

#[test]
fn resolves_imported_user_type_constructor_metadata_without_accepting_it() {
    let imported = vec![(
        "lib.Point".to_owned(),
        imported_type(
            SourceId::library(0),
            "Point",
            vec![imported_field("x", "float", Some(PineType::new(Qualifier::Series, ValueKind::Float)))],
        ),
    )];

    let point = imported_user_type_constructor_metadata(&imported, "lib.Point.new").expect("imported UDT constructor metadata");

    assert_eq!(point.identity.source_id, SourceId::library(0));
    assert_eq!(point.identity.name, "Point");
    assert!(imported_user_type_has_scalar_fields(point));
    assert_eq!(imported_user_type_constructor_has_scalar_fields(&imported, "lib.Point.new"), Some(true));
    assert!(imported_user_type_constructor_metadata(&imported, "Point.new").is_none());
    assert!(imported_user_type_constructor_metadata(&imported, "lib.Point").is_none());
}

#[test]
fn detects_imported_user_type_constructor_with_deferred_field_family() {
    let imported = vec![(
        "lib.Wrapper".to_owned(),
        imported_type(SourceId::library(1), "Wrapper", vec![imported_field("nested", "Other", None)]),
    )];

    let wrapper = imported_user_type_constructor_metadata(&imported, "lib.Wrapper.new").expect("imported UDT constructor metadata");

    assert!(!imported_user_type_has_scalar_fields(wrapper));
    let scalar_fields = imported_user_type_constructor_has_scalar_fields(&imported, "lib.Wrapper.new");
    assert_eq!(scalar_fields, Some(false));
    assert_eq!(
        imported_user_type_constructor_arg_plan(&imported, "lib.Wrapper.new", &[call_arg(Some("nested"), "value")], scalar_fields.unwrap()),
        Some(Ok(ImportedUdtConstructorArgPlan { scalar_fields: false, field_arg_indices: vec![0] }))
    );
}
