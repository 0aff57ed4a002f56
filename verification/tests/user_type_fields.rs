use pine_sema::syntax::{Diagnostic, Span, Stmt, StmtKind, UserTypeDecl, UserTypeFieldDecl};
use pine_sema::types::{PineType, Qualifier, ValueKind};
use pine_sema::user_type_fields::{
    register_user_types, resolve_user_type_field_path, user_type_field, user_type_field_path,
    user_type_field_type, UdtFieldAccessStep,
};
use pine_sema::user_types::{SourceId, UserTypeInfo};

fn field(name: &str, field_type: &str, start: usize) -> UserTypeFieldDecl {
    UserTypeFieldDecl { name: name.to_string(), field_type: field_type.to_string(), span: Span::new(start, start + 2) }
}

fn declare(name: &str, start: usize, fields: Vec<UserTypeFieldDecl>) -> Stmt {
    Stmt {
        kind: StmtKind::UserType(UserTypeDecl { name: name.to_string(), name_span: Span::new(start, start + 1), fields }),
        span: Span::new(start, start + 10),
    }
}

fn messages(diagnostics: &[Diagnostic]) -> Vec<String> {
    diagnostics.iter().map(|d| d.message.clone()).collect()
}

fn registry() -> Vec<UserTypeInfo> {
    let statements = vec![
        declare("Point", 0, vec![field("x", "float", 1), field("y", "float", 4)]),
        declare("Segment", 20, vec![field("from", "Point", 21), field("to", "Point", 24), field("label", "string", 27)]),
    ];
    let mut user_types = Vec::new();
    let mut diagnostics = Vec::new();
    register_user_types(&statements, &mut user_types, &mut diagnostics);
    assert!(diagnostics.is_empty());
    user_types
}

fn names(parts: &[&str]) -> Vec<String> {
    parts.iter().map(|p| p.to_string()).collect()
}

#[test]
fn registration_records_fields_in_order() {
    let user_types = registry();
    assert_eq!(user_types.len(), 2);
    assert_eq!(user_types[1].name, "Segment");
    assert_eq!(user_types[1].identity.name, "Segment");
    assert_eq!(user_types[1].identity.source_id.index, 0);
    let fields: Vec<(String, ValueKind, Option<String>)> = user_types[1]
        .fields
        .iter()
        .map(|f| (f.name.clone(), f.pine_type.kind, f.user_type_name.clone()))
        .collect();
    assert_eq!(
        fields,
        vec![
            ("from".to_string(), ValueKind::UserType, Some("Point".to_string())),
            ("to".to_string(), ValueKind::UserType, Some("Point".to_string())),
            ("label".to_string(), ValueKind::String, None),
        ]
    );
    assert_eq!(user_types[1].fields[2].pine_type.qualifier, Qualifier::Series);
}

#[test]
fn registration_reports_duplicates_and_unknown_field_types() {
    let statements = vec![
        declare("Point", 0, vec![field("x", "float", 1), field("x", "int", 5), field("z", "Unknown", 9), field("x", "bool", 12)]),
        declare("Point", 30, vec![]),
        Stmt { kind: StmtKind::Break, span: Span::new(40, 41) },
    ];
    let mut user_types = Vec::new();
    let mut diagnostics = Vec::new();
    register_user_types(&statements, &mut user_types, &mut diagnostics);
    assert_eq!(
        messages(&diagnostics),
        vec![
            "duplicate field `x` in `Point`".to_string(),
            "unsupported or unknown user-defined type field type `Unknown`".to_string(),
            "duplicate field `x` in `Point`".to_string(),
            "duplicate user-defined type `Point`".to_string(),
        ]
    );
    assert_eq!(diagnostics[0].span, Span::new(1, 7));
    assert_eq!(diagnostics[2].span, Span::new(5, 14));
    assert_eq!(diagnostics[3].span, Span::new(30, 31));
    assert_eq!(diagnostics[0].code, "E_UDT_FIELD_DUPLICATE");
    assert_eq!(diagnostics[1].code, "E_UDT_FIELD_TYPE");
    assert_eq!(diagnostics[3].code, "E_UDT_DUPLICATE");
    assert_eq!(user_types.len(), 1);
    assert_eq!(user_types[0].fields.len(), 1);
}

#[test]
fn a_type_cannot_name_itself_as_a_field_type() {
    let statements = vec![declare("Node", 0, vec![field("next", "Node", 1)])];
    let mut user_types = Vec::new();
    let mut diagnostics = Vec::new();
    register_user_types(&statements, &mut user_types, &mut diagnostics);
    assert_eq!(messages(&diagnostics), vec!["unsupported or unknown user-defined type field type `Node`".to_string()]);
    assert!(user_types[0].fields.is_empty());
}

#[test]
fn fields_are_found_by_name() {
    let user_types = registry();
    let (index, found) = user_type_field(&user_types, "Segment", "label").unwrap();
    assert_eq!(index, 2);
    assert_eq!(found.name, "label");
    assert!(user_type_field(&user_types, "Segment", "width").is_none());
    assert!(user_type_field(&user_types, "Missing", "x").is_none());
}

#[test]
fn field_paths_walk_nested_types() {
    let user_types = registry();
    let (pine_type, udt, steps) =
        user_type_field_path(&user_types, "Segment", Qualifier::Simple, &names(&["to", "y"])).unwrap();
    assert_eq!(pine_type, PineType::new(Qualifier::Simple, ValueKind::Float));
    assert_eq!(udt, None);
    assert_eq!(
        steps,
        vec![
            UdtFieldAccessStep { index: 1, pine_type: PineType::new(Qualifier::Simple, ValueKind::UserType) },
            UdtFieldAccessStep { index: 1, pine_type: PineType::new(Qualifier::Simple, ValueKind::Float) },
        ]
    );
    let (_, udt, _) = user_type_field_path(&user_types, "Segment", Qualifier::Series, &names(&["from"])).unwrap();
    assert_eq!(udt, Some("Point".to_string()));
    assert!(user_type_field_path(&user_types, "Segment", Qualifier::Series, &names(&["label", "x"])).is_none());
    assert!(user_type_field_path(&user_types, "Segment", Qualifier::Series, &[]).is_none());
}

#[test]
fn resolving_a_path_reports_the_first_bad_field() {
    let user_types = registry();
    let mut diagnostics = Vec::new();
    let ok = resolve_user_type_field_path(&user_types, "Segment", Qualifier::Series, &names(&["from", "x"]), Span::new(0, 3), &mut diagnostics);
    assert!(ok.is_some());
    assert!(diagnostics.is_empty());
    let missing = resolve_user_type_field_path(&user_types, "Segment", Qualifier::Series, &names(&["from", "z"]), Span::new(0, 3), &mut diagnostics);
    assert!(missing.is_none());
    let scalar = resolve_user_type_field_path(&user_types, "Segment", Qualifier::Series, &names(&["label", "x"]), Span::new(0, 3), &mut diagnostics);
    assert!(scalar.is_none());
    assert_eq!(
        messages(&diagnostics),
        vec![
            "unknown field `z` on `Point`".to_string(),
            "field `label` on `Segment` is not a user-defined type".to_string(),
        ]
    );
    assert!(diagnostics.iter().all(|d| d.code == "E_UDT_UNKNOWN_FIELD"));
}

#[test]
fn field_types_are_scalars_or_registered_types() {
    let user_types = registry();
    let mut diagnostics = Vec::new();
    assert_eq!(
        user_type_field_type(&user_types, "color", Span::new(0, 1), &mut diagnostics),
        Some((PineType::new(Qualifier::Series, ValueKind::Color), None))
    );
    assert_eq!(
        user_type_field_type(&user_types, "Point", Span::new(0, 1), &mut diagnostics),
        Some((PineType::new(Qualifier::Series, ValueKind::UserType), Some("Point".to_string())))
    );
    assert_eq!(user_type_field_type(&user_types, "label", Span::new(0, 1), &mut diagnostics), None);
    assert_eq!(messages(&diagnostics), vec!["unsupported or unknown user-defined type field type `label`".to_string()]);
}

#[test]
fn registers_local_user_type_identity_as_root_source() {
    // type Point
    //     float x
    let statements = vec![Stmt {
        kind: StmtKind::UserType(UserTypeDecl {
            name: "Point".to_string(),
            name_span: Span::new(5, 10),
            fields: vec![UserTypeFieldDecl {
                name: "x".to_string(),
                field_type: "float".to_string(),
                span: Span::new(15, 22),
            }],
        }),
        span: Span::new(0, 22),
    }];
    let mut user_types: Vec<UserTypeInfo> = Vec::new();
    let mut diagnostics = Vec::new();
    register_user_types(&statements, &mut user_types, &mut diagnostics);

    let point = user_types.iter().find(|t| t.name == "Point").expect("registered UDT");
    assert_eq!(point.identity.source_id, SourceId::root());
    assert_eq!(point.identity.name, "Point");
}
