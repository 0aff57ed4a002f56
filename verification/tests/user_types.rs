use pine_sema::types::{PineType, Qualifier, ValueKind};
use pine_sema::user_types::{
    classify_user_type_array_element_names, find_user_type, SourceId, UserTypeArrayElementInference,
    UserTypeFieldInfo, UserTypeIdentity, UserTypeInfo,
};

fn field(name: &str, kind: ValueKind, user_type_name: Option<&str>) -> UserTypeFieldInfo {
    UserTypeFieldInfo {
        name: name.to_owned(),
        pine_type: PineType::new(Qualifier::Series, kind),
        user_type_name: user_type_name.map(str::to_owned),
    }
}

fn scalar_type(name: &str) -> UserTypeInfo {
    UserTypeInfo {
        identity: UserTypeIdentity {
            source_id: SourceId::root(),
            name: name.to_owned(),
        },
        name: name.to_owned(),
        fields: vec![
            field("x", ValueKind::Float, None),
            field("label", ValueKind::String, None),
            field("active", ValueKind::Bool, None),
            field("shade", ValueKind::Color, None),
        ],
    }
}

#[test]
fn classifies_same_scalar_local_user_type_array_elements() {
    let user_types = vec![scalar_type("Point")];
    assert_eq!(
        classify_user_type_array_element_names(
            &user_types,
            &["Point".to_owned(), "Point".to_owned()],
        ),
        Some(UserTypeArrayElementInference::SameScalarLocal(
            "Point".to_owned()
        ))
    );
}

#[test]
fn classifies_mixed_local_user_type_array_elements() {
    let user_types = vec![scalar_type("Point"), scalar_type("Marker")];
    assert_eq!(
        classify_user_type_array_element_names(
            &user_types,
            &["Point".to_owned(), "Marker".to_owned()],
        ),
        Some(UserTypeArrayElementInference::MixedLocal)
    );
}

#[test]
fn classifies_user_type_array_elements_with_nested_fields() {
    let user_types = vec![
        scalar_type("Point"),
        UserTypeInfo {
            identity: UserTypeIdentity {
                source_id: SourceId::root(),
                name: "Wrapper".to_owned(),
            },
            name: "Wrapper".to_owned(),
            fields: vec![
                field("inner", ValueKind::UserType, Some("Point")),
                field("weight", ValueKind::Float, None),
            ],
        },
    ];

    assert_eq!(
        classify_user_type_array_element_names(
            &user_types,
            &["Wrapper".to_owned(), "Wrapper".to_owned()],
        ),
        Some(UserTypeArrayElementInference::UnsupportedFieldType(
            "Wrapper".to_owned()
        ))
    );
}

#[test]
fn classification_of_no_elements_or_unknown_names_is_none() {
    let user_types = vec![scalar_type("Point")];
    assert_eq!(classify_user_type_array_element_names(&user_types, &[]), None);
    assert_eq!(
        classify_user_type_array_element_names(&user_types, &["Ghost".to_owned()]),
        None
    );
}

#[test]
fn mixed_names_are_reported_before_registration_is_checked() {
    let user_types: Vec<UserTypeInfo> = Vec::new();
    assert_eq!(
        classify_user_type_array_element_names(
            &user_types,
            &["A".to_owned(), "A".to_owned(), "B".to_owned()],
        ),
        Some(UserTypeArrayElementInference::MixedLocal)
    );
}

#[test]
fn a_field_of_an_unsupported_kind_makes_the_type_unsupported() {
    let mut candle = scalar_type("Candle");
    candle.fields.push(field("mark", ValueKind::Label, None));
    let user_types = vec![candle];
    assert_eq!(
        classify_user_type_array_element_names(&user_types, &["Candle".to_owned()]),
        Some(UserTypeArrayElementInference::UnsupportedFieldType(
            "Candle".to_owned()
        ))
    );
}

#[test]
fn finds_the_first_registered_type_by_name() {
    let mut second = scalar_type("Point");
    second.fields.clear();
    let user_types = vec![scalar_type("Other"), scalar_type("Point"), second];
    let found = find_user_type(&user_types, "Point").expect("registered");
    assert_eq!(found.fields.len(), 4);
    assert!(find_user_type(&user_types, "Missing").is_none());
    assert_eq!(SourceId::root().index, 0);
}
