use pine_sema::syntax::{Expr, ExprKind, Span};
use pine_sema::types::{PineType, Qualifier, ValueKind};
use pine_sema::user_type_marks::{
    expr_user_type_array_name, expr_user_type_identity, expr_user_type_name, mark_expr_user_type,
    mark_expr_user_type_array, mark_symbol_id_user_type, mark_symbol_user_type,
    mark_symbol_user_type_array, symbol_user_type_identity, symbol_user_type_name,
    user_type_array_name_of_expr, UserTypeMarks,
};
use pine_sema::user_types::{SourceId, UserTypeFieldInfo, UserTypeIdentity, UserTypeInfo};

fn field(name: &str, kind: ValueKind) -> UserTypeFieldInfo {
    UserTypeFieldInfo { name: name.to_owned(), pine_type: PineType::new(Qualifier::Series, kind), user_type_name: None }
}

fn scalar_type(name: &str) -> UserTypeInfo {
    UserTypeInfo {
        identity: UserTypeIdentity { source_id: SourceId::root(), name: name.to_owned() },
        name: name.to_owned(),
        fields: vec![
            field("x", ValueKind::Float),
            field("label", ValueKind::String),
            field("active", ValueKind::Bool),
            field("shade", ValueKind::Color),
        ],
    }
}

fn identifier(name: &str, span: Span) -> Expr {
    Expr { kind: ExprKind::Identifier(name.to_owned()), span }
}

fn qualified_name(name: &str, span: Span) -> Expr {
    Expr { kind: ExprKind::QualifiedName(vec![name.to_owned()]), span }
}

#[test]
fn mirrors_user_type_identity_for_symbols_and_expr_spans() {
    let user_types = vec![scalar_type("Point")];
    let mut marks = UserTypeMarks::new();
    let symbol = 7;

    mark_symbol_user_type(&mut marks, &user_types, symbol, "Point".to_owned());
    mark_expr_user_type(&mut marks, &user_types, Span::new(10, 20), "Point".to_owned());

    let symbol_identity = symbol_user_type_identity(&marks, symbol).expect("symbol UDT identity");
    assert_eq!(symbol_identity.source_id, SourceId::root());
    assert_eq!(symbol_identity.name, "Point");

    let expr = identifier("point", Span::new(10, 20));
    let expr_identity = expr_user_type_identity(&marks, &expr).expect("expr UDT identity");
    assert_eq!(expr_identity.source_id, SourceId::root());
    assert_eq!(expr_identity.name, "Point");
    assert_eq!(expr_user_type_name(&marks, &expr), Some("Point".to_owned()));
}

#[test]
fn mirrors_user_type_identity_when_marking_symbol_id_for_lowering() {
    let user_types = vec![scalar_type("Point")];
    let mut marks = UserTypeMarks::new();
    let symbol = 12;

    mark_symbol_id_user_type(&mut marks, &user_types, symbol, "Point".to_owned());

    assert_eq!(symbol_user_type_name(&marks, symbol), Some("Point".to_owned()));
    let identity = symbol_user_type_identity(&marks, symbol).expect("lowered symbol UDT identity");
    assert_eq!(identity.source_id, SourceId::root());
    assert_eq!(identity.name, "Point");
}

#[test]
fn tracks_user_type_array_names_for_symbols_and_expr_spans() {
    let mut marks = UserTypeMarks::new();
    let symbol = 3;
    let scope = vec![("points".to_owned(), symbol)];
    mark_symbol_user_type_array(&mut marks, symbol, "Point".to_owned());

    assert_eq!(
        user_type_array_name_of_expr(&marks, &scope, &identifier("points", Span::new(1, 7))),
        Some("Point".to_owned())
    );
    assert_eq!(
        user_type_array_name_of_expr(&marks, &scope, &qualified_name("points", Span::new(10, 16))),
        Some("Point".to_owned())
    );

    let array_from_expr = identifier("array.from", Span::new(20, 30));
    mark_expr_user_type_array(&mut marks, array_from_expr.span, "Point".to_owned());

    assert_eq!(expr_user_type_array_name(&marks, &array_from_expr), Some("Point".to_owned()));
    assert_eq!(user_type_array_name_of_expr(&marks, &scope, &array_from_expr), Some("Point".to_owned()));

    let concat_expr = identifier("array.concat", Span::new(40, 52));
    mark_expr_user_type_array(&mut marks, concat_expr.span, "Point".to_owned());

    assert_eq!(user_type_array_name_of_expr(&marks, &scope, &concat_expr), Some("Point".to_owned()));
}

#[test]
fn later_marks_replace_earlier_ones_and_unknown_types_get_no_identity() {
    let user_types = vec![scalar_type("Point")];
    let mut marks = UserTypeMarks::new();
    mark_expr_user_type(&mut marks, &user_types, Span::new(0, 1), "Point".to_owned());
    mark_expr_user_type(&mut marks, &user_types, Span::new(0, 1), "lib.Remote".to_owned());
    let expr = identifier("x", Span::new(0, 1));
    assert_eq!(expr_user_type_name(&marks, &expr), Some("lib.Remote".to_owned()));
    assert_eq!(expr_user_type_identity(&marks, &expr).map(|i| i.name), Some("Point".to_owned()));
    assert_eq!(expr_user_type_name(&marks, &identifier("y", Span::new(2, 3))), None);
    assert_eq!(user_type_array_name_of_expr(&marks, &[], &identifier("points", Span::new(5, 6))), None);
}
