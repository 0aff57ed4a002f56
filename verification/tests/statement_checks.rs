use pine_sema::arg_facts::ArgFacts;
use pine_sema::compatibility::{FeatureUse, LegacyEmulation, UnsupportedFeature};
use pine_sema::declarations::unsupported_varip_value_reason;
use pine_sema::expression_checks::{
    merge_branch_types, operator_error, record_bool_to_float_coercion,
    record_numeric_to_bool_coercion,
};
use pine_sema::maps::{declared_map_type_info, MapTypeInfo};
use pine_sema::statement_checks::{
    declaration_persistence, persistence_kind_for_slot, validate_map_value_assignment,
    validate_user_type_array_value_assignment, validate_user_type_field_assignment,
    validate_user_type_value_assignment, DeclMode, PersistenceKind, VarSlotId,
};
use pine_sema::strategy_checks::{validate_strategy_entry_args, validate_strategy_order_call, ScriptMode};
use pine_sema::syntax::{BinaryOp, CallArg, Diagnostic, Expr, ExprKind, Literal, Span};
use pine_sema::types::{PineType, Qualifier, ValueKind};
use pine_sema::unsupported::{
    check_feature_expr, check_feature_name, STRATEGY_UNSUPPORTED_REASON,
    VARIP_DRAWING_UNSUPPORTED_REASON, VARIP_UDT_ARRAY_UNSUPPORTED_REASON,
    VARIP_UDT_UNSUPPORTED_REASON,
};

fn t(qualifier: Qualifier, kind: ValueKind) -> PineType {
    PineType::new(qualifier, kind)
}

fn messages(diagnostics: &[Diagnostic]) -> Vec<String> {
    diagnostics.iter().map(|d| d.message.clone()).collect()
}

struct Persisted {
    result: (PersistenceKind, Option<VarSlotId>),
    next: u32,
    supported: Vec<FeatureUse>,
    report: Vec<UnsupportedFeature>,
    diagnostics: Vec<Diagnostic>,
}

fn persist(mode: DeclMode, kind: ValueKind, scalar_tree: bool, array_name: Option<&str>, allow_na: bool) -> Persisted {
    let mut next = 7;
    let mut supported = Vec::new();
    let mut report = Vec::new();
    let mut diagnostics = Vec::new();
    let result = declaration_persistence(
        mode,
        t(Qualifier::Series, kind),
        scalar_tree,
        array_name,
        allow_na,
        Span::new(3, 9),
        &mut next,
        &mut supported,
        &mut report,
        &mut diagnostics,
    );
    Persisted { result, next, supported, report, diagnostics }
}

#[test]
fn plain_and_var_declarations_persist_as_written() {
    let plain = persist(DeclMode::Normal, ValueKind::Float, false, None, false);
    assert_eq!(plain.result, (PersistenceKind::NotPersistent, None));
    assert_eq!(plain.next, 7);
    let var = persist(DeclMode::Var, ValueKind::Label, false, None, false);
    assert_eq!(var.result, (PersistenceKind::Var, Some(VarSlotId(7))));
    assert_eq!(var.next, 8);
    assert!(var.supported.is_empty() && var.report.is_empty() && var.diagnostics.is_empty());
}

#[test]
fn varip_scalars_are_supported_features() {
    let varip = persist(DeclMode::Varip, ValueKind::Int, false, None, false);
    assert_eq!(varip.result, (PersistenceKind::Varip, Some(VarSlotId(7))));
    assert_eq!(varip.next, 8);
    assert_eq!(varip.supported.len(), 1);
    assert_eq!(varip.supported[0].feature, "varip");
    assert_eq!(varip.supported[0].span, Span::new(3, 9));
}

#[test]
fn varip_refusals_take_no_slot() {
    let cases = [
        (ValueKind::Line, false, None, VARIP_DRAWING_UNSUPPORTED_REASON),
        (ValueKind::UserType, false, None, VARIP_UDT_UNSUPPORTED_REASON),
        (ValueKind::UserTypeArray, false, None, VARIP_UDT_ARRAY_UNSUPPORTED_REASON),
        (ValueKind::Tuple, false, None, unsupported_varip_value_reason(ValueKind::Tuple)),
    ];
    for (kind, scalar_tree, array_name, reason) in cases {
        let refused = persist(DeclMode::Varip, kind, scalar_tree, array_name, false);
        assert_eq!(refused.result, (PersistenceKind::NotPersistent, None));
        assert_eq!(refused.next, 7);
        assert!(refused.supported.is_empty());
        assert_eq!(refused.report.len(), 1);
        assert_eq!(refused.report[0].feature, "varip");
        assert_eq!(refused.report[0].reason, reason);
        assert_eq!(
            messages(&refused.diagnostics),
            vec![format!("`varip` is not supported: {reason}")]
        );
    }
}

#[test]
fn varip_user_types_need_scalar_fields_or_typed_na() {
    assert_eq!(
        persist(DeclMode::Varip, ValueKind::UserType, true, None, false).result,
        (PersistenceKind::Varip, Some(VarSlotId(7)))
    );
    assert_eq!(
        persist(DeclMode::Varip, ValueKind::UserType, false, None, true).result,
        (PersistenceKind::Varip, Some(VarSlotId(7)))
    );
    assert_eq!(
        persist(DeclMode::Varip, ValueKind::UserTypeArray, false, Some("Point"), false).result,
        (PersistenceKind::Varip, Some(VarSlotId(7)))
    );
}

#[test]
fn slots_make_var_persistence() {
    assert_eq!(persistence_kind_for_slot(Some(VarSlotId(2))), PersistenceKind::Var);
    assert_eq!(persistence_kind_for_slot(None), PersistenceKind::NotPersistent);
}

#[test]
fn user_type_assignments_must_keep_the_type() {
    let float = t(Qualifier::Series, ValueKind::Float);
    let udt = t(Qualifier::Series, ValueKind::UserType);
    let na = t(Qualifier::Const, ValueKind::Na);
    let mut diagnostics = Vec::new();
    validate_user_type_field_assignment("p.x", "Point", Some("Point"), udt, Span::new(0, 1), &mut diagnostics);
    assert!(diagnostics.is_empty());
    validate_user_type_field_assignment("p.x", "Point", None, float, Span::new(0, 1), &mut diagnostics);
    assert_eq!(
        messages(&diagnostics),
        vec!["cannot assign series float to `p.x` of user-defined type `Point`".to_string()]
    );
    assert_eq!(diagnostics[0].code, "E_ASSIGN_TYPE");
    let mut diagnostics = Vec::new();
    validate_user_type_value_assignment("p", "Point", None, na, Span::new(0, 1), &mut diagnostics);
    validate_user_type_value_assignment("p", "Point", Some("Pair"), udt, Span::new(0, 1), &mut diagnostics);
    validate_user_type_array_value_assignment("ps", "Point", Some("Pair"), udt, Span::new(0, 1), &mut diagnostics);
    validate_user_type_array_value_assignment("ps", "Point", Some("Point"), udt, Span::new(0, 1), &mut diagnostics);
    assert_eq!(
        messages(&diagnostics),
        vec![
            "cannot assign a different user-defined type to `p`".to_string(),
            "cannot assign a different user-defined type array to `ps`".to_string(),
        ]
    );
    assert!(diagnostics.iter().all(|d| d.code == "E_UDT_ASSIGN_TYPE"));
}

#[test]
fn map_assignments_must_keep_the_template() {
    let info = declared_map_type_info("string", "float").unwrap();
    assert_eq!(info, MapTypeInfo { key_kind: ValueKind::String, value_kind: ValueKind::Float });
    assert_eq!(declared_map_type_info("string", "label"), None);
    let other = declared_map_type_info("int", "float").unwrap();
    let map = t(Qualifier::Series, ValueKind::MapValue);
    let mut diagnostics = Vec::new();
    validate_map_value_assignment("m", info, Some(info), map, Span::new(0, 1), &mut diagnostics);
    validate_map_value_assignment("m", info, None, t(Qualifier::Const, ValueKind::Na), Span::new(0, 1), &mut diagnostics);
    assert!(diagnostics.is_empty());
    validate_map_value_assignment("m", info, Some(other), map, Span::new(0, 1), &mut diagnostics);
    assert_eq!(messages(&diagnostics), vec!["cannot assign a different map template to `m`".to_string()]);
    assert_eq!(diagnostics[0].code, "E_MAP_ASSIGN_TYPE");
}

#[test]
fn feature_names_are_checked_against_the_subset() {
    let mut supported = Vec::new();
    let mut report = Vec::new();
    let mut diagnostics = Vec::new();
    check_feature_name("ta.sma", Span::new(0, 6), true, &mut supported, &mut report, &mut diagnostics);
    check_feature_name("strategy.order", Span::new(7, 9), false, &mut supported, &mut report, &mut diagnostics);
    check_feature_name("table.cell", Span::new(10, 12), false, &mut supported, &mut report, &mut diagnostics);
    check_feature_name("my_function", Span::new(13, 14), false, &mut supported, &mut report, &mut diagnostics);
    assert_eq!(supported.len(), 1);
    assert_eq!(supported[0].feature, "ta.sma");
    let refused: Vec<(String, String)> = report.iter().map(|u| (u.feature.clone(), u.reason.clone())).collect();
    assert_eq!(
        refused,
        vec![
            ("strategy.order".to_string(), STRATEGY_UNSUPPORTED_REASON.to_string()),
            (
                "table.cell".to_string(),
                "this drawing object call is not supported in the current partial drawing subset".to_string()
            ),
        ]
    );
    assert_eq!(diagnostics.len(), 2);
}

#[test]
fn feature_expressions_use_their_dotted_name() {
    let mut supported = Vec::new();
    let mut report = Vec::new();
    let mut diagnostics = Vec::new();
    let name = Expr {
        kind: ExprKind::QualifiedName(vec!["request".to_string(), "seed".to_string()]),
        span: Span::new(1, 5),
    };
    check_feature_expr(&name, false, &mut supported, &mut report, &mut diagnostics);
    assert_eq!(report.len(), 1);
    assert_eq!(report[0].feature, "request.seed");
    assert_eq!(report[0].span, Span::new(1, 5));
    let literal = Expr { kind: ExprKind::Literal(Literal::Int(1)), span: Span::new(0, 1) };
    check_feature_expr(&literal, true, &mut supported, &mut report, &mut diagnostics);
    assert!(supported.is_empty());
    assert_eq!(report.len(), 1);
}

#[test]
fn branch_types_merge_or_report() {
    let mut diagnostics = Vec::new();
    let merged = merge_branch_types(
        t(Qualifier::Simple, ValueKind::Bool),
        t(Qualifier::Const, ValueKind::Int),
        t(Qualifier::Series, ValueKind::Float),
        Span::new(0, 1),
        &mut diagnostics,
    );
    assert_eq!(merged, Some(t(Qualifier::Series, ValueKind::Float)));
    assert!(diagnostics.is_empty());
    let refused = merge_branch_types(
        t(Qualifier::Const, ValueKind::Bool),
        t(Qualifier::Const, ValueKind::String),
        t(Qualifier::Const, ValueKind::Int),
        Span::new(0, 1),
        &mut diagnostics,
    );
    assert_eq!(refused, None);
    assert_eq!(messages(&diagnostics), vec!["ternary branches have incompatible types String and Int".to_string()]);
    assert_eq!(diagnostics[0].code, "E_BRANCH_TYPE");
}

#[test]
fn operator_errors_name_both_operands() {
    let mut diagnostics = Vec::new();
    operator_error(
        BinaryOp::Sub,
        t(Qualifier::Series, ValueKind::String),
        t(Qualifier::Const, ValueKind::Int),
        Span::new(2, 4),
        &mut diagnostics,
    );
    assert_eq!(
        messages(&diagnostics),
        vec!["operator Sub does not accept Series String and Const Int".to_string()]
    );
    assert_eq!(diagnostics[0].code, "E_OPERATOR_TYPE");
}

#[test]
fn legacy_coercions_are_recorded_with_the_version() {
    let mut emulations: Vec<LegacyEmulation> = Vec::new();
    record_bool_to_float_coercion(Span::new(1, 2), 2, &mut emulations);
    record_numeric_to_bool_coercion(Span::new(3, 4), 4, &mut emulations);
    assert_eq!(emulations[0].feature, "v2.bool_arithmetic");
    assert_eq!(
        emulations[0].behavior,
        "Pine v2 boolean arithmetic converts true to 1.0, false to 0.0, and unavailable boolean values to canonical na before applying the numeric operator"
    );
    assert_eq!(emulations[1].feature, "v4.numeric_to_bool");
    assert_eq!(
        emulations[1].behavior,
        "Pine v4 condition conversion treats zero and na as false and every other finite numeric value as true"
    );
    assert_eq!(emulations[1].span, Span::new(3, 4));
}

fn arg(name: Option<&str>, start: usize) -> CallArg {
    let span = Span::new(start, start + 1);
    CallArg {
        name: name.map(str::to_owned),
        value: Expr { kind: ExprKind::Literal(Literal::Na), span },
        span,
    }
}

fn string_fact(value: &str) -> ArgFacts {
    let mut facts = ArgFacts::unknown();
    facts.literal_string = Some(value.to_string());
    facts
}

#[test]
fn strategy_entry_direction_and_quantity() {
    let args = vec![arg(None, 0), arg(None, 2), arg(None, 4)];
    let facts = vec![string_fact("long"), string_fact("strategy.short"), ArgFacts::unknown()];
    let mut diagnostics = Vec::new();
    validate_strategy_entry_args(&args, &facts, &[false, false, true], &mut diagnostics);
    assert_eq!(
        messages(&diagnostics),
        vec![
            "`strategy.entry` argument `direction` only supports strategy.long".to_string(),
            "`strategy.entry` argument `qty` must be positive".to_string(),
        ]
    );
    assert_eq!(diagnostics[0].span, Span::new(2, 3));
    let mut diagnostics = Vec::new();
    let named = vec![arg(Some("qty"), 0), arg(Some("direction"), 2)];
    let facts = vec![ArgFacts::unknown(), string_fact("strategy.long")];
    validate_strategy_entry_args(&named, &facts, &[false, false], &mut diagnostics);
    assert!(diagnostics.is_empty());
}

#[test]
fn strategy_orders_need_a_strategy_script() {
    let mut diagnostics = Vec::new();
    validate_strategy_order_call("strategy.close", Span::new(0, 5), &[], &[], &[], None, &mut diagnostics);
    assert_eq!(
        messages(&diagnostics),
        vec!["`strategy.close` is only supported in scripts declared with strategy(...)".to_string()]
    );
    let mut diagnostics = Vec::new();
    let declared = Some((ScriptMode::Strategy, Span::new(0, 1)));
    validate_strategy_order_call("strategy.close", Span::new(0, 5), &[], &[], &[], declared, &mut diagnostics);
    validate_strategy_order_call("plot", Span::new(0, 5), &[], &[], &[], None, &mut diagnostics);
    assert!(diagnostics.is_empty());
    let args = vec![arg(None, 0), arg(None, 2), arg(None, 4)];
    validate_strategy_order_call("strategy.entry", Span::new(0, 5), &args, &[], &[false, false, true], declared, &mut diagnostics);
    assert_eq!(messages(&diagnostics), vec!["`strategy.entry` argument `qty` must be positive".to_string()]);
}
