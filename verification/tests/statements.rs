use pine_sema::compatibility::CompatibilityReport;
use pine_sema::expr_analysis::ExprKnowledge;
use pine_sema::field_mutations::UdtReceiver;
use pine_sema::user_types::{SourceId, UserTypeFieldInfo, UserTypeIdentity, UserTypeInfo};
use pine_sema::statements::{analyze_stmt, analyze_stmts, AnalyzerState};
use pine_sema::syntax::{Expr, ExprKind, Literal, Span, Stmt, StmtKind, UserTypeDecl};
use pine_sema::types::{PineType, Qualifier, ValueKind};

fn span(s: usize) -> Span {
    Span::new(s, s + 1)
}

fn state() -> AnalyzerState {
    AnalyzerState {
        diagnostics: Vec::new(),
        compatibility: CompatibilityReport::default(),
        block_depth: 0,
        loop_depth: 0,
        function_depth: 0,
        expr_depth: 0,
        scopes: vec![Vec::new()],
        function_stack: Vec::new(),
    }
}

fn known(types: &[(Span, PineType)]) -> ExprKnowledge {
    ExprKnowledge { types: types.to_vec(), builtins: Vec::new(), same_udt_ternaries: Vec::new(), tuples: Vec::new(), user_types: Vec::new(), udt_receivers: Vec::new(), value_user_types: Vec::new(), callables: Vec::new() }
}

fn number(v: i64, s: usize) -> Expr {
    Expr { kind: ExprKind::Literal(Literal::Int(v)), span: span(s) }
}

fn name(n: &str, s: usize) -> Expr {
    Expr { kind: ExprKind::Identifier(n.to_string()), span: span(s) }
}

fn stmt(kind: StmtKind, s: usize) -> Stmt {
    Stmt { kind, span: span(s) }
}

fn messages(st: &AnalyzerState) -> Vec<String> {
    st.diagnostics.iter().map(|d| d.message.clone()).collect()
}

fn features(st: &AnalyzerState) -> Vec<String> {
    st.compatibility.supported.iter().map(|f| f.feature.clone()).collect()
}

#[test]
fn loop_control_outside_loops_is_reported() {
    let mut st = state();
    analyze_stmt(&mut st, &known(&[]), &stmt(StmtKind::Break, 0));
    let looped = stmt(StmtKind::While { condition: name("ok", 10), body: vec![stmt(StmtKind::Continue, 11)] }, 9);
    let k = known(&[(span(10), PineType::new(Qualifier::Const, ValueKind::Bool))]);
    analyze_stmt(&mut st, &k, &looped);
    assert_eq!(messages(&st), vec!["`break` can only be used inside a loop".to_string()]);
    assert_eq!(features(&st), vec!["while".to_string()]);
    assert_eq!((st.block_depth, st.loop_depth, st.scopes.len()), (0, 0, 1));
    assert_eq!(st.compatibility.language_version, Some(1));
}

#[test]
fn conditions_and_ranges_are_typed() {
    let mut st = state();
    let branch = stmt(
        StmtKind::If {
            condition: number(1, 1),
            then_branch: vec![stmt(StmtKind::UserType(UserTypeDecl { name: "P".to_string(), name_span: span(3), fields: Vec::new() }), 2)],
            else_branch: Vec::new(),
        },
        0,
    );
    let range = stmt(
        StmtKind::For { variable: "i".to_string(), from: number(0, 21), to: name("limit", 22), step: Some(number(0, 23)), body: Vec::new() },
        20,
    );
    let k = known(&[(span(22), PineType::new(Qualifier::Series, ValueKind::Float))]);
    analyze_stmts(&mut st, &k, &vec![branch, range]);
    assert_eq!(
        messages(&st),
        vec![
            "condition must be bool, got Const Int".to_string(),
            "user-defined type declarations must be top-level".to_string(),
            "for loop range must be int, got Series Float".to_string(),
            "for loop step cannot be zero".to_string(),
        ]
    );
    assert_eq!(features(&st), vec!["if".to_string(), "user-defined types".to_string(), "for".to_string()]);
    assert_eq!((st.block_depth, st.loop_depth, st.function_depth, st.scopes.len()), (0, 0, 0, 1));
}

#[test]
fn unsupported_statements_are_refused() {
    let mut st = state();
    st.function_depth = 1;
    let k = known(&[]);
    analyze_stmt(&mut st, &k, &stmt(StmtKind::Export("f".to_string()), 0));
    analyze_stmt(&mut st, &k, &stmt(StmtKind::Function { name: "g".to_string(), params: Vec::new(), body: Vec::new() }, 1));
    analyze_stmt(&mut st, &k, &stmt(StmtKind::Import("lib".to_string()), 2));
    let refused: Vec<String> = st.compatibility.unsupported.iter().map(|u| u.feature.clone()).collect();
    assert_eq!(refused, vec!["export".to_string(), "block_local_function".to_string()]);
    assert_eq!(st.compatibility.unsupported[1].reason, "nested function declarations are not supported");
    assert_eq!(features(&st), vec!["import".to_string()]);
    assert_eq!(st.diagnostics.len(), 2);
}

#[test]
fn declarations_and_reassignments_use_the_scopes() {
    let mut st = state();
    let void = PineType::new(Qualifier::Series, ValueKind::Void);
    let k = known(&[(span(1), void), (span(11), PineType::new(Qualifier::Const, ValueKind::Bool))]);
    let decl = stmt(StmtKind::Decl { name: "x".to_string(), value: name("f", 1) }, 0);
    let branch = stmt(
        StmtKind::If {
            condition: name("ok", 11),
            then_branch: vec![stmt(StmtKind::Decl { name: "inner".to_string(), value: number(2, 13) }, 12)],
            else_branch: Vec::new(),
        },
        10,
    );
    let reassign_outer = stmt(StmtKind::Reassign { name: "x".to_string(), value: number(3, 21) }, 20);
    let reassign_inner = stmt(StmtKind::Reassign { name: "inner".to_string(), value: number(3, 31) }, 30);
    analyze_stmts(&mut st, &k, &vec![decl, branch, reassign_outer, reassign_inner]);
    assert_eq!(
        messages(&st),
        vec![
            "declarations must be initialized with a value-producing expression".to_string(),
            "cannot reassign unknown symbol `inner`".to_string(),
        ]
    );
    assert_eq!(st.diagnostics[1].code, "E_UNKNOWN_SYMBOL");
    assert_eq!(st.scopes.len(), 1);
    assert_eq!(st.scopes[0].len(), 1);
    assert_eq!(st.scopes[0][0].0, "x");
}

#[test]
fn reassigning_globals_inside_functions_is_refused() {
    let mut st = state();
    let k = known(&[]);
    analyze_stmt(&mut st, &k, &stmt(StmtKind::Decl { name: "total".to_string(), value: number(0, 1) }, 0));
    assert_eq!(st.scopes[0][0].1, Some(PineType::new(Qualifier::Const, ValueKind::Int)));
    st.function_depth = 1;
    st.scopes.push(Vec::new());
    analyze_stmt(&mut st, &k, &stmt(StmtKind::Reassign { name: "total".to_string(), value: number(1, 3) }, 2));
    assert_eq!(st.compatibility.unsupported.len(), 1);
    assert_eq!(
        st.compatibility.unsupported[0].reason,
        "reassigning global variables inside user-defined functions is not supported"
    );
}

#[test]
fn expression_statements_are_analyzed() {
    let mut st = state();
    let k = known(&[]);
    let history = Expr { kind: ExprKind::History { expr: Box::new(number(1, 1)), offset: Box::new(number(-2, 2)) }, span: span(3) };
    analyze_stmt(&mut st, &k, &stmt(StmtKind::Expr(history), 0));
    assert_eq!(st.compatibility.unsupported[0].feature, "negative_history_offset");
}

fn tuple_known() -> ExprKnowledge {
    let int = PineType::new(Qualifier::Series, ValueKind::Int);
    let float = PineType::new(Qualifier::Series, ValueKind::Float);
    let tuple = PineType::new(Qualifier::Series, ValueKind::Tuple);
    ExprKnowledge {
        types: vec![(span(5), tuple), (span(6), float)],
        builtins: Vec::new(),
        same_udt_ternaries: Vec::new(),
        tuples: vec![(span(5), vec![int, float])],
        user_types: Vec::new(),
        udt_receivers: Vec::new(),
        value_user_types: Vec::new(),
        callables: Vec::new(),
    }
}

fn tuple_decl(names: &[&str], value: Expr) -> Stmt {
    stmt(StmtKind::TupleDecl { names: names.iter().map(|n| n.to_string()).collect(), value }, 2)
}

#[test]
fn tuple_declarations_bind_each_element() {
    let mut st = state();
    analyze_stmt(&mut st, &tuple_known(), &tuple_decl(&["a", "b"], name("pair", 5)));
    assert!(st.diagnostics.is_empty());
    assert_eq!(
        st.scopes[0],
        vec![
            ("a".to_string(), Some(PineType::new(Qualifier::Series, ValueKind::Int))),
            ("b".to_string(), Some(PineType::new(Qualifier::Series, ValueKind::Float))),
        ]
    );
}

#[test]
fn tuple_declarations_check_arity_and_shape() {
    let mut st = state();
    analyze_stmt(&mut st, &tuple_known(), &tuple_decl(&["a"], name("pair", 5)));
    assert_eq!(messages(&st), vec!["tuple assignment expects 1 value(s), got 2".to_string()]);
    assert_eq!((st.diagnostics[0].code.as_str(), st.diagnostics[0].span), ("E_TUPLE_ARITY", span(2)));
    assert!(st.scopes[0].is_empty());

    let mut st = state();
    analyze_stmt(&mut st, &tuple_known(), &tuple_decl(&["a", "b"], name("x", 6)));
    assert_eq!(messages(&st), vec!["tuple assignment requires a tuple value".to_string()]);
    assert_eq!((st.diagnostics[0].code.as_str(), st.diagnostics[0].span), ("E_TUPLE_TYPE", span(6)));

    let mut st = state();
    analyze_stmt(&mut st, &tuple_known(), &tuple_decl(&["a", "b"], name("unknown", 7)));
    assert_eq!(messages(&st), vec!["unknown symbol `unknown`".to_string()]);
    assert!(st.scopes[0].is_empty());
}

fn field_stmt(receiver: &str, field: &str, value: Expr) -> Stmt {
    stmt(StmtKind::FieldReassign { receiver: receiver.to_string(), field: field.to_string(), value }, 3)
}

fn codes(st: &AnalyzerState) -> Vec<String> {
    st.diagnostics.iter().map(|d| d.code.clone()).collect()
}

fn box_knowledge(value_type: PineType) -> ExprKnowledge {
    let series_udt = PineType::new(Qualifier::Series, ValueKind::UserType);
    ExprKnowledge {
        types: vec![(span(8), value_type)],
        builtins: Vec::new(),
        same_udt_ternaries: Vec::new(),
        tuples: Vec::new(),
        user_types: vec![UserTypeInfo {
            identity: UserTypeIdentity { source_id: SourceId { index: 0 }, name: "Box".to_string() },
            name: "Box".to_string(),
            fields: vec![
                UserTypeFieldInfo { name: "inner".to_string(), pine_type: series_udt, user_type_name: Some("Inner".to_string()) },
                UserTypeFieldInfo { name: "width".to_string(), pine_type: PineType::new(Qualifier::Series, ValueKind::Float), user_type_name: None },
            ],
        }],
        udt_receivers: vec![UdtReceiver { span: span(3), udt_name: "Box".to_string(), qualifier: Qualifier::Series, is_param: false }],
        value_user_types: Vec::new(),
        callables: Vec::new(),
    }
}

#[test]
fn field_mutation_of_unknown_receiver_inside_function_is_refused() {
    let mut st = state();
    st.function_depth = 1;
    st.function_stack = vec!["f".to_string()];
    analyze_stmt(&mut st, &known(&[]), &field_stmt("p", "x", number(1, 4)));
    assert_eq!(codes(&st), vec!["E_UNKNOWN_SYMBOL".to_string(), "E_UNSUPPORTED_FEATURE".to_string()]);
    assert_eq!(
        messages(&st),
        vec![
            "cannot reassign unknown symbol `p`".to_string(),
            "`function_side_effect` is not supported: mutating object fields inside user-defined functions or methods is not supported".to_string(),
        ]
    );
    assert_eq!(st.compatibility.unsupported.len(), 1);
}

#[test]
fn chart_point_fields_can_be_mutated_at_top_level() {
    let mut st = state();
    st.scopes[0].push(("pt".to_string(), Some(PineType::new(Qualifier::Series, ValueKind::ChartPoint))));
    analyze_stmt(&mut st, &known(&[]), &field_stmt("pt", "price", number(1, 4)));
    assert!(st.diagnostics.is_empty());
    assert_eq!(features(&st), vec!["chart.point field mutation".to_string()]);
    analyze_stmt(&mut st, &known(&[]), &field_stmt("pt", "colour", number(1, 4)));
    assert_eq!(codes(&st), vec!["E_CHART_POINT_UNKNOWN_FIELD".to_string(), "E_UDT_FIELD_MUTATION".to_string()]);
}

#[test]
fn user_type_field_mutations_check_the_value_and_the_context() {
    let series_udt = PineType::new(Qualifier::Series, ValueKind::UserType);
    let k = box_knowledge(series_udt);
    let mut st = state();
    st.scopes[0].push(("b".to_string(), Some(series_udt)));
    analyze_stmt(&mut st, &k, &field_stmt("b", "inner", name("other", 8)));
    assert_eq!(
        messages(&st),
        vec!["cannot assign series user-defined type to `b.inner` of user-defined type `Inner`".to_string()]
    );
    assert_eq!(features(&st), vec!["user-defined type field mutation".to_string()]);

    let mut st = state();
    st.scopes[0].push(("b".to_string(), Some(series_udt)));
    analyze_stmt(&mut st, &k, &field_stmt("b", "depth", name("other", 8)));
    assert_eq!(messages(&st), vec!["unknown field `depth` on `Box`".to_string()]);

    let mut st = state();
    st.function_depth = 1;
    st.function_stack = vec!["f".to_string()];
    st.scopes[0].push(("b".to_string(), Some(series_udt)));
    analyze_stmt(&mut st, &k, &field_stmt("b", "width", number(2, 8)));
    assert_eq!(
        messages(&st),
        vec!["`function_side_effect` is not supported: mutating fields on global user-defined type values inside user-defined functions is not supported".to_string()]
    );

    let mut st = state();
    st.function_depth = 1;
    st.function_stack = vec!["f".to_string()];
    st.scopes.push(vec![("b".to_string(), Some(series_udt))]);
    analyze_stmt(&mut st, &k, &field_stmt("b", "width", number(2, 8)));
    assert!(st.diagnostics.is_empty());
    assert_eq!(features(&st), vec!["user-defined type field mutation".to_string()]);

    let mut st = state();
    st.function_depth = 1;
    st.function_stack = vec!["method:Box.grow".to_string()];
    st.scopes.push(vec![("b".to_string(), Some(series_udt))]);
    analyze_stmt(&mut st, &k, &field_stmt("b", "width", number(2, 8)));
    assert_eq!(
        messages(&st),
        vec!["`function_side_effect` is not supported: mutating user-defined type fields inside methods is not supported".to_string()]
    );
}

#[test]
fn every_refused_feature_is_reported_at_its_span() {
    let mut st = state();
    st.function_depth = 1;
    st.function_stack = vec!["f".to_string()];
    let log_call = Expr {
        kind: ExprKind::Call { callee: Box::new(name("log.info", 41)), args: Vec::new() },
        span: span(42),
    };
    let history = Expr { kind: ExprKind::History { expr: Box::new(number(1, 43)), offset: Box::new(number(-1, 44)) }, span: span(45) };
    let stmts = vec![
        stmt(StmtKind::Export("f".to_string()), 40),
        stmt(StmtKind::Expr(log_call), 46),
        stmt(StmtKind::Expr(history), 47),
        field_stmt("p", "x", number(1, 4)),
        stmt(StmtKind::Unsupported { feature: "varip".to_string() }, 48),
    ];
    analyze_stmts(&mut st, &known(&[]), &stmts);
    assert_eq!(st.compatibility.unsupported.len(), 5);
    for refused in &st.compatibility.unsupported {
        let expected = format!("`{}` is not supported: {}", refused.feature, refused.reason);
        assert!(st
            .diagnostics
            .iter()
            .any(|d| d.code == "E_UNSUPPORTED_FEATURE" && d.span == refused.span && d.message == expected));
    }
}
