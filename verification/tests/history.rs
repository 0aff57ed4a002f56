use pine_sema::hir::{
    BuiltinHistoryRequirement, BuiltinHistoryTable, BuiltinSeriesRequirement, HirCallArg,
    HirExpr, HirExprKind, HirHistoryOffset, HirHistoryRequirements, HirLiteral,
    HirSeriesHistoryRequirement, HirStmt, HirStmtKind, HirSymbol, HirUnaryOp,
};
use pine_sema::history::{
    constant_hir_int, infer_history_requirements, infer_max_bars_back, max_bars_back_from_expr,
    max_bars_back_from_stmt,
};

fn lit(v: i64) -> HirExpr {
    HirExpr { kind: HirExprKind::Literal(HirLiteral::Int(v)), series_id: None }
}

fn series(symbol: u32, id: u32) -> HirExpr {
    HirExpr { kind: HirExprKind::Symbol(symbol), series_id: Some(id) }
}

fn history(expr: HirExpr, offset: HirHistoryOffset) -> HirExpr {
    HirExpr {
        kind: HirExprKind::History { expr: Box::new(expr), offset },
        series_id: None,
    }
}

fn positional(value: HirExpr) -> HirCallArg {
    HirCallArg { name: None, value }
}

fn named(name: &str, value: HirExpr) -> HirCallArg {
    HirCallArg { name: Some(name.to_string()), value }
}

fn call(callee: &str, args: Vec<HirCallArg>) -> HirExpr {
    HirExpr { kind: HirExprKind::Call { callee: callee.to_string(), args }, series_id: None }
}

fn expr_stmt(expr: HirExpr) -> HirStmt {
    HirStmt { kind: HirStmtKind::Expr(expr) }
}

fn decl(value: HirExpr) -> HirStmt {
    HirStmt { kind: HirStmtKind::Decl { value } }
}

fn table() -> BuiltinHistoryTable {
    BuiltinHistoryTable {
        entries: vec![
            (
                "ta.sma".to_string(),
                BuiltinHistoryRequirement::RequiredLengthOffset { source_arg: 0, length_arg: 1 },
            ),
            (
                "ta.rsi".to_string(),
                BuiltinHistoryRequirement::OptionalLengthOffset {
                    source_arg: 0,
                    length_arg: 1,
                    default_offset: 14,
                },
            ),
            (
                "ta.change".to_string(),
                BuiltinHistoryRequirement::SourceOffset { source_arg: 0, offset: 1 },
            ),
            (
                "ta.cross".to_string(),
                BuiltinHistoryRequirement::Cross { args: 2, offset: 1 },
            ),
            (
                "ta.tr".to_string(),
                BuiltinHistoryRequirement::BuiltinSeries(vec![BuiltinSeriesRequirement {
                    symbol: "close".to_string(),
                    offset: 1,
                }]),
            ),
        ],
    }
}

fn symbols() -> Vec<HirSymbol> {
    vec![
        HirSymbol { name: "close".to_string(), series_id: Some(3) },
        HirSymbol { name: "open".to_string(), series_id: None },
    ]
}

fn requirement(max_constant_offset: u32, has_dynamic_offsets: bool) -> HirHistoryRequirements {
    HirHistoryRequirements { max_constant_offset, has_dynamic_offsets }
}

fn series_requirement(
    series_id: u32,
    max_constant_offset: u32,
    has_dynamic_offsets: bool,
) -> HirSeriesHistoryRequirement {
    HirSeriesHistoryRequirement { series_id, max_constant_offset, has_dynamic_offsets }
}

#[test]
fn constant_int_reads_literals_under_signs() {
    assert_eq!(constant_hir_int(&lit(5)), Some(5));
    let negated = HirExpr {
        kind: HirExprKind::Unary { op: HirUnaryOp::Minus, expr: Box::new(lit(7)) },
        series_id: None,
    };
    assert_eq!(constant_hir_int(&negated), Some(-7));
    let plus = HirExpr {
        kind: HirExprKind::Unary { op: HirUnaryOp::Plus, expr: Box::new(lit(3)) },
        series_id: None,
    };
    assert_eq!(constant_hir_int(&plus), Some(3));
    let not = HirExpr {
        kind: HirExprKind::Unary { op: HirUnaryOp::Not, expr: Box::new(lit(3)) },
        series_id: None,
    };
    assert_eq!(constant_hir_int(&not), None);
    let min = HirExpr {
        kind: HirExprKind::Unary { op: HirUnaryOp::Minus, expr: Box::new(lit(i64::MIN)) },
        series_id: None,
    };
    assert_eq!(constant_hir_int(&min), None);
    assert_eq!(constant_hir_int(&series(0, 1)), None);
}

#[test]
fn history_references_set_program_and_series_requirements() {
    let statements = vec![
        decl(history(series(0, 1), HirHistoryOffset::Constant(5))),
        decl(history(series(0, 1), HirHistoryOffset::Constant(2))),
        expr_stmt(history(series(1, 2), HirHistoryOffset::Dynamic(Box::new(series(0, 1))))),
    ];
    let inferred = infer_history_requirements(&statements, &symbols(), &table());
    assert_eq!(inferred.program, requirement(5, true));
    assert_eq!(
        inferred.series,
        vec![series_requirement(1, 5, false), series_requirement(2, 0, true)]
    );
}

#[test]
fn empty_program_needs_no_history() {
    let inferred = infer_history_requirements(&Vec::new(), &symbols(), &table());
    assert_eq!(inferred.program, requirement(0, false));
    assert!(inferred.series.is_empty());
}

#[test]
fn builtin_lengths_become_look_backs() {
    let statements = vec![
        decl(call("ta.sma", vec![positional(series(0, 4)), positional(lit(20))])),
        decl(call("ta.rsi", vec![positional(series(0, 6))])),
        decl(call("ta.change", vec![positional(series(0, 7))])),
    ];
    let inferred = infer_history_requirements(&statements, &symbols(), &table());
    assert_eq!(inferred.program, requirement(20, false));
    assert_eq!(
        inferred.series,
        vec![
            series_requirement(4, 20, false),
            series_requirement(6, 14, false),
            series_requirement(7, 1, false),
        ]
    );
}

#[test]
fn non_constant_length_is_dynamic_and_non_positive_length_is_ignored() {
    let statements = vec![
        decl(call("ta.sma", vec![positional(series(0, 4)), positional(series(1, 9))])),
        decl(call("ta.rsi", vec![positional(series(0, 6)), positional(lit(0))])),
    ];
    let inferred = infer_history_requirements(&statements, &symbols(), &table());
    assert_eq!(inferred.program, requirement(0, true));
    assert_eq!(inferred.series, vec![series_requirement(4, 0, true)]);
}

#[test]
fn cross_and_builtin_series_requirements() {
    let statements = vec![
        decl(call("ta.cross", vec![positional(series(0, 8)), positional(series(1, 2))])),
        decl(call("ta.tr", Vec::new())),
        decl(call("unknown", vec![positional(history(series(0, 5), HirHistoryOffset::Constant(3)))])),
    ];
    let inferred = infer_history_requirements(&statements, &symbols(), &table());
    assert_eq!(inferred.program, requirement(3, false));
    assert_eq!(
        inferred.series,
        vec![
            series_requirement(2, 1, false),
            series_requirement(3, 1, false),
            series_requirement(5, 3, false),
            series_requirement(8, 1, false),
        ]
    );
}

#[test]
fn program_requirement_covers_every_series() {
    let statements = vec![
        decl(history(series(0, 1), HirHistoryOffset::Constant(9))),
        decl(history(series(0, 2), HirHistoryOffset::Constant(4))),
    ];
    let inferred = infer_history_requirements(&statements, &symbols(), &table());
    for entry in &inferred.series {
        assert!(entry.max_constant_offset <= inferred.program.max_constant_offset);
    }
    assert_eq!(inferred.program.max_constant_offset, 9);
}

#[test]
fn max_bars_back_from_named_indicator_argument() {
    let indicator = call("indicator", vec![positional(lit(0)), named("max_bars_back", lit(500))]);
    assert_eq!(max_bars_back_from_expr(&indicator), Some(500));
    assert_eq!(infer_max_bars_back(&vec![expr_stmt(indicator)]), Some(500));
}

#[test]
fn max_bars_back_from_seventh_positional_argument() {
    let args = (0..7).map(|i| positional(lit(if i == 6 { 300 } else { 1 }))).collect();
    let indicator = call("indicator", args);
    assert_eq!(max_bars_back_from_stmt(&expr_stmt(indicator)), Some(300));
}

#[test]
fn max_bars_back_ignores_negative_and_missing_values() {
    let negative = call("indicator", vec![named("max_bars_back", lit(-1))]);
    assert_eq!(max_bars_back_from_expr(&negative), None);
    let short = call("indicator", vec![positional(lit(1)), positional(lit(2))]);
    assert_eq!(max_bars_back_from_expr(&short), None);
    let other = call("plot", vec![named("max_bars_back", lit(10))]);
    assert_eq!(max_bars_back_from_expr(&other), None);
}

#[test]
fn max_bars_back_found_inside_nested_statements() {
    let indicator = call("indicator", vec![named("max_bars_back", lit(42))]);
    let statement = HirStmt {
        kind: HirStmtKind::If {
            condition: lit(1),
            then_branch: vec![HirStmt { kind: HirStmtKind::Break }],
            else_branch: vec![decl(call("plot", vec![positional(indicator)]))],
        },
    };
    assert_eq!(infer_max_bars_back(&vec![HirStmt { kind: HirStmtKind::Continue }, statement]), Some(42));
}
