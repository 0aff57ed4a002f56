//! How much bar history a lowered program needs: every history reference
//! and every builtin that looks back contributes a look-back event, and the
//! requirements of the program and of each series are the longest constant
//! look-back among its events and whether any look-back is dynamic.
use vstd::prelude::*;

use crate::hir::{
    BuiltinHistoryRequirement, BuiltinHistoryTable, HirCallArg, HirExpr, HirExprKind,
    HirHistoryOffset, HirHistoryRequirements, HirLiteral, HirSeriesHistoryRequirement, HirStmt,
    HirStmtKind, HirSwitchArm, HirSymbol, HirUnaryOp, SeriesId,
};
use crate::strings::str_eq;

verus! {

/// One look-back: the series it reads (if known) and how many bars back,
/// `None` when only known at run time.
#[derive(Clone, Copy, Debug, PartialEq, Eq, Structural)]
pub struct HistoryEvent {
    pub series: Option<SeriesId>,
    pub offset: Option<u32>,
}

/// The constant integer an expression is: an integer literal, possibly
/// under unary plus or minus (where negating does not overflow).
pub open spec fn spec_constant_hir_int(e: HirExpr) -> Option<i64>
    decreases e,
{
    match e.kind {
        HirExprKind::Literal(HirLiteral::Int(v)) => Some(v),
        HirExprKind::Unary { op, expr } => if op == HirUnaryOp::Plus {
            spec_constant_hir_int(*expr)
        } else if op == HirUnaryOp::Minus {
            match spec_constant_hir_int(*expr) {
                Some(v) => if v == i64::MIN {
                    None
                } else {
                    Some((-v) as i64)
                },
                None => None,
            }
        } else {
            None
        },
        _ => None,
    }
}

/// The constant integer an expression is, if it is one.
pub fn constant_hir_int(expr: &HirExpr) -> (r: Option<i64>)
    ensures
        r == spec_constant_hir_int(*expr),
    decreases *expr,
{
    match &expr.kind {
        HirExprKind::Literal(HirLiteral::Int(v)) => Some(*v),
        HirExprKind::Unary { op, expr: inner } => {
            if *op == HirUnaryOp::Plus {
                constant_hir_int(inner)
            } else if *op == HirUnaryOp::Minus {
                match constant_hir_int(inner) {
                    Some(v) => if v == i64::MIN {
                        None
                    } else {
                        Some(-v)
                    },
                    None => None,
                }
            } else {
                None
            }
        },
        _ => None,
    }
}

/// The requirement the table declares for builtin `name`: its first entry.
pub open spec fn spec_builtin_requirement_from(
    table: Seq<(String, BuiltinHistoryRequirement)>,
    name: Seq<char>,
    i: int,
) -> Option<BuiltinHistoryRequirement>
    decreases table.len() - i,
{
    if i < 0 || i >= table.len() {
        None
    } else if table[i].0@ == name {
        Some(table[i].1)
    } else {
        spec_builtin_requirement_from(table, name, i + 1)
    }
}

pub open spec fn spec_builtin_requirement(
    table: Seq<(String, BuiltinHistoryRequirement)>,
    name: Seq<char>,
) -> Option<BuiltinHistoryRequirement> {
    spec_builtin_requirement_from(table, name, 0)
}

fn builtin_requirement<'a>(table: &'a BuiltinHistoryTable, name: &str) -> (r: Option<
    &'a BuiltinHistoryRequirement,
>)
    ensures
        match r {
            Some(req) => spec_builtin_requirement(table.entries@, name@) == Some(*req),
            None => spec_builtin_requirement(table.entries@, name@) is None,
        },
{
    let n = table.entries.len();
    let mut i: usize = 0;
    while i < n
        invariant
            n == table.entries@.len(),
            i <= n,
            spec_builtin_requirement(table.entries@, name@) == spec_builtin_requirement_from(
                table.entries@,
                name@,
                i as int,
            ),
        decreases n - i,
    {
        if str_eq(table.entries[i].0.as_str(), name) {
            return Some(&table.entries[i].1);
        }
        i = i + 1;
    }
    None
}

/// The series of the last symbol named `name` that is stored in one, below `i`.
pub open spec fn spec_builtin_series_below(symbols: Seq<HirSymbol>, name: Seq<char>, i: int) -> Option<
    SeriesId,
>
    decreases i,
{
    if i <= 0 || i > symbols.len() {
        None
    } else if symbols[i - 1].name@ == name && symbols[i - 1].series_id is Some {
        symbols[i - 1].series_id
    } else {
        spec_builtin_series_below(symbols, name, i - 1)
    }
}

/// The series a builtin symbol is stored in: a later symbol of the same
/// name replaces an earlier one.
pub open spec fn spec_builtin_series(symbols: Seq<HirSymbol>, name: Seq<char>) -> Option<SeriesId> {
    spec_builtin_series_below(symbols, name, symbols.len() as int)
}

fn builtin_series(symbols: &[HirSymbol], name: &str) -> (r: Option<SeriesId>)
    ensures
        r == spec_builtin_series(symbols@, name@),
{
    let mut i: usize = symbols.len();
    while i > 0
        invariant
            i <= symbols@.len(),
            spec_builtin_series(symbols@, name@) == spec_builtin_series_below(
                symbols@,
                name@,
                i as int,
            ),
        decreases i,
    {
        let symbol = &symbols[i - 1];
        if str_eq(symbol.name.as_str(), name) && symbol.series_id.is_some() {
            return symbol.series_id;
        }
        i = i - 1;
    }
    None
}

/// The series argument `i` reads, if there is such an argument.
pub open spec fn arg_series(args: Seq<HirCallArg>, i: int) -> Option<SeriesId> {
    if 0 <= i < args.len() {
        args[i].value.series_id
    } else {
        None
    }
}

/// The constant integer argument `i` is, if there is such an argument.
pub open spec fn arg_constant(args: Seq<HirCallArg>, i: int) -> Option<i64> {
    if 0 <= i < args.len() {
        spec_constant_hir_int(args[i].value)
    } else {
        None
    }
}

pub open spec fn constant_event(series: Option<SeriesId>, offset: u32) -> HistoryEvent {
    HistoryEvent { series, offset: Some(offset) }
}

pub open spec fn dynamic_event(series: Option<SeriesId>) -> HistoryEvent {
    HistoryEvent { series, offset: None }
}

/// The look-backs a builtin requirement makes for a call with `args`.
pub open spec fn spec_requirement_events(
    requirement: BuiltinHistoryRequirement,
    args: Seq<HirCallArg>,
    symbols: Seq<HirSymbol>,
) -> Seq<HistoryEvent> {
    match requirement {
        BuiltinHistoryRequirement::BuiltinSeries(list) => list@.map_values(
            |r: crate::hir::BuiltinSeriesRequirement|
                constant_event(spec_builtin_series(symbols, r.symbol@), r.offset),
        ),
        BuiltinHistoryRequirement::SourceOffset { source_arg, offset } => seq![
            constant_event(arg_series(args, source_arg as int), offset),
        ],
        BuiltinHistoryRequirement::OptionalLengthOffset {
            source_arg,
            length_arg,
            default_offset,
        } => {
            let series = arg_series(args, source_arg as int);
            match arg_constant(args, length_arg as int) {
                Some(length) => if length > 0 {
                    seq![constant_event(series, length as u32)]
                } else {
                    Seq::empty()
                },
                None => if args.len() > length_arg {
                    seq![dynamic_event(series)]
                } else {
                    seq![constant_event(series, default_offset)]
                },
            }
        },
        BuiltinHistoryRequirement::RequiredLengthOffset { source_arg, length_arg } => {
            let series = arg_series(args, source_arg as int);
            match arg_constant(args, length_arg as int) {
                Some(length) => if length > 0 {
                    seq![constant_event(series, length as u32)]
                } else {
                    Seq::empty()
                },
                None => seq![dynamic_event(series)],
            }
        },
        BuiltinHistoryRequirement::Cross { args: count, offset } => Seq::new(
            if count < args.len() {
                count as nat
            } else {
                args.len()
            },
            |i: int| constant_event(args[i].value.series_id, offset),
        ),
    }
}

/// The look-backs of a builtin named `name` called with `args`.
pub open spec fn spec_builtin_events(
    table: Seq<(String, BuiltinHistoryRequirement)>,
    symbols: Seq<HirSymbol>,
    name: Seq<char>,
    args: Seq<HirCallArg>,
) -> Seq<HistoryEvent> {
    match spec_builtin_requirement(table, name) {
        Some(requirement) => spec_requirement_events(requirement, args, symbols),
        None => Seq::empty(),
    }
}

pub open spec fn offset_of(offset: HirHistoryOffset) -> Option<u32> {
    match offset {
        HirHistoryOffset::Constant(o) => Some(o),
        HirHistoryOffset::Dynamic(_) => None,
    }
}

/// The look-backs of an expression, in evaluation order: a history reference
/// contributes its own look-back before those inside it, a call those of its
/// arguments before its own.
pub open spec fn spec_expr_events(
    table: Seq<(String, BuiltinHistoryRequirement)>,
    symbols: Seq<HirSymbol>,
    e: HirExpr,
) -> Seq<HistoryEvent>
    decreases e,
{
    match e.kind {
        HirExprKind::Literal(_) => Seq::empty(),
        HirExprKind::Symbol(_) => Seq::empty(),
        HirExprKind::Builtin(name) => spec_builtin_events(table, symbols, name@, Seq::empty()),
        HirExprKind::Unary { expr, .. } => spec_expr_events(table, symbols, *expr),
        HirExprKind::Binary { left, right } => spec_expr_events(table, symbols, *left)
            + spec_expr_events(table, symbols, *right),
        HirExprKind::Ternary { condition, then_expr, else_expr } => spec_expr_events(
            table,
            symbols,
            *condition,
        ) + spec_expr_events(table, symbols, *then_expr) + spec_expr_events(
            table,
            symbols,
            *else_expr,
        ),
        HirExprKind::Switch { selector, arms } => (match selector {
            Some(s) => spec_expr_events(table, symbols, *s),
            None => Seq::empty(),
        }) + spec_arms_events(table, symbols, arms@),
        HirExprKind::For { from, to, step, statements, result } => spec_expr_events(
            table,
            symbols,
            *from,
        ) + spec_expr_events(table, symbols, *to) + (match step {
            Some(s) => spec_expr_events(table, symbols, *s),
            None => Seq::empty(),
        }) + spec_stmts_events(table, symbols, statements@) + spec_expr_events(
            table,
            symbols,
            *result,
        ),
        HirExprKind::Tuple(items) => spec_exprs_events(table, symbols, items@),
        HirExprKind::UserTypeConstruct { fields } => spec_exprs_events(table, symbols, fields@),
        HirExprKind::FieldAccess { value } => spec_expr_events(table, symbols, *value),
        HirExprKind::Block { statements, result } => spec_stmts_events(table, symbols, statements@)
            + spec_expr_events(table, symbols, *result),
        HirExprKind::Call { callee, args } => spec_args_events(table, symbols, args@)
            + spec_builtin_events(table, symbols, callee@, args@),
        HirExprKind::History { expr, offset } => seq![
            HistoryEvent { series: (*expr).series_id, offset: offset_of(offset) },
        ] + spec_expr_events(table, symbols, *expr) + match offset {
            HirHistoryOffset::Dynamic(o) => spec_expr_events(table, symbols, *o),
            HirHistoryOffset::Constant(_) => Seq::empty(),
        },
    }
}

pub open spec fn spec_exprs_events(
    table: Seq<(String, BuiltinHistoryRequirement)>,
    symbols: Seq<HirSymbol>,
    items: Seq<HirExpr>,
) -> Seq<HistoryEvent>
    decreases items,
{
    if items.len() == 0 {
        Seq::empty()
    } else {
        spec_exprs_events(table, symbols, items.drop_last()) + spec_expr_events(
            table,
            symbols,
            items.last(),
        )
    }
}

pub open spec fn spec_args_events(
    table: Seq<(String, BuiltinHistoryRequirement)>,
    symbols: Seq<HirSymbol>,
    args: Seq<HirCallArg>,
) -> Seq<HistoryEvent>
    decreases args,
{
    if args.len() == 0 {
        Seq::empty()
    } else {
        spec_args_events(table, symbols, args.drop_last()) + spec_expr_events(
            table,
            symbols,
            args.last().value,
        )
    }
}

pub open spec fn spec_arm_events(
    table: Seq<(String, BuiltinHistoryRequirement)>,
    symbols: Seq<HirSymbol>,
    arm: HirSwitchArm,
) -> Seq<HistoryEvent>
    decreases arm,
{
    (match arm.condition {
        Some(c) => spec_expr_events(table, symbols, c),
        None => Seq::empty(),
    }) + spec_expr_events(table, symbols, arm.result)
}

pub open spec fn spec_arms_events(
    table: Seq<(String, BuiltinHistoryRequirement)>,
    symbols: Seq<HirSymbol>,
    arms: Seq<HirSwitchArm>,
) -> Seq<HistoryEvent>
    decreases arms,
{
    if arms.len() == 0 {
        Seq::empty()
    } else {
        spec_arms_events(table, symbols, arms.drop_last()) + spec_arm_events(
            table,
            symbols,
            arms.last(),
        )
    }
}

/// The look-backs of a statement, in evaluation order.
pub open spec fn spec_stmt_events(
    table: Seq<(String, BuiltinHistoryRequirement)>,
    symbols: Seq<HirSymbol>,
    s: HirStmt,
) -> Seq<HistoryEvent>
    decreases s,
{
    match s.kind {
        HirStmtKind::Expr(e) => spec_expr_events(table, symbols, e),
        HirStmtKind::Decl { value } => spec_expr_events(table, symbols, value),
        HirStmtKind::Reassign { value } => spec_expr_events(table, symbols, value),
        HirStmtKind::FieldReassign { value } => spec_expr_events(table, symbols, value),
        HirStmtKind::TupleDecl { value } => spec_expr_events(table, symbols, value),
        HirStmtKind::If { condition, then_branch, else_branch } => spec_expr_events(
            table,
            symbols,
            condition,
        ) + spec_stmts_events(table, symbols, then_branch@) + spec_stmts_events(
            table,
            symbols,
            else_branch@,
        ),
        HirStmtKind::For { from, to, step, body } => spec_expr_events(table, symbols, from)
            + spec_expr_events(table, symbols, to) + (match step {
            Some(s) => spec_expr_events(table, symbols, s),
            None => Seq::empty(),
        }) + spec_stmts_events(table, symbols, body@),
        HirStmtKind::While { condition, body } => spec_expr_events(table, symbols, condition)
            + spec_stmts_events(table, symbols, body@),
        HirStmtKind::Break => Seq::empty(),
        HirStmtKind::Continue => Seq::empty(),
    }
}

pub open spec fn spec_stmts_events(
    table: Seq<(String, BuiltinHistoryRequirement)>,
    symbols: Seq<HirSymbol>,
    stmts: Seq<HirStmt>,
) -> Seq<HistoryEvent>
    decreases stmts,
{
    if stmts.len() == 0 {
        Seq::empty()
    } else {
        spec_stmts_events(table, symbols, stmts.drop_last()) + spec_stmt_events(
            table,
            symbols,
            stmts.last(),
        )
    }
}

fn push_event(events: &mut Vec<HistoryEvent>, e: HistoryEvent)
    ensures
        final(events)@ == old(events)@ + seq![e],
{
    let ghost before = events@;
    events.push(e);
    assert(events@ =~= before + seq![e]);
}

fn arg_series_at(args: &[HirCallArg], i: usize) -> (r: Option<SeriesId>)
    ensures
        r == arg_series(args@, i as int),
{
    if i < args.len() {
        args[i].value.series_id
    } else {
        None
    }
}

fn arg_constant_at(args: &[HirCallArg], i: usize) -> (r: Option<i64>)
    ensures
        r == arg_constant(args@, i as int),
{
    if i < args.len() {
        constant_hir_int(&args[i].value)
    } else {
        None
    }
}

/// Appends the look-backs a builtin requirement makes for a call with `args`.
fn requirement_events(
    requirement: &BuiltinHistoryRequirement,
    args: &[HirCallArg],
    symbols: &[HirSymbol],
    events: &mut Vec<HistoryEvent>,
)
    ensures
        final(events)@ == old(events)@ + spec_requirement_events(*requirement, args@, symbols@),
{
    let ghost start = events@;
    match requirement {
        BuiltinHistoryRequirement::BuiltinSeries(list) => {
            let ghost target = spec_requirement_events(*requirement, args@, symbols@);
            let n = list.len();
            let mut i: usize = 0;
            while i < n
                invariant
                    n == list@.len(),
                    i <= n,
                    *requirement == BuiltinHistoryRequirement::BuiltinSeries(*list),
                    target == spec_requirement_events(*requirement, args@, symbols@),
                    target.len() == n,
                    events@ == start + target.take(i as int),
                decreases n - i,
            {
                let r = &list[i];
                let series = builtin_series(symbols, r.symbol.as_str());
                push_event(events, HistoryEvent { series, offset: Some(r.offset) });
                assert(target.take((i + 1) as int) =~= target.take(i as int) + seq![target[i as int]]);
                i = i + 1;
            }
            assert(target.take(n as int) =~= target);
        },
        BuiltinHistoryRequirement::SourceOffset { source_arg, offset } => {
            push_event(events, HistoryEvent { series: arg_series_at(args, *source_arg), offset: Some(*offset) });
        },
        BuiltinHistoryRequirement::OptionalLengthOffset { source_arg, length_arg, default_offset } => {
            let series = arg_series_at(args, *source_arg);
            match arg_constant_at(args, *length_arg) {
                Some(length) => {
                    if length > 0 {
                        push_event(events, HistoryEvent { series, offset: Some(length as u32) });
                    } else {
                        assert(events@ =~= start + Seq::<HistoryEvent>::empty());
                    }
                },
                None => {
                    if args.len() > *length_arg {
                        push_event(events, HistoryEvent { series, offset: None });
                    } else {
                        push_event(events, HistoryEvent { series, offset: Some(*default_offset) });
                    }
                },
            }
        },
        BuiltinHistoryRequirement::RequiredLengthOffset { source_arg, length_arg } => {
            let series = arg_series_at(args, *source_arg);
            match arg_constant_at(args, *length_arg) {
                Some(length) => {
                    if length > 0 {
                        push_event(events, HistoryEvent { series, offset: Some(length as u32) });
                    } else {
                        assert(events@ =~= start + Seq::<HistoryEvent>::empty());
                    }
                },
                None => {
                    push_event(events, HistoryEvent { series, offset: None });
                },
            }
        },
        BuiltinHistoryRequirement::Cross { args: count, offset } => {
            let ghost target = spec_requirement_events(*requirement, args@, symbols@);
            let n = if *count < args.len() {
                *count
            } else {
                args.len()
            };
            let mut i: usize = 0;
            while i < n
                invariant
                    n <= args@.len(),
                    i <= n,
                    target == spec_requirement_events(*requirement, args@, symbols@),
                    *requirement == (BuiltinHistoryRequirement::Cross { args: *count, offset: *offset }),
                    target.len() == n,
                    events@ == start + target.take(i as int),
                decreases n - i,
            {
                push_event(events, HistoryEvent { series: args[i].value.series_id, offset: Some(*offset) });
                assert(target.take((i + 1) as int) =~= target.take(i as int) + seq![target[i as int]]);
                i = i + 1;
            }
            assert(target.take(n as int) =~= target);
        },
    }
}

/// Appends the look-backs of builtin `name` called with `args`.
fn builtin_events(
    table: &BuiltinHistoryTable,
    symbols: &[HirSymbol],
    name: &str,
    args: &[HirCallArg],
    events: &mut Vec<HistoryEvent>,
)
    ensures
        final(events)@ == old(events)@ + spec_builtin_events(table.entries@, symbols@, name@, args@),
{
    match builtin_requirement(table, name) {
        Some(requirement) => requirement_events(requirement, args, symbols, events),
        None => {
            assert(events@ =~= events@ + Seq::<HistoryEvent>::empty());
        },
    }
}

/// Appends the look-backs of an expression.
fn collect_expr_events(
    table: &BuiltinHistoryTable,
    symbols: &[HirSymbol],
    expr: &HirExpr,
    events: &mut Vec<HistoryEvent>,
)
    ensures
        final(events)@ == old(events)@ + spec_expr_events(table.entries@, symbols@, *expr),
    decreases *expr,
{
    let ghost start = events@;
    let ghost t = table.entries@;
    let ghost sy = symbols@;
    match &expr.kind {
        HirExprKind::Literal(_) => {
            assert(events@ =~= start + Seq::<HistoryEvent>::empty());
        },
        HirExprKind::Symbol(_) => {
            assert(events@ =~= start + Seq::<HistoryEvent>::empty());
        },
        HirExprKind::Builtin(name) => {
            let no_args: Vec<HirCallArg> = Vec::new();
            assert(no_args@ =~= Seq::<HirCallArg>::empty());
            builtin_events(table, symbols, name.as_str(), no_args.as_slice(), events);
        },
        HirExprKind::Unary { expr: inner, .. } => {
            collect_expr_events(table, symbols, inner, events);
        },
        HirExprKind::Binary { left, right } => {
            collect_expr_events(table, symbols, left, events);
            collect_expr_events(table, symbols, right, events);
            assert(events@ =~= start + spec_expr_events(t, sy, *expr));
        },
        HirExprKind::Ternary { condition, then_expr, else_expr } => {
            collect_expr_events(table, symbols, condition, events);
            collect_expr_events(table, symbols, then_expr, events);
            collect_expr_events(table, symbols, else_expr, events);
            assert(events@ =~= start + spec_expr_events(t, sy, *expr));
        },
        HirExprKind::Switch { selector, arms } => {
            match selector {
                Some(s) => collect_expr_events(table, symbols, s, events),
                None => {},
            }
            collect_arms_events(table, symbols, arms, events);
            assert(events@ =~= start + spec_expr_events(t, sy, *expr));
        },
        HirExprKind::For { from, to, step, statements, result } => {
            collect_expr_events(table, symbols, from, events);
            collect_expr_events(table, symbols, to, events);
            match step {
                Some(s) => collect_expr_events(table, symbols, s, events),
                None => {},
            }
            collect_stmts_events(table, symbols, statements, events);
            collect_expr_events(table, symbols, result, events);
            assert(events@ =~= start + spec_expr_events(t, sy, *expr));
        },
        HirExprKind::Tuple(items) => {
            collect_exprs_events(table, symbols, items, events);
        },
        HirExprKind::UserTypeConstruct { fields } => {
            collect_exprs_events(table, symbols, fields, events);
        },
        HirExprKind::FieldAccess { value } => {
            collect_expr_events(table, symbols, value, events);
        },
        HirExprKind::Block { statements, result } => {
            collect_stmts_events(table, symbols, statements, events);
            collect_expr_events(table, symbols, result, events);
            assert(events@ =~= start + spec_expr_events(t, sy, *expr));
        },
        HirExprKind::Call { callee, args } => {
            collect_args_events(table, symbols, args, events);
            builtin_events(table, symbols, callee.as_str(), args.as_slice(), events);
            assert(events@ =~= start + spec_expr_events(t, sy, *expr));
        },
        HirExprKind::History { expr: inner, offset } => {
            let o = match offset {
                HirHistoryOffset::Constant(o) => Some(*o),
                HirHistoryOffset::Dynamic(_) => None,
            };
            push_event(events, HistoryEvent { series: inner.series_id, offset: o });
            collect_expr_events(table, symbols, inner, events);
            match offset {
                HirHistoryOffset::Dynamic(d) => collect_expr_events(table, symbols, d, events),
                HirHistoryOffset::Constant(_) => {},
            }
            assert(events@ =~= start + spec_expr_events(t, sy, *expr));
        },
    }
}

fn collect_exprs_events(
    table: &BuiltinHistoryTable,
    symbols: &[HirSymbol],
    items: &Vec<HirExpr>,
    events: &mut Vec<HistoryEvent>,
)
    ensures
        final(events)@ == old(events)@ + spec_exprs_events(table.entries@, symbols@, items@),
    decreases items@,
{
    let ghost start = events@;
    let n = items.len();
    let mut i: usize = 0;
    while i < n
        invariant
            n == items@.len(),
            i <= n,
            events@ == start + spec_exprs_events(table.entries@, symbols@, items@.take(i as int)),
        decreases n - i,
    {
        assert(items@.take((i + 1) as int).drop_last() =~= items@.take(i as int));
        collect_expr_events(table, symbols, &items[i], events);
        i = i + 1;
    }
    assert(items@.take(n as int) =~= items@);
}

fn collect_args_events(
    table: &BuiltinHistoryTable,
    symbols: &[HirSymbol],
    args: &Vec<HirCallArg>,
    events: &mut Vec<HistoryEvent>,
)
    ensures
        final(events)@ == old(events)@ + spec_args_events(table.entries@, symbols@, args@),
    decreases args@,
{
    let ghost start = events@;
    let n = args.len();
    let mut i: usize = 0;
    while i < n
        invariant
            n == args@.len(),
            i <= n,
            events@ == start + spec_args_events(table.entries@, symbols@, args@.take(i as int)),
        decreases n - i,
    {
        assert(args@.take((i + 1) as int).drop_last() =~= args@.take(i as int));
        collect_expr_events(table, symbols, &args[i].value, events);
        i = i + 1;
    }
    assert(args@.take(n as int) =~= args@);
}

fn collect_arm_events(
    table: &BuiltinHistoryTable,
    symbols: &[HirSymbol],
    arm: &HirSwitchArm,
    events: &mut Vec<HistoryEvent>,
)
    ensures
        final(events)@ == old(events)@ + spec_arm_events(table.entries@, symbols@, *arm),
    decreases *arm,
{
    let ghost start = events@;
    match &arm.condition {
        Some(c) => collect_expr_events(table, symbols, c, events),
        None => {},
    }
    collect_expr_events(table, symbols, &arm.result, events);
    assert(events@ =~= start + spec_arm_events(table.entries@, symbols@, *arm));
}

fn collect_arms_events(
    table: &BuiltinHistoryTable,
    symbols: &[HirSymbol],
    arms: &Vec<HirSwitchArm>,
    events: &mut Vec<HistoryEvent>,
)
    ensures
        final(events)@ == old(events)@ + spec_arms_events(table.entries@, symbols@, arms@),
    decreases arms@,
{
    let ghost start = events@;
    let n = arms.len();
    let mut i: usize = 0;
    while i < n
        invariant
            n == arms@.len(),
            i <= n,
            events@ == start + spec_arms_events(table.entries@, symbols@, arms@.take(i as int)),
        decreases n - i,
    {
        assert(arms@.take((i + 1) as int).drop_last() =~= arms@.take(i as int));
        collect_arm_events(table, symbols, &arms[i], events);
        i = i + 1;
    }
    assert(arms@.take(n as int) =~= arms@);
}

/// Appends the look-backs of a statement.
fn collect_stmt_events(
    table: &BuiltinHistoryTable,
    symbols: &[HirSymbol],
    statement: &HirStmt,
    events: &mut Vec<HistoryEvent>,
)
    ensures
        final(events)@ == old(events)@ + spec_stmt_events(table.entries@, symbols@, *statement),
    decreases *statement,
{
    let ghost start = events@;
    let ghost t = table.entries@;
    let ghost sy = symbols@;
    match &statement.kind {
        HirStmtKind::Expr(e) => collect_expr_events(table, symbols, e, events),
        HirStmtKind::Decl { value } => collect_expr_events(table, symbols, value, events),
        HirStmtKind::Reassign { value } => collect_expr_events(table, symbols, value, events),
        HirStmtKind::FieldReassign { value } => collect_expr_events(table, symbols, value, events),
        HirStmtKind::TupleDecl { value } => collect_expr_events(table, symbols, value, events),
        HirStmtKind::If { condition, then_branch, else_branch } => {
            collect_expr_events(table, symbols, condition, events);
            collect_stmts_events(table, symbols, then_branch, events);
            collect_stmts_events(table, symbols, else_branch, events);
            assert(events@ =~= start + spec_stmt_events(t, sy, *statement));
        },
        HirStmtKind::For { from, to, step, body } => {
            collect_expr_events(table, symbols, from, events);
            collect_expr_events(table, symbols, to, events);
            match step {
                Some(s) => collect_expr_events(table, symbols, s, events),
                None => {},
            }
            collect_stmts_events(table, symbols, body, events);
            assert(events@ =~= start + spec_stmt_events(t, sy, *statement));
        },
        HirStmtKind::While { condition, body } => {
            collect_expr_events(table, symbols, condition, events);
            collect_stmts_events(table, symbols, body, events);
            assert(events@ =~= start + spec_stmt_events(t, sy, *statement));
        },
        HirStmtKind::Break => {
            assert(events@ =~= start + Seq::<HistoryEvent>::empty());
        },
        HirStmtKind::Continue => {
            assert(events@ =~= start + Seq::<HistoryEvent>::empty());
        },
    }
}

fn collect_stmts_events(
    table: &BuiltinHistoryTable,
    symbols: &[HirSymbol],
    stmts: &Vec<HirStmt>,
    events: &mut Vec<HistoryEvent>,
)
    ensures
        final(events)@ == old(events)@ + spec_stmts_events(table.entries@, symbols@, stmts@),
    decreases stmts@,
{
    let ghost start = events@;
    let n = stmts.len();
    let mut i: usize = 0;
    while i < n
        invariant
            n == stmts@.len(),
            i <= n,
            events@ == start + spec_stmts_events(table.entries@, symbols@, stmts@.take(i as int)),
        decreases n - i,
    {
        assert(stmts@.take((i + 1) as int).drop_last() =~= stmts@.take(i as int));
        collect_stmt_events(table, symbols, &stmts[i], events);
        i = i + 1;
    }
    assert(stmts@.take(n as int) =~= stmts@);
}

/// A requirement after one more look-back of `offset` bars (`None`: dynamic).
pub open spec fn apply_offset(r: HirHistoryRequirements, offset: Option<u32>) -> HirHistoryRequirements {
    match offset {
        Some(o) => HirHistoryRequirements {
            max_constant_offset: if o > r.max_constant_offset {
                o
            } else {
                r.max_constant_offset
            },
            has_dynamic_offsets: r.has_dynamic_offsets,
        },
        None => HirHistoryRequirements {
            max_constant_offset: r.max_constant_offset,
            has_dynamic_offsets: true,
        },
    }
}

pub open spec fn no_history() -> HirHistoryRequirements {
    HirHistoryRequirements { max_constant_offset: 0, has_dynamic_offsets: false }
}

/// What a sequence of look-backs requires of the program.
pub open spec fn spec_program_requirements(events: Seq<HistoryEvent>) -> HirHistoryRequirements
    decreases events.len(),
{
    if events.len() == 0 {
        no_history()
    } else {
        apply_offset(spec_program_requirements(events.drop_last()), events.last().offset)
    }
}

/// What a sequence of look-backs requires of series `id`.
pub open spec fn spec_series_requirements(events: Seq<HistoryEvent>, id: SeriesId) -> HirHistoryRequirements
    decreases events.len(),
{
    if events.len() == 0 {
        no_history()
    } else {
        let r = spec_series_requirements(events.drop_last(), id);
        if events.last().series == Some(id) {
            apply_offset(r, events.last().offset)
        } else {
            r
        }
    }
}

/// Whether some look-back reads series `id`.
pub open spec fn mentions(events: Seq<HistoryEvent>, id: SeriesId) -> bool {
    exists|i: int| 0 <= i < events.len() && #[trigger] events[i].series == Some(id)
}

pub open spec fn series_entry(events: Seq<HistoryEvent>, id: SeriesId) -> HirSeriesHistoryRequirement {
    let r = spec_series_requirements(events, id);
    HirSeriesHistoryRequirement {
        series_id: id,
        max_constant_offset: r.max_constant_offset,
        has_dynamic_offsets: r.has_dynamic_offsets,
    }
}

/// `out` lists the requirement of every series the look-backs read, once
/// each, by increasing series id.
pub open spec fn is_series_summary(events: Seq<HistoryEvent>, out: Seq<HirSeriesHistoryRequirement>) -> bool {
    &&& forall|a: int, b: int| 0 <= a < b < out.len() ==> out[a].series_id < out[b].series_id
    &&& forall|j: int|
        0 <= j < out.len() ==> mentions(events, out[j].series_id) && out[j] == series_entry(
            events,
            #[trigger] out[j].series_id,
        )
    &&& forall|id: SeriesId| #[trigger]
        mentions(events, id) ==> exists|j: int| 0 <= j < out.len() && out[j].series_id == id
}

fn apply_offset_exec(r: HirHistoryRequirements, offset: Option<u32>) -> (out: HirHistoryRequirements)
    ensures
        out == apply_offset(r, offset),
{
    match offset {
        Some(o) => HirHistoryRequirements {
            max_constant_offset: if o > r.max_constant_offset {
                o
            } else {
                r.max_constant_offset
            },
            has_dynamic_offsets: r.has_dynamic_offsets,
        },
        None => HirHistoryRequirements {
            max_constant_offset: r.max_constant_offset,
            has_dynamic_offsets: true,
        },
    }
}

proof fn lemma_series_step(events: Seq<HistoryEvent>, k: int, id: SeriesId)
    requires
        0 <= k < events.len(),
    ensures
        spec_series_requirements(events.take(k + 1), id) == if events[k].series == Some(id) {
            apply_offset(spec_series_requirements(events.take(k), id), events[k].offset)
        } else {
            spec_series_requirements(events.take(k), id)
        },
        mentions(events.take(k + 1), id) == (mentions(events.take(k), id) || events[k].series
            == Some(id)),
{
    assert(events.take(k + 1).drop_last() =~= events.take(k));
    if mentions(events.take(k + 1), id) && !mentions(events.take(k), id) {
        let i = choose|i: int| 0 <= i < k + 1 && #[trigger] events.take(k + 1)[i].series == Some(id);
        if i < k {
            assert(events.take(k)[i] == events.take(k + 1)[i]);
        }
    }
    if mentions(events.take(k), id) {
        let i = choose|i: int| 0 <= i < k && #[trigger] events.take(k)[i].series == Some(id);
        assert(events.take(k + 1)[i] == events.take(k)[i]);
    }
    if events[k].series == Some(id) {
        assert(events.take(k + 1)[k] == events[k]);
    }
}

/// The program requirement and the per-series requirements of a sequence of look-backs.
fn summarize_events(events: &Vec<HistoryEvent>) -> (r: (HirHistoryRequirements, Vec<HirSeriesHistoryRequirement>))
    ensures
        r.0 == spec_program_requirements(events@),
        is_series_summary(events@, r.1@),
{
    let mut program = HirHistoryRequirements { max_constant_offset: 0, has_dynamic_offsets: false };
    let mut series: Vec<HirSeriesHistoryRequirement> = Vec::new();
    let n = events.len();
    let mut k: usize = 0;
    while k < n
        invariant
            n == events@.len(),
            k <= n,
            program == spec_program_requirements(events@.take(k as int)),
            is_series_summary(events@.take(k as int), series@),
        decreases n - k,
    {
        let ghost before = series@;
        let ghost prefix = events@.take(k as int);
        let ghost next = events@.take((k + 1) as int);
        assert(next.drop_last() =~= prefix);
        let e = events[k];
        program = apply_offset_exec(program, e.offset);
        proof {
            assert forall|id: SeriesId| true implies (spec_series_requirements(next, id) == if e.series
                == Some(id) {
                apply_offset(spec_series_requirements(prefix, id), e.offset)
            } else {
                spec_series_requirements(prefix, id)
            }) && mentions(next, id) == (mentions(prefix, id) || e.series == Some(id)) by {
                lemma_series_step(events@, k as int, id);
            }
        }
        if let Some(id) = e.series {
            let m = series.len();
            let mut p: usize = 0;
            while p < m && series[p].series_id < id
                invariant
                    m == series@.len(),
                    p <= m,
                    forall|j: int| 0 <= j < p ==> series@[j].series_id < id,
                decreases m - p,
            {
                p = p + 1;
            }
            if p < m && series[p].series_id == id {
                let old_entry = series[p];
                let updated = apply_offset_exec(
                    HirHistoryRequirements {
                        max_constant_offset: old_entry.max_constant_offset,
                        has_dynamic_offsets: old_entry.has_dynamic_offsets,
                    },
                    e.offset,
                );
                series.set(
                    p,
                    HirSeriesHistoryRequirement {
                        series_id: id,
                        max_constant_offset: updated.max_constant_offset,
                        has_dynamic_offsets: updated.has_dynamic_offsets,
                    },
                );
                proof {
                    assert forall|j: int| 0 <= j < series@.len() implies mentions(next, series@[j].series_id)
                        && series@[j] == series_entry(next, #[trigger] series@[j].series_id) by {
                        if j != p {
                            assert(series@[j] == before[j]);
                            assert(before[j].series_id != id) by {
                                if j < p {
                                } else {
                                    assert(before[p as int].series_id < before[j].series_id);
                                }
                            }
                        }
                    }
                    assert forall|x: SeriesId| #[trigger] mentions(next, x) implies exists|j: int|
                        0 <= j < series@.len() && series@[j].series_id == x by {
                        if x != id {
                            let j = choose|j: int| 0 <= j < before.len() && before[j].series_id == x;
                            assert(series@[j].series_id == x);
                        } else {
                            assert(series@[p as int].series_id == x);
                        }
                    }
                }
            } else {
                let fresh = apply_offset_exec(
                    HirHistoryRequirements { max_constant_offset: 0, has_dynamic_offsets: false },
                    e.offset,
                );
                proof {
                    if mentions(prefix, id) {
                        let j = choose|j: int| 0 <= j < before.len() && before[j].series_id == id;
                        if j < p {
                        } else if j == p {
                        } else {
                            assert(before[p as int].series_id < before[j].series_id);
                        }
                    }
                    assert(!mentions(prefix, id));
                    lemma_unmentioned_has_no_history(prefix, id);
                }
                series.insert(
                    p,
                    HirSeriesHistoryRequirement {
                        series_id: id,
                        max_constant_offset: fresh.max_constant_offset,
                        has_dynamic_offsets: fresh.has_dynamic_offsets,
                    },
                );
                proof {
                    assert forall|a: int, b: int| 0 <= a < b < series@.len() implies series@[a].series_id
                        < series@[b].series_id by {
                        if b < p {
                            assert(series@[a] == before[a]);
                            assert(series@[b] == before[b]);
                        } else if b == p {
                            assert(series@[a] == before[a]);
                        } else if a < p {
                            assert(series@[a] == before[a]);
                            assert(series@[b] == before[b - 1]);
                            if p < before.len() {
                                assert(before[p as int].series_id > id);
                                if b - 1 > p {
                                    assert(before[p as int].series_id < before[b - 1].series_id);
                                }
                            }
                        } else if a == p {
                            assert(series@[b] == before[b - 1]);
                            assert(before[p as int].series_id > id);
                            if b - 1 > p {
                                assert(before[p as int].series_id < before[b - 1].series_id);
                            }
                        } else {
                            assert(series@[a] == before[a - 1]);
                            assert(series@[b] == before[b - 1]);
                        }
                    }
                    assert forall|j: int| 0 <= j < series@.len() implies mentions(next, series@[j].series_id)
                        && series@[j] == series_entry(next, #[trigger] series@[j].series_id) by {
                        if j < p {
                            assert(series@[j] == before[j]);
                            assert(before[j].series_id != id);
                        } else if j > p {
                            assert(series@[j] == before[j - 1]);
                            assert(before[j - 1].series_id != id);
                        }
                    }
                    assert forall|x: SeriesId| #[trigger] mentions(next, x) implies exists|j: int|
                        0 <= j < series@.len() && series@[j].series_id == x by {
                        if x != id {
                            let j = choose|j: int| 0 <= j < before.len() && before[j].series_id == x;
                            if j < p {
                                assert(series@[j] == before[j]);
                            } else {
                                assert(series@[j + 1] == before[j]);
                            }
                        } else {
                            assert(series@[p as int].series_id == x);
                        }
                    }
                }
            }
        } else {
            proof {
                assert forall|j: int| 0 <= j < series@.len() implies mentions(next, series@[j].series_id)
                    && series@[j] == series_entry(next, #[trigger] series@[j].series_id) by {}
            }
        }
        k = k + 1;
    }
    assert(events@.take(n as int) =~= events@);
    (program, series)
}

proof fn lemma_unmentioned_has_no_history(events: Seq<HistoryEvent>, id: SeriesId)
    requires
        !mentions(events, id),
    ensures
        spec_series_requirements(events, id) == no_history(),
    decreases events.len(),
{
    if events.len() > 0 {
        assert(!mentions(events.drop_last(), id)) by {
            if mentions(events.drop_last(), id) {
                let i = choose|i: int| 0 <= i < events.drop_last().len() && #[trigger] events.drop_last()[i].series
                    == Some(id);
                assert(events[i] == events.drop_last()[i]);
            }
        }
        lemma_unmentioned_has_no_history(events.drop_last(), id);
        assert(events.last().series != Some(id)) by {
            if events.last().series == Some(id) {
                assert(events[events.len() - 1].series == Some(id));
            }
        }
    }
}

/// The history a program needs, and the history each series it reads needs.
#[derive(Debug, Clone, PartialEq, Eq)]
pub struct InferredHistoryRequirements {
    pub program: HirHistoryRequirements,
    pub series: Vec<HirSeriesHistoryRequirement>,
}

/// The look-backs of a program's statements.
pub open spec fn program_events(
    statements: Seq<HirStmt>,
    symbols: Seq<HirSymbol>,
    builtins: BuiltinHistoryTable,
) -> Seq<HistoryEvent> {
    spec_stmts_events(builtins.entries@, symbols, statements)
}

/// Infers how much history the program `statements` needs, where `symbols`
/// gives the series of the builtin symbols and `builtins` the look-back each
/// builtin declares.
pub fn infer_history_requirements(
    statements: &Vec<HirStmt>,
    symbols: &[HirSymbol],
    builtins: &BuiltinHistoryTable,
) -> (r: InferredHistoryRequirements)
    ensures
        r.program == spec_program_requirements(program_events(statements@, symbols@, *builtins)),
        is_series_summary(program_events(statements@, symbols@, *builtins), r.series@),
{
    let mut events: Vec<HistoryEvent> = Vec::new();
    collect_stmts_events(builtins, symbols, statements, &mut events);
    assert(events@ =~= program_events(statements@, symbols@, *builtins));
    let (program, series) = summarize_events(&events);
    InferredHistoryRequirements { program, series }
}

/// What the look-backs require of the program covers what they require of
/// each series: as long a constant look-back, and a dynamic one wherever a
/// series has one.
pub proof fn lemma_program_requirements_cover_each_series(events: Seq<HistoryEvent>, id: SeriesId)
    ensures
        spec_series_requirements(events, id).max_constant_offset <= spec_program_requirements(
            events,
        ).max_constant_offset,
        spec_series_requirements(events, id).has_dynamic_offsets ==> spec_program_requirements(
            events,
        ).has_dynamic_offsets,
    decreases events.len(),
{
    if events.len() > 0 {
        lemma_program_requirements_cover_each_series(events.drop_last(), id);
    }
}

/// Look-backs only add to what is required: appending more never lowers the
/// program's or a series' requirement.
pub proof fn lemma_requirements_grow_with_more_history(
    events: Seq<HistoryEvent>,
    more: Seq<HistoryEvent>,
    id: SeriesId,
)
    ensures
        spec_program_requirements(events).max_constant_offset <= spec_program_requirements(
            events + more,
        ).max_constant_offset,
        spec_program_requirements(events).has_dynamic_offsets ==> spec_program_requirements(
            events + more,
        ).has_dynamic_offsets,
        spec_series_requirements(events, id).max_constant_offset <= spec_series_requirements(
            events + more,
            id,
        ).max_constant_offset,
        spec_series_requirements(events, id).has_dynamic_offsets ==> spec_series_requirements(
            events + more,
            id,
        ).has_dynamic_offsets,
    decreases more.len(),
{
    if more.len() == 0 {
        assert(events + more =~= events);
    } else {
        lemma_requirements_grow_with_more_history(events, more.drop_last(), id);
        assert((events + more).drop_last() =~= events + more.drop_last());
    }
}

/// The `max_bars_back` an expression declares: the first `indicator(...)`
/// call inside it, in evaluation order, whose `max_bars_back` argument (by
/// name, or seventh by position) is a constant that fits in `u32`.
pub open spec fn spec_max_bars_back_from_expr(e: HirExpr) -> Option<u32>
    decreases e,
{
    match e.kind {
        HirExprKind::Call { callee, args } => if callee@ == "indicator"@ {
            match spec_indicator_max_bars_back_arg(args@) {
                Some(i) => match spec_constant_hir_int(args@[i].value) {
                    Some(v) => if 0 <= v <= u32::MAX {
                        Some(v as u32)
                    } else {
                        None
                    },
                    None => None,
                },
                None => None,
            }
        } else {
            spec_args_max_bars_back(args@)
        },
        HirExprKind::Unary { expr, .. } => spec_max_bars_back_from_expr(*expr),
        HirExprKind::Binary { left, right } => or_else(
            spec_max_bars_back_from_expr(*left),
            spec_max_bars_back_from_expr(*right),
        ),
        HirExprKind::Ternary { condition, then_expr, else_expr } => or_else(
            spec_max_bars_back_from_expr(*condition),
            or_else(spec_max_bars_back_from_expr(*then_expr), spec_max_bars_back_from_expr(*else_expr)),
        ),
        HirExprKind::Switch { selector, arms } => or_else(
            match selector {
                Some(s) => spec_max_bars_back_from_expr(*s),
                None => None,
            },
            spec_arms_max_bars_back(arms@),
        ),
        HirExprKind::For { from, to, step, statements, result } => or_else(
            spec_max_bars_back_from_expr(*from),
            or_else(
                spec_max_bars_back_from_expr(*to),
                or_else(
                    match step {
                        Some(s) => spec_max_bars_back_from_expr(*s),
                        None => None,
                    },
                    or_else(
                        spec_stmts_max_bars_back(statements@),
                        spec_max_bars_back_from_expr(*result),
                    ),
                ),
            ),
        ),
        HirExprKind::Tuple(items) => spec_exprs_max_bars_back(items@),
        HirExprKind::UserTypeConstruct { fields } => spec_exprs_max_bars_back(fields@),
        HirExprKind::FieldAccess { value } => spec_max_bars_back_from_expr(*value),
        HirExprKind::Block { statements, result } => or_else(
            spec_stmts_max_bars_back(statements@),
            spec_max_bars_back_from_expr(*result),
        ),
        HirExprKind::History { expr, offset } => or_else(
            spec_max_bars_back_from_expr(*expr),
            match offset {
                HirHistoryOffset::Dynamic(o) => spec_max_bars_back_from_expr(*o),
                HirHistoryOffset::Constant(_) => None,
            },
        ),
        _ => None,
    }
}

pub open spec fn or_else(a: Option<u32>, b: Option<u32>) -> Option<u32> {
    match a {
        Some(v) => Some(v),
        None => b,
    }
}

/// The first argument that gives `indicator`'s `max_bars_back`.
pub open spec fn spec_indicator_max_bars_back_arg_from(args: Seq<HirCallArg>, i: int) -> Option<int>
    decreases args.len() - i,
{
    if i < 0 || i >= args.len() {
        None
    } else if (args[i].name matches Some(n) && n@ == "max_bars_back"@) || (args[i].name is None
        && i == 6) {
        Some(i)
    } else {
        spec_indicator_max_bars_back_arg_from(args, i + 1)
    }
}

pub open spec fn spec_indicator_max_bars_back_arg(args: Seq<HirCallArg>) -> Option<int> {
    spec_indicator_max_bars_back_arg_from(args, 0)
}

pub open spec fn spec_args_max_bars_back(args: Seq<HirCallArg>) -> Option<u32>
    decreases args,
{
    if args.len() == 0 {
        None
    } else {
        or_else(spec_args_max_bars_back(args.drop_last()), spec_max_bars_back_from_expr(args.last().value))
    }
}

pub open spec fn spec_exprs_max_bars_back(items: Seq<HirExpr>) -> Option<u32>
    decreases items,
{
    if items.len() == 0 {
        None
    } else {
        or_else(spec_exprs_max_bars_back(items.drop_last()), spec_max_bars_back_from_expr(items.last()))
    }
}

pub open spec fn spec_arm_max_bars_back(arm: HirSwitchArm) -> Option<u32>
    decreases arm,
{
    or_else(
        match arm.condition {
            Some(c) => spec_max_bars_back_from_expr(c),
            None => None,
        },
        spec_max_bars_back_from_expr(arm.result),
    )
}

pub open spec fn spec_arms_max_bars_back(arms: Seq<HirSwitchArm>) -> Option<u32>
    decreases arms,
{
    if arms.len() == 0 {
        None
    } else {
        or_else(spec_arms_max_bars_back(arms.drop_last()), spec_arm_max_bars_back(arms.last()))
    }
}

/// The `max_bars_back` a statement declares.
pub open spec fn spec_max_bars_back_from_stmt(s: HirStmt) -> Option<u32>
    decreases s,
{
    match s.kind {
        HirStmtKind::Expr(e) => spec_max_bars_back_from_expr(e),
        HirStmtKind::Decl { value } => spec_max_bars_back_from_expr(value),
        HirStmtKind::Reassign { value } => spec_max_bars_back_from_expr(value),
        HirStmtKind::FieldReassign { value } => spec_max_bars_back_from_expr(value),
        HirStmtKind::TupleDecl { value } => spec_max_bars_back_from_expr(value),
        HirStmtKind::If { condition, then_branch, else_branch } => or_else(
            spec_max_bars_back_from_expr(condition),
            or_else(spec_stmts_max_bars_back(then_branch@), spec_stmts_max_bars_back(else_branch@)),
        ),
        HirStmtKind::For { from, to, step, body } => or_else(
            spec_max_bars_back_from_expr(from),
            or_else(
                spec_max_bars_back_from_expr(to),
                or_else(
                    match step {
                        Some(s) => spec_max_bars_back_from_expr(s),
                        None => None,
                    },
                    spec_stmts_max_bars_back(body@),
                ),
            ),
        ),
        HirStmtKind::While { condition, body } => or_else(
            spec_max_bars_back_from_expr(condition),
            spec_stmts_max_bars_back(body@),
        ),
        _ => None,
    }
}

/// The `max_bars_back` the first declaring statement gives.
pub open spec fn spec_stmts_max_bars_back(stmts: Seq<HirStmt>) -> Option<u32>
    decreases stmts,
{
    if stmts.len() == 0 {
        None
    } else {
        or_else(spec_stmts_max_bars_back(stmts.drop_last()), spec_max_bars_back_from_stmt(stmts.last()))
    }
}

fn indicator_max_bars_back_arg(args: &Vec<HirCallArg>) -> (r: Option<usize>)
    ensures
        match r {
            Some(i) => spec_indicator_max_bars_back_arg(args@) == Some(i as int) && i < args@.len(),
            None => spec_indicator_max_bars_back_arg(args@) is None,
        },
{
    let n = args.len();
    let mut i: usize = 0;
    while i < n
        invariant
            n == args@.len(),
            i <= n,
            spec_indicator_max_bars_back_arg(args@) == spec_indicator_max_bars_back_arg_from(
                args@,
                i as int,
            ),
        decreases n - i,
    {
        let named = match &args[i].name {
            Some(name) => str_eq(name.as_str(), "max_bars_back"),
            None => i == 6,
        };
        if named {
            return Some(i);
        }
        i = i + 1;
    }
    None
}

/// The `max_bars_back` an expression declares.
pub fn max_bars_back_from_expr(expr: &HirExpr) -> (r: Option<u32>)
    ensures
        r == spec_max_bars_back_from_expr(*expr),
    decreases *expr,
{
    match &expr.kind {
        HirExprKind::Call { callee, args } => {
            if str_eq(callee.as_str(), "indicator") {
                let i = indicator_max_bars_back_arg(args)?;
                let v = constant_hir_int(&args[i].value)?;
                if 0 <= v && v <= 4294967295 {
                    Some(v as u32)
                } else {
                    None
                }
            } else {
                args_max_bars_back(args)
            }
        },
        HirExprKind::Unary { expr: inner, .. } => max_bars_back_from_expr(inner),
        HirExprKind::Binary { left, right } => {
            let l = max_bars_back_from_expr(left);
            if l.is_some() {
                l
            } else {
                max_bars_back_from_expr(right)
            }
        },
        HirExprKind::Ternary { condition, then_expr, else_expr } => {
            let c = max_bars_back_from_expr(condition);
            if c.is_some() {
                return c;
            }
            let t = max_bars_back_from_expr(then_expr);
            if t.is_some() {
                t
            } else {
                max_bars_back_from_expr(else_expr)
            }
        },
        HirExprKind::Switch { selector, arms } => {
            let s = match selector {
                Some(s) => max_bars_back_from_expr(s),
                None => None,
            };
            if s.is_some() {
                s
            } else {
                arms_max_bars_back(arms)
            }
        },
        HirExprKind::For { from, to, step, statements, result } => {
            let f = max_bars_back_from_expr(from);
            if f.is_some() {
                return f;
            }
            let t = max_bars_back_from_expr(to);
            if t.is_some() {
                return t;
            }
            let s = match step {
                Some(s) => max_bars_back_from_expr(s),
                None => None,
            };
            if s.is_some() {
                return s;
            }
            let b = infer_max_bars_back(statements);
            if b.is_some() {
                b
            } else {
                max_bars_back_from_expr(result)
            }
        },
        HirExprKind::Tuple(items) => exprs_max_bars_back(items),
        HirExprKind::UserTypeConstruct { fields } => exprs_max_bars_back(fields),
        HirExprKind::FieldAccess { value } => max_bars_back_from_expr(value),
        HirExprKind::Block { statements, result } => {
            let b = infer_max_bars_back(statements);
            if b.is_some() {
                b
            } else {
                max_bars_back_from_expr(result)
            }
        },
        HirExprKind::History { expr: inner, offset } => {
            let e = max_bars_back_from_expr(inner);
            if e.is_some() {
                return e;
            }
            match offset {
                HirHistoryOffset::Dynamic(o) => max_bars_back_from_expr(o),
                HirHistoryOffset::Constant(_) => None,
            }
        },
        _ => None,
    }
}

fn args_max_bars_back(args: &Vec<HirCallArg>) -> (r: Option<u32>)
    ensures
        r == spec_args_max_bars_back(args@),
    decreases args@,
{
    let n = args.len();
    let mut i: usize = 0;
    while i < n
        invariant
            n == args@.len(),
            i <= n,
            spec_args_max_bars_back(args@.take(i as int)) is None,
        decreases n - i,
    {
        assert(args@.take((i + 1) as int).drop_last() =~= args@.take(i as int));
        let found = max_bars_back_from_expr(&args[i].value);
        if found.is_some() {
            proof {
                lemma_args_found_prefix(args@, (i + 1) as int);
            }
            return found;
        }
        i = i + 1;
    }
    assert(args@.take(n as int) =~= args@);
    None
}

proof fn lemma_args_found_prefix(s: Seq<HirCallArg>, k: int)
    requires
        0 <= k <= s.len(),
    ensures
        spec_args_max_bars_back(s.take(k)) is Some ==> spec_args_max_bars_back(s) == spec_args_max_bars_back(
            s.take(k),
        ),
    decreases s.len(),
{
    if k < s.len() {
        assert(s.drop_last().take(k) =~= s.take(k));
        lemma_args_found_prefix(s.drop_last(), k);
    } else {
        assert(s.take(k) =~= s);
    }
}

fn exprs_max_bars_back(items: &Vec<HirExpr>) -> (r: Option<u32>)
    ensures
        r == spec_exprs_max_bars_back(items@),
    decreases items@,
{
    let n = items.len();
    let mut i: usize = 0;
    while i < n
        invariant
            n == items@.len(),
            i <= n,
            spec_exprs_max_bars_back(items@.take(i as int)) is None,
        decreases n - i,
    {
        assert(items@.take((i + 1) as int).drop_last() =~= items@.take(i as int));
        let found = max_bars_back_from_expr(&items[i]);
        if found.is_some() {
            proof {
                lemma_exprs_found_prefix(items@, (i + 1) as int);
            }
            return found;
        }
        i = i + 1;
    }
    assert(items@.take(n as int) =~= items@);
    None
}

proof fn lemma_exprs_found_prefix(s: Seq<HirExpr>, k: int)
    requires
        0 <= k <= s.len(),
    ensures
        spec_exprs_max_bars_back(s.take(k)) is Some ==> spec_exprs_max_bars_back(s) == spec_exprs_max_bars_back(
            s.take(k),
        ),
    decreases s.len(),
{
    if k < s.len() {
        assert(s.drop_last().take(k) =~= s.take(k));
        lemma_exprs_found_prefix(s.drop_last(), k);
    } else {
        assert(s.take(k) =~= s);
    }
}

fn arm_max_bars_back(arm: &HirSwitchArm) -> (r: Option<u32>)
    ensures
        r == spec_arm_max_bars_back(*arm),
    decreases *arm,
{
    let c = match &arm.condition {
        Some(c) => max_bars_back_from_expr(c),
        None => None,
    };
    if c.is_some() {
        c
    } else {
        max_bars_back_from_expr(&arm.result)
    }
}

fn arms_max_bars_back(arms: &Vec<HirSwitchArm>) -> (r: Option<u32>)
    ensures
        r == spec_arms_max_bars_back(arms@),
    decreases arms@,
{
    let n = arms.len();
    let mut i: usize = 0;
    while i < n
        invariant
            n == arms@.len(),
            i <= n,
            spec_arms_max_bars_back(arms@.take(i as int)) is None,
        decreases n - i,
    {
        assert(arms@.take((i + 1) as int).drop_last() =~= arms@.take(i as int));
        let found = arm_max_bars_back(&arms[i]);
        if found.is_some() {
            proof {
                lemma_arms_found_prefix(arms@, (i + 1) as int);
            }
            return found;
        }
        i = i + 1;
    }
    assert(arms@.take(n as int) =~= arms@);
    None
}

proof fn lemma_arms_found_prefix(s: Seq<HirSwitchArm>, k: int)
    requires
        0 <= k <= s.len(),
    ensures
        spec_arms_max_bars_back(s.take(k)) is Some ==> spec_arms_max_bars_back(s) == spec_arms_max_bars_back(
            s.take(k),
        ),
    decreases s.len(),
{
    if k < s.len() {
        assert(s.drop_last().take(k) =~= s.take(k));
        lemma_arms_found_prefix(s.drop_last(), k);
    } else {
        assert(s.take(k) =~= s);
    }
}

/// The `max_bars_back` a statement declares.
pub fn max_bars_back_from_stmt(statement: &HirStmt) -> (r: Option<u32>)
    ensures
        r == spec_max_bars_back_from_stmt(*statement),
    decreases *statement,
{
    match &statement.kind {
        HirStmtKind::Expr(e) => max_bars_back_from_expr(e),
        HirStmtKind::Decl { value } => max_bars_back_from_expr(value),
        HirStmtKind::Reassign { value } => max_bars_back_from_expr(value),
        HirStmtKind::FieldReassign { value } => max_bars_back_from_expr(value),
        HirStmtKind::TupleDecl { value } => max_bars_back_from_expr(value),
        HirStmtKind::If { condition, then_branch, else_branch } => {
            let c = max_bars_back_from_expr(condition);
            if c.is_some() {
                return c;
            }
            let t = infer_max_bars_back(then_branch);
            if t.is_some() {
                t
            } else {
                infer_max_bars_back(else_branch)
            }
        },
        HirStmtKind::For { from, to, step, body } => {
            let f = max_bars_back_from_expr(from);
            if f.is_some() {
                return f;
            }
            let t = max_bars_back_from_expr(to);
            if t.is_some() {
                return t;
            }
            let s = match step {
                Some(s) => max_bars_back_from_expr(s),
                None => None,
            };
            if s.is_some() {
                s
            } else {
                infer_max_bars_back(body)
            }
        },
        HirStmtKind::While { condition, body } => {
            let c = max_bars_back_from_expr(condition);
            if c.is_some() {
                c
            } else {
                infer_max_bars_back(body)
            }
        },
        _ => None,
    }
}

/// The `max_bars_back` the first declaring statement of a program gives.
pub fn infer_max_bars_back(statements: &Vec<HirStmt>) -> (r: Option<u32>)
    ensures
        r == spec_stmts_max_bars_back(statements@),
    decreases statements@,
{
    let n = statements.len();
    let mut i: usize = 0;
    while i < n
        invariant
            n == statements@.len(),
            i <= n,
            spec_stmts_max_bars_back(statements@.take(i as int)) is None,
        decreases n - i,
    {
        assert(statements@.take((i + 1) as int).drop_last() =~= statements@.take(i as int));
        let found = max_bars_back_from_stmt(&statements[i]);
        if found.is_some() {
            proof {
                lemma_stmts_found_prefix(statements@, (i + 1) as int);
            }
            return found;
        }
        i = i + 1;
    }
    assert(statements@.take(n as int) =~= statements@);
    None
}

proof fn lemma_stmts_found_prefix(s: Seq<HirStmt>, k: int)
    requires
        0 <= k <= s.len(),
    ensures
        spec_stmts_max_bars_back(s.take(k)) is Some ==> spec_stmts_max_bars_back(s) == spec_stmts_max_bars_back(
            s.take(k),
        ),
    decreases s.len(),
{
    if k < s.len() {
        assert(s.drop_last().take(k) =~= s.take(k));
        lemma_stmts_found_prefix(s.drop_last(), k);
    } else {
        assert(s.take(k) =~= s);
    }
}

} // verus!
