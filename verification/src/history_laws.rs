//! Every history reference counts: a constant look-back `x[o]` anywhere in
//! a program, in any branch, loop, block, call argument or statement, makes
//! the program (and the series `x` reads) need at least `o` bars.
use vstd::prelude::*;

use crate::hir::{
    BuiltinHistoryRequirement, BuiltinHistoryTable, HirCallArg, HirExpr, HirExprKind, HirHistoryOffset, HirStmt,
    HirStmtKind, HirSwitchArm, HirSymbol, SeriesId,
};
use crate::history::{
    program_events, spec_args_events, spec_arm_events, spec_arms_events, spec_expr_events, spec_exprs_events,
    spec_program_requirements, spec_series_requirements, spec_stmt_events, spec_stmts_events, HistoryEvent,
};

verus! {

/// Whether offset `offset` reads `o` bars back: a constant offset of `o`
/// bars, or (for `o` of `None`) a dynamic offset.
pub open spec fn looks_back_by(offset: HirHistoryOffset, o: Option<u32>) -> bool {
    match offset {
        HirHistoryOffset::Constant(c) => o == Some(c),
        HirHistoryOffset::Dynamic(_) => o is None,
    }
}

/// Whether a history reference reading `o` bars back (`None`: a number of
/// bars known only at run time) from an expression of series `s` occurs
/// anywhere in `e`.
pub open spec fn expr_reads_back(e: HirExpr, s: Option<SeriesId>, o: Option<u32>) -> bool
    decreases e,
{
    match e.kind {
        HirExprKind::Literal(_) => false,
        HirExprKind::Symbol(_) => false,
        HirExprKind::Builtin(_) => false,
        HirExprKind::Unary { expr, .. } => expr_reads_back(*expr, s, o),
        HirExprKind::Binary { left, right } => expr_reads_back(*left, s, o) || expr_reads_back(*right, s, o),
        HirExprKind::Ternary { condition, then_expr, else_expr } => expr_reads_back(*condition, s, o)
            || expr_reads_back(*then_expr, s, o) || expr_reads_back(*else_expr, s, o),
        HirExprKind::Switch { selector, arms } => (match selector {
            Some(x) => expr_reads_back(*x, s, o),
            None => false,
        }) || arms_read_back(arms@, s, o),
        HirExprKind::For { from, to, step, statements, result } => expr_reads_back(*from, s, o)
            || expr_reads_back(*to, s, o) || (match step {
            Some(x) => expr_reads_back(*x, s, o),
            None => false,
        }) || stmts_read_back(statements@, s, o) || expr_reads_back(*result, s, o),
        HirExprKind::Tuple(items) => exprs_read_back(items@, s, o),
        HirExprKind::UserTypeConstruct { fields } => exprs_read_back(fields@, s, o),
        HirExprKind::FieldAccess { value } => expr_reads_back(*value, s, o),
        HirExprKind::Block { statements, result } => stmts_read_back(statements@, s, o) || expr_reads_back(
            *result,
            s,
            o,
        ),
        HirExprKind::Call { args, .. } => args_read_back(args@, s, o),
        HirExprKind::History { expr, offset } => (looks_back_by(offset, o) && (*expr).series_id == s)
            || expr_reads_back(*expr, s, o) || (match offset {
            HirHistoryOffset::Dynamic(x) => expr_reads_back(*x, s, o),
            HirHistoryOffset::Constant(_) => false,
        }),
    }
}

pub open spec fn exprs_read_back(items: Seq<HirExpr>, s: Option<SeriesId>, o: Option<u32>) -> bool
    decreases items,
{
    if items.len() == 0 {
        false
    } else {
        exprs_read_back(items.drop_last(), s, o) || expr_reads_back(items.last(), s, o)
    }
}

pub open spec fn args_read_back(args: Seq<HirCallArg>, s: Option<SeriesId>, o: Option<u32>) -> bool
    decreases args,
{
    if args.len() == 0 {
        false
    } else {
        args_read_back(args.drop_last(), s, o) || expr_reads_back(args.last().value, s, o)
    }
}

pub open spec fn arm_reads_back(arm: HirSwitchArm, s: Option<SeriesId>, o: Option<u32>) -> bool
    decreases arm,
{
    (match arm.condition {
        Some(c) => expr_reads_back(c, s, o),
        None => false,
    }) || expr_reads_back(arm.result, s, o)
}

pub open spec fn arms_read_back(arms: Seq<HirSwitchArm>, s: Option<SeriesId>, o: Option<u32>) -> bool
    decreases arms,
{
    if arms.len() == 0 {
        false
    } else {
        arms_read_back(arms.drop_last(), s, o) || arm_reads_back(arms.last(), s, o)
    }
}

/// Whether such a history reference occurs anywhere in statement `st`.
pub open spec fn stmt_reads_back(st: HirStmt, s: Option<SeriesId>, o: Option<u32>) -> bool
    decreases st,
{
    match st.kind {
        HirStmtKind::Expr(e) => expr_reads_back(e, s, o),
        HirStmtKind::Decl { value } => expr_reads_back(value, s, o),
        HirStmtKind::Reassign { value } => expr_reads_back(value, s, o),
        HirStmtKind::FieldReassign { value } => expr_reads_back(value, s, o),
        HirStmtKind::TupleDecl { value } => expr_reads_back(value, s, o),
        HirStmtKind::If { condition, then_branch, else_branch } => expr_reads_back(condition, s, o)
            || stmts_read_back(then_branch@, s, o) || stmts_read_back(else_branch@, s, o),
        HirStmtKind::For { from, to, step, body } => expr_reads_back(from, s, o) || expr_reads_back(to, s, o)
            || (match step {
            Some(x) => expr_reads_back(x, s, o),
            None => false,
        }) || stmts_read_back(body@, s, o),
        HirStmtKind::While { condition, body } => expr_reads_back(condition, s, o) || stmts_read_back(
            body@,
            s,
            o,
        ),
        HirStmtKind::Break => false,
        HirStmtKind::Continue => false,
    }
}

pub open spec fn stmts_read_back(stmts: Seq<HirStmt>, s: Option<SeriesId>, o: Option<u32>) -> bool
    decreases stmts,
{
    if stmts.len() == 0 {
        false
    } else {
        stmts_read_back(stmts.drop_last(), s, o) || stmt_reads_back(stmts.last(), s, o)
    }
}

pub open spec fn look_back(s: Option<SeriesId>, o: Option<u32>) -> HistoryEvent {
    HistoryEvent { series: s, offset: o }
}

proof fn lemma_contains_concat<T>(a: Seq<T>, b: Seq<T>, x: T)
    ensures
        (a.contains(x) || b.contains(x)) ==> (a + b).contains(x),
{
    if a.contains(x) {
        let i = choose|i: int| 0 <= i < a.len() && a[i] == x;
        assert((a + b)[i] == x);
    } else if b.contains(x) {
        let i = choose|i: int| 0 <= i < b.len() && b[i] == x;
        assert((a + b)[a.len() + i] == x);
    }
}

proof fn lemma_expr_look_back(
    table: Seq<(String, BuiltinHistoryRequirement)>,
    symbols: Seq<HirSymbol>,
    e: HirExpr,
    s: Option<SeriesId>,
    o: Option<u32>,
)
    requires
        expr_reads_back(e, s, o),
    ensures
        spec_expr_events(table, symbols, e).contains(look_back(s, o)),
    decreases e,
{
    let x = look_back(s, o);
    match e.kind {
        HirExprKind::Unary { expr, .. } => lemma_expr_look_back(table, symbols, *expr, s, o),
        HirExprKind::Binary { left, right } => {
            let a = spec_expr_events(table, symbols, *left);
            let b = spec_expr_events(table, symbols, *right);
            if expr_reads_back(*left, s, o) {
                lemma_expr_look_back(table, symbols, *left, s, o);
            } else {
                lemma_expr_look_back(table, symbols, *right, s, o);
            }
            lemma_contains_concat(a, b, x);
        },
        HirExprKind::Ternary { condition, then_expr, else_expr } => {
            let a = spec_expr_events(table, symbols, *condition);
            let b = spec_expr_events(table, symbols, *then_expr);
            let c = spec_expr_events(table, symbols, *else_expr);
            if expr_reads_back(*condition, s, o) {
                lemma_expr_look_back(table, symbols, *condition, s, o);
            } else if expr_reads_back(*then_expr, s, o) {
                lemma_expr_look_back(table, symbols, *then_expr, s, o);
            } else {
                lemma_expr_look_back(table, symbols, *else_expr, s, o);
            }
            lemma_contains_concat(a, b, x);
            lemma_contains_concat(a + b, c, x);
        },
        HirExprKind::Switch { selector, arms } => {
            let a = match selector {
                Some(sel) => spec_expr_events(table, symbols, *sel),
                None => Seq::empty(),
            };
            match selector {
                Some(sel) => if expr_reads_back(*sel, s, o) {
                    lemma_expr_look_back(table, symbols, *sel, s, o);
                },
                None => {},
            }
            if arms_read_back(arms@, s, o) {
                lemma_arms_look_back(table, symbols, arms@, s, o);
            }
            lemma_contains_concat(a, spec_arms_events(table, symbols, arms@), x);
        },
        HirExprKind::For { from, to, step, statements, result } => {
            let a = spec_expr_events(table, symbols, *from);
            let b = spec_expr_events(table, symbols, *to);
            let c = match step {
                Some(st) => spec_expr_events(table, symbols, *st),
                None => Seq::empty(),
            };
            let d = spec_stmts_events(table, symbols, statements@);
            let f = spec_expr_events(table, symbols, *result);
            if expr_reads_back(*from, s, o) {
                lemma_expr_look_back(table, symbols, *from, s, o);
            }
            if expr_reads_back(*to, s, o) {
                lemma_expr_look_back(table, symbols, *to, s, o);
            }
            match step {
                Some(st) => if expr_reads_back(*st, s, o) {
                    lemma_expr_look_back(table, symbols, *st, s, o);
                },
                None => {},
            }
            if stmts_read_back(statements@, s, o) {
                lemma_stmts_look_back(table, symbols, statements@, s, o);
            }
            if expr_reads_back(*result, s, o) {
                lemma_expr_look_back(table, symbols, *result, s, o);
            }
            lemma_contains_concat(a, b, x);
            lemma_contains_concat(a + b, c, x);
            lemma_contains_concat(a + b + c, d, x);
            lemma_contains_concat(a + b + c + d, f, x);
        },
        HirExprKind::Tuple(items) => lemma_exprs_look_back(table, symbols, items@, s, o),
        HirExprKind::UserTypeConstruct { fields } => lemma_exprs_look_back(table, symbols, fields@, s, o),
        HirExprKind::FieldAccess { value } => lemma_expr_look_back(table, symbols, *value, s, o),
        HirExprKind::Block { statements, result } => {
            let a = spec_stmts_events(table, symbols, statements@);
            let b = spec_expr_events(table, symbols, *result);
            if stmts_read_back(statements@, s, o) {
                lemma_stmts_look_back(table, symbols, statements@, s, o);
            } else {
                lemma_expr_look_back(table, symbols, *result, s, o);
            }
            lemma_contains_concat(a, b, x);
        },
        HirExprKind::Call { callee, args } => {
            lemma_args_look_back(table, symbols, args@, s, o);
            lemma_contains_concat(
                spec_args_events(table, symbols, args@),
                crate::history::spec_builtin_events(table, symbols, callee@, args@),
                x,
            );
        },
        HirExprKind::History { expr, offset } => {
            let head = seq![HistoryEvent { series: (*expr).series_id, offset: crate::history::offset_of(offset) }];
            let a = spec_expr_events(table, symbols, *expr);
            let c = match offset {
                HirHistoryOffset::Dynamic(d) => spec_expr_events(table, symbols, *d),
                HirHistoryOffset::Constant(_) => Seq::empty(),
            };
            if looks_back_by(offset, o) && (*expr).series_id == s {
                assert(head[0] == x);
                assert(head.contains(x));
            } else if expr_reads_back(*expr, s, o) {
                lemma_expr_look_back(table, symbols, *expr, s, o);
            } else {
                match offset {
                    HirHistoryOffset::Dynamic(d) => lemma_expr_look_back(table, symbols, *d, s, o),
                    HirHistoryOffset::Constant(_) => {},
                }
            }
            lemma_contains_concat(head, a, x);
            lemma_contains_concat(head + a, c, x);
        },
        _ => {},
    }
}

proof fn lemma_exprs_look_back(
    table: Seq<(String, BuiltinHistoryRequirement)>,
    symbols: Seq<HirSymbol>,
    items: Seq<HirExpr>,
    s: Option<SeriesId>,
    o: Option<u32>,
)
    requires
        exprs_read_back(items, s, o),
    ensures
        spec_exprs_events(table, symbols, items).contains(look_back(s, o)),
    decreases items,
{
    if items.len() > 0 {
        if exprs_read_back(items.drop_last(), s, o) {
            lemma_exprs_look_back(table, symbols, items.drop_last(), s, o);
        } else {
            lemma_expr_look_back(table, symbols, items.last(), s, o);
        }
        lemma_contains_concat(
            spec_exprs_events(table, symbols, items.drop_last()),
            spec_expr_events(table, symbols, items.last()),
            look_back(s, o),
        );
    }
}

proof fn lemma_args_look_back(
    table: Seq<(String, BuiltinHistoryRequirement)>,
    symbols: Seq<HirSymbol>,
    args: Seq<HirCallArg>,
    s: Option<SeriesId>,
    o: Option<u32>,
)
    requires
        args_read_back(args, s, o),
    ensures
        spec_args_events(table, symbols, args).contains(look_back(s, o)),
    decreases args,
{
    if args.len() > 0 {
        if args_read_back(args.drop_last(), s, o) {
            lemma_args_look_back(table, symbols, args.drop_last(), s, o);
        } else {
            lemma_expr_look_back(table, symbols, args.last().value, s, o);
        }
        lemma_contains_concat(
            spec_args_events(table, symbols, args.drop_last()),
            spec_expr_events(table, symbols, args.last().value),
            look_back(s, o),
        );
    }
}

proof fn lemma_arm_look_back(
    table: Seq<(String, BuiltinHistoryRequirement)>,
    symbols: Seq<HirSymbol>,
    arm: HirSwitchArm,
    s: Option<SeriesId>,
    o: Option<u32>,
)
    requires
        arm_reads_back(arm, s, o),
    ensures
        spec_arm_events(table, symbols, arm).contains(look_back(s, o)),
    decreases arm,
{
    let a = match arm.condition {
        Some(c) => spec_expr_events(table, symbols, c),
        None => Seq::empty(),
    };
    match arm.condition {
        Some(c) => if expr_reads_back(c, s, o) {
            lemma_expr_look_back(table, symbols, c, s, o);
        },
        None => {},
    }
    if expr_reads_back(arm.result, s, o) {
        lemma_expr_look_back(table, symbols, arm.result, s, o);
    }
    lemma_contains_concat(a, spec_expr_events(table, symbols, arm.result), look_back(s, o));
}

proof fn lemma_arms_look_back(
    table: Seq<(String, BuiltinHistoryRequirement)>,
    symbols: Seq<HirSymbol>,
    arms: Seq<HirSwitchArm>,
    s: Option<SeriesId>,
    o: Option<u32>,
)
    requires
        arms_read_back(arms, s, o),
    ensures
        spec_arms_events(table, symbols, arms).contains(look_back(s, o)),
    decreases arms,
{
    if arms.len() > 0 {
        if arms_read_back(arms.drop_last(), s, o) {
            lemma_arms_look_back(table, symbols, arms.drop_last(), s, o);
        } else {
            lemma_arm_look_back(table, symbols, arms.last(), s, o);
        }
        lemma_contains_concat(
            spec_arms_events(table, symbols, arms.drop_last()),
            spec_arm_events(table, symbols, arms.last()),
            look_back(s, o),
        );
    }
}

proof fn lemma_stmt_look_back(
    table: Seq<(String, BuiltinHistoryRequirement)>,
    symbols: Seq<HirSymbol>,
    st: HirStmt,
    s: Option<SeriesId>,
    o: Option<u32>,
)
    requires
        stmt_reads_back(st, s, o),
    ensures
        spec_stmt_events(table, symbols, st).contains(look_back(s, o)),
    decreases st,
{
    let x = look_back(s, o);
    match st.kind {
        HirStmtKind::Expr(e) => lemma_expr_look_back(table, symbols, e, s, o),
        HirStmtKind::Decl { value } => lemma_expr_look_back(table, symbols, value, s, o),
        HirStmtKind::Reassign { value } => lemma_expr_look_back(table, symbols, value, s, o),
        HirStmtKind::FieldReassign { value } => lemma_expr_look_back(table, symbols, value, s, o),
        HirStmtKind::TupleDecl { value } => lemma_expr_look_back(table, symbols, value, s, o),
        HirStmtKind::If { condition, then_branch, else_branch } => {
            let a = spec_expr_events(table, symbols, condition);
            let b = spec_stmts_events(table, symbols, then_branch@);
            let c = spec_stmts_events(table, symbols, else_branch@);
            if expr_reads_back(condition, s, o) {
                lemma_expr_look_back(table, symbols, condition, s, o);
            } else if stmts_read_back(then_branch@, s, o) {
                lemma_stmts_look_back(table, symbols, then_branch@, s, o);
            } else {
                lemma_stmts_look_back(table, symbols, else_branch@, s, o);
            }
            lemma_contains_concat(a, b, x);
            lemma_contains_concat(a + b, c, x);
        },
        HirStmtKind::For { from, to, step, body } => {
            let a = spec_expr_events(table, symbols, from);
            let b = spec_expr_events(table, symbols, to);
            let c = match step {
                Some(sx) => spec_expr_events(table, symbols, sx),
                None => Seq::empty(),
            };
            let d = spec_stmts_events(table, symbols, body@);
            if expr_reads_back(from, s, o) {
                lemma_expr_look_back(table, symbols, from, s, o);
            }
            if expr_reads_back(to, s, o) {
                lemma_expr_look_back(table, symbols, to, s, o);
            }
            match step {
                Some(sx) => if expr_reads_back(sx, s, o) {
                    lemma_expr_look_back(table, symbols, sx, s, o);
                },
                None => {},
            }
            if stmts_read_back(body@, s, o) {
                lemma_stmts_look_back(table, symbols, body@, s, o);
            }
            lemma_contains_concat(a, b, x);
            lemma_contains_concat(a + b, c, x);
            lemma_contains_concat(a + b + c, d, x);
        },
        HirStmtKind::While { condition, body } => {
            if expr_reads_back(condition, s, o) {
                lemma_expr_look_back(table, symbols, condition, s, o);
            } else {
                lemma_stmts_look_back(table, symbols, body@, s, o);
            }
            lemma_contains_concat(spec_expr_events(table, symbols, condition), spec_stmts_events(table, symbols, body@), x);
        },
        _ => {},
    }
}

proof fn lemma_stmts_look_back(
    table: Seq<(String, BuiltinHistoryRequirement)>,
    symbols: Seq<HirSymbol>,
    stmts: Seq<HirStmt>,
    s: Option<SeriesId>,
    o: Option<u32>,
)
    requires
        stmts_read_back(stmts, s, o),
    ensures
        spec_stmts_events(table, symbols, stmts).contains(look_back(s, o)),
    decreases stmts,
{
    if stmts.len() > 0 {
        if stmts_read_back(stmts.drop_last(), s, o) {
            lemma_stmts_look_back(table, symbols, stmts.drop_last(), s, o);
        } else {
            lemma_stmt_look_back(table, symbols, stmts.last(), s, o);
        }
        lemma_contains_concat(
            spec_stmts_events(table, symbols, stmts.drop_last()),
            spec_stmt_events(table, symbols, stmts.last()),
            look_back(s, o),
        );
    }
}

/// A look-back among the events bounds the requirements from below: a
/// constant one by its number of bars, a dynamic one by marking them
/// dynamic.
proof fn lemma_look_back_bounds_requirements(events: Seq<HistoryEvent>, s: Option<SeriesId>, o: Option<u32>)
    requires
        events.contains(look_back(s, o)),
    ensures
        o matches Some(n) ==> spec_program_requirements(events).max_constant_offset >= n,
        o is None ==> spec_program_requirements(events).has_dynamic_offsets,
        s matches Some(id) ==> (o matches Some(n) ==> spec_series_requirements(events, id).max_constant_offset >= n),
        s matches Some(id) ==> (o is None ==> spec_series_requirements(events, id).has_dynamic_offsets),
    decreases events.len(),
{
    let rest = events.drop_last();
    if events.last() == look_back(s, o) {
    } else {
        let i = choose|i: int| 0 <= i < events.len() && events[i] == look_back(s, o);
        assert(rest[i] == look_back(s, o));
        lemma_look_back_bounds_requirements(rest, s, o);
    }
}

/// The program's requirement is exactly what its look-backs ask: its
/// constant look-back is the longest constant look-back among them (0 when
/// there is none), and it is dynamic exactly when one of them is.
pub proof fn lemma_program_requirement_is_the_longest_look_back(events: Seq<HistoryEvent>)
    ensures
        forall|i: int|
            0 <= i < events.len() ==> ((#[trigger] events[i]).offset matches Some(n) ==> n
                <= spec_program_requirements(events).max_constant_offset),
        spec_program_requirements(events).max_constant_offset == 0 || exists|i: int|
            0 <= i < events.len() && (#[trigger] events[i]).offset == Some(
                spec_program_requirements(events).max_constant_offset,
            ),
        spec_program_requirements(events).has_dynamic_offsets <==> exists|i: int|
            0 <= i < events.len() && (#[trigger] events[i]).offset is None,
    decreases events.len(),
{
    if events.len() > 0 {
        let rest = events.drop_last();
        lemma_program_requirement_is_the_longest_look_back(rest);
        assert forall|i: int| 0 <= i < rest.len() implies #[trigger] events[i] == rest[i] by {}
        let r = spec_program_requirements(events);
        if r.max_constant_offset != 0 {
            if events.last().offset == Some(r.max_constant_offset) {
                assert(events[events.len() - 1].offset == Some(r.max_constant_offset));
            } else {
                let i = choose|i: int|
                    0 <= i < rest.len() && (#[trigger] rest[i]).offset == Some(
                        spec_program_requirements(rest).max_constant_offset,
                    );
                assert(events[i] == rest[i]);
            }
        }
        if r.has_dynamic_offsets {
            if events.last().offset is None {
                assert(events[events.len() - 1].offset is None);
            } else {
                let i = choose|i: int| 0 <= i < rest.len() && (#[trigger] rest[i]).offset is None;
                assert(events[i] == rest[i]);
            }
        }
        if exists|i: int| 0 <= i < events.len() && (#[trigger] events[i]).offset is None {
            let i = choose|i: int| 0 <= i < events.len() && (#[trigger] events[i]).offset is None;
            if i < rest.len() {
                assert(rest[i] == events[i]);
            }
        }
    }
}

/// Every history reference in a program counts, wherever it stands: for
/// each history reference `x[o]` in the program's statements (in either
/// branch of a conditional, any switch arm, loop, block, call argument or
/// statement), the program needs at least `o` bars of history (a dynamic
/// look-back marks its history dynamic), and so does the series `x` reads.
pub proof fn lemma_every_look_back_is_required(
    statements: Seq<HirStmt>,
    symbols: Seq<HirSymbol>,
    builtins: BuiltinHistoryTable,
    s: Option<SeriesId>,
    o: Option<u32>,
)
    requires
        stmts_read_back(statements, s, o),
    ensures
        o matches Some(n) ==> spec_program_requirements(program_events(statements, symbols, builtins)).max_constant_offset
            >= n,
        o is None ==> spec_program_requirements(program_events(statements, symbols, builtins)).has_dynamic_offsets,
        s matches Some(id) ==> (o matches Some(n) ==> spec_series_requirements(
            program_events(statements, symbols, builtins),
            id,
        ).max_constant_offset >= n),
        s matches Some(id) ==> (o is None ==> spec_series_requirements(
            program_events(statements, symbols, builtins),
            id,
        ).has_dynamic_offsets),
{
    lemma_stmts_look_back(builtins.entries@, symbols, statements, s, o);
    lemma_look_back_bounds_requirements(program_events(statements, symbols, builtins), s, o);
}

/// A series' requirement is exactly what the look-backs reading it ask:
/// the longest constant look-back on it (0 when there is none), dynamic
/// exactly when one of its look-backs is.
pub proof fn lemma_series_requirement_is_its_longest_look_back(events: Seq<HistoryEvent>, id: SeriesId)
    ensures
        forall|i: int|
            0 <= i < events.len() ==> ((#[trigger] events[i]).series == Some(id) && events[i].offset is Some
                ==> events[i].offset.unwrap() <= spec_series_requirements(events, id).max_constant_offset),
        spec_series_requirements(events, id).max_constant_offset == 0 || exists|i: int|
            0 <= i < events.len() && (#[trigger] events[i]).series == Some(id) && events[i].offset == Some(
                spec_series_requirements(events, id).max_constant_offset,
            ),
        spec_series_requirements(events, id).has_dynamic_offsets <==> exists|i: int|
            0 <= i < events.len() && (#[trigger] events[i]).series == Some(id) && events[i].offset is None,
    decreases events.len(),
{
    if events.len() > 0 {
        let rest = events.drop_last();
        lemma_series_requirement_is_its_longest_look_back(rest, id);
        assert forall|i: int| 0 <= i < rest.len() implies #[trigger] events[i] == rest[i] by {}
        let r = spec_series_requirements(events, id);
        let last = events.len() - 1;
        if r.max_constant_offset != 0 {
            if events.last().series == Some(id) && events.last().offset == Some(r.max_constant_offset) {
                assert(events[last].series == Some(id));
            } else {
                let i = choose|i: int|
                    0 <= i < rest.len() && (#[trigger] rest[i]).series == Some(id) && rest[i].offset == Some(
                        spec_series_requirements(rest, id).max_constant_offset,
                    );
                assert(events[i] == rest[i]);
            }
        }
        if r.has_dynamic_offsets {
            if events.last().series == Some(id) && events.last().offset is None {
                assert(events[last].series == Some(id));
            } else {
                let i = choose|i: int|
                    0 <= i < rest.len() && (#[trigger] rest[i]).series == Some(id) && rest[i].offset is None;
                assert(events[i] == rest[i]);
            }
        }
        if exists|i: int|
            0 <= i < events.len() && (#[trigger] events[i]).series == Some(id) && events[i].offset is None {
            let i = choose|i: int|
                0 <= i < events.len() && (#[trigger] events[i]).series == Some(id) && events[i].offset is None;
            if i < rest.len() {
                assert(rest[i] == events[i]);
            }
        }
    }
}

} // verus!
