//! The expression-level analysis: the checks it makes on literals, names,
//! conditionals, tuples and history references as it walks an expression,
//! with the types of names, calls and operators as the rest of the
//! analysis resolved them.
use vstd::prelude::*;
use vstd::string::*;

use crate::call_helpers::spec_expr_name;
use crate::compatibility::{feature_uses_view, unsupported, unsupported_diag, unsupported_view, UnsupportedView};
use crate::expression_checks::{
    branch_type_error_view, expect_bool, merge_branch_types, spec_history_offset_refusals, spec_merged_branch_type,
    validate_history_offset,
};
use crate::field_mutations::{symbol_type, symbol_type_of, UdtReceiver};
use crate::statements::{find_scope, resolve_scope};
use crate::call_resolution::{resolve_call, spec_resolve_call};
use crate::operator_typing::{binary_diags, infer_binary, infer_unary, spec_infer_binary, spec_infer_unary, unary_diags};
use crate::user_types::UserTypeInfo;
use crate::statements::{bool_diags, keeps_rest, literal_int, type_of_span, with_diags, with_feature, AnalyzerState, AnalyzerView};
use crate::strings::{spec_starts_with, str_eq};
use crate::syntax::{diags_view, error_view, push_error, CallArg, DiagView, Expr, ExprKind, Literal, Span, SwitchArm};
use crate::type_queries::{literal_type, spec_literal_type};
use crate::types::{
    merge_result_types, spec_merge_result_types, spec_strongest_qualifier, spec_value_kind_debug_name, strongest_qualifier,
    value_kind_debug_name, PineType, Qualifier, ValueKind,
};
use crate::unsupported::{check_feature_expr, spec_feature_refusal};

verus! {

/// What the rest of the analysis resolved: the type of builtin variables,
/// calls, fields and other resolved expressions (by span); the names the
/// builtin registry supports; the conditionals whose user-defined type
/// branches resolve to one identity (by span); the element types of tuple
/// values (by span); the script's user-defined types; the field
/// reassignments whose receiver holds a user-defined type value; the
/// user-defined type of values (by span); and the callee names that resolve
/// to a user-defined function, method or constructor.
pub struct ExprKnowledge {
    pub types: Vec<(Span, PineType)>,
    pub builtins: Vec<String>,
    pub same_udt_ternaries: Vec<Span>,
    pub tuples: Vec<(Span, Vec<PineType>)>,
    pub user_types: Vec<UserTypeInfo>,
    pub udt_receivers: Vec<UdtReceiver>,
    pub value_user_types: Vec<(Span, String)>,
    pub callables: Vec<String>,
}

pub open spec fn is_builtin(k: ExprKnowledge, name: Seq<char>) -> bool {
    exists|i: int| 0 <= i < k.builtins@.len() && (#[trigger] k.builtins@[i])@ == name
}

/// The feature check of a name expression.
pub open spec fn feature_checked(v: AnalyzerView, k: ExprKnowledge, e: Expr) -> AnalyzerView {
    match spec_expr_name(e) {
        Some(name) => {
            let b = is_builtin(k, name);
            match spec_feature_refusal(name, b) {
                Some(reason) => AnalyzerView {
                    unsupported: v.unsupported.push((name, reason, e.span)),
                    diags: v.diags.push(unsupported_diag(name, reason, e.span)),
                    ..v
                },
                None => if b {
                    with_feature(v, name, e.span)
                } else {
                    v
                },
            }
        },
        None => v,
    }
}

pub open spec fn history_checked(v: AnalyzerView, offset: Expr, offset_type: Option<PineType>) -> AnalyzerView {
    let r = spec_history_offset_refusals(offset.span, literal_int(offset), offset_type);
    AnalyzerView {
        unsupported: v.unsupported + r,
        diags: v.diags + r.map_values(|u: UnsupportedView| unsupported_diag(u.0, u.1, u.2)),
        ..v
    }
}

pub open spec fn udt_history_reason() -> Seq<char> {
    "history references on user-defined type values are not supported in the current UDT subset"@
}

/// How deeply expressions may nest for the analysis.
pub const MAX_SEMA_EXPR_DEPTH: u32 = 128;

/// The analysis of `e` from `v`, its type and the state after it: an
/// expression nested too deeply is reported and not analyzed; any other is
/// analyzed one level deeper (see `spec_analyze_expr_inner`).
pub open spec fn spec_analyze_expr(v: AnalyzerView, k: ExprKnowledge, e: Expr) -> (Option<PineType>, AnalyzerView)
    decreases e, 2nat,
{
    if v.expr_depth >= MAX_SEMA_EXPR_DEPTH {
        (None, with_diags(v, seq![error_view("E_SEMA_EXPR_DEPTH"@, "expression is too deeply nested for semantic analysis"@, e.span)]))
    } else {
        let (r, v1) = spec_analyze_expr_inner(AnalyzerView { expr_depth: v.expr_depth + 1, ..v }, k, e);
        (r, AnalyzerView { expr_depth: v.expr_depth, ..v1 })
    }
}

/// The analysis of `e` itself: a call whose callee is no name is reported,
/// a named call has its arguments analyzed and is resolved (see
/// `spec_resolve_call`); a name resolves in the scopes, else to the type `k`
/// gives it (the builtin variables), and is otherwise an unknown symbol;
/// operators are typed over their operands (see `spec_infer_unary` and
/// `spec_infer_binary`); then the checks of literals, conditionals, tuples
/// and history references; a qualified name is a builtin (recorded), a
/// value the analysis resolved (a field, as `k` types it), or is checked as
/// a feature, an unknown named color being reported; a `switch` has its
/// selector and arms analyzed (see `spec_switch_arms`). `for` expressions
/// take the type `k` gives them.
pub open spec fn spec_analyze_expr_inner(v: AnalyzerView, k: ExprKnowledge, e: Expr) -> (Option<PineType>, AnalyzerView)
    decreases e, 1nat,
{
    match e.kind {
        ExprKind::Call { callee, args } => match spec_expr_name(*callee) {
            None => (None, with_diags(v, seq![error_view("E_CALL_TARGET"@, "expected function name"@, (*callee).span)])),
            Some(name) => spec_resolve_call(spec_analyze_args(v, k, args@), k, name, (*callee).span, e.span),
        },
        ExprKind::Literal(l) => (
            Some(spec_literal_type(l)),
            if l is Color {
                with_feature(v, "hex color literal"@, e.span)
            } else {
                v
            },
        ),
        ExprKind::Identifier(name) => {
            let v1 = feature_checked(v, k, e);
            if resolve_scope(v.scopes, name@, v.scopes.len() as int) is Some {
                (symbol_type(v, name@), v1)
            } else if type_of_span(k.types@, e.span) is Some {
                (type_of_span(k.types@, e.span), v1)
            } else {
                (None, with_diags(v1, seq![error_view("E_UNKNOWN_SYMBOL"@, "unknown symbol `"@ + name@ + "`"@, e.span)]))
            }
        },
        ExprKind::QualifiedName(_) => {
            let name = spec_expr_name(e).unwrap();
            let b = is_builtin(k, name);
            if !b && type_of_span(k.types@, e.span) is Some {
                (type_of_span(k.types@, e.span), v)
            } else {
                let v1 = feature_checked(v, k, e);
                if b {
                    (type_of_span(k.types@, e.span), v1)
                } else if spec_starts_with(name, "color."@) {
                    (None, with_diags(v1, seq![error_view("E_UNKNOWN_COLOR"@, "unknown named color `"@ + name + "`"@, e.span)]))
                } else {
                    (None, v1)
                }
            }
        },
        ExprKind::Unary { op, expr } => {
            let (t, v1) = spec_analyze_expr(v, k, *expr);
            match t {
                Some(t) => (spec_infer_unary(op, t), with_diags(v1, unary_diags(op, t, (*expr).span))),
                None => (None, v1),
            }
        },
        ExprKind::Binary { op, left, right } => {
            let (lt, v1) = spec_analyze_expr(v, k, *left);
            let (rt, v2) = spec_analyze_expr(v1, k, *right);
            match (lt, rt) {
                (Some(l), Some(r)) => (spec_infer_binary(op, l, r), with_diags(v2, binary_diags(op, l, r, e.span))),
                _ => (None, v2),
            }
        },
        ExprKind::Ternary { condition, then_expr, else_expr } => {
            let (ct, v1) = spec_analyze_expr(v, k, *condition);
            let v2 = with_diags(v1, bool_diags(ct, (*condition).span));
            let (tt, v3) = spec_analyze_expr(v2, k, *then_expr);
            let (et, v4) = spec_analyze_expr(v3, k, *else_expr);
            match (ct, tt, et) {
                (Some(c), Some(t), Some(f)) => match spec_merged_branch_type(c, t, f) {
                    None => (None, with_diags(v4, seq![branch_type_error_view(t, f, e.span)])),
                    Some(m) => if m.kind == ValueKind::UserType && !k.same_udt_ternaries@.contains(e.span) {
                        (
                            None,
                            with_diags(
                                v4,
                                seq![error_view("E_BRANCH_TYPE"@, "ternary user-defined type branches must resolve to the same UDT identity"@, e.span)],
                            ),
                        )
                    } else {
                        (Some(m), v4)
                    },
                },
                _ => (None, v4),
            }
        },
        ExprKind::Tuple(items) => (Some(PineType { qualifier: Qualifier::Series, kind: ValueKind::Tuple }), spec_analyze_items(v, k, items@)),
        ExprKind::Switch { selector, arms } => {
            let (st, v1) = match selector {
                Some(sel) => spec_analyze_expr(v, k, *sel),
                None => (None, v),
            };
            let q0 = match st {
                Some(t) => t.qualifier,
                None => Qualifier::Const,
            };
            let (q, rt, err, v3) = spec_switch_arms(with_feature(v1, "switch"@, e.span), k, selector is Some, q0, arms@, e.span);
            if err {
                (None, v3)
            } else {
                match rt {
                    None => (None, v3),
                    Some(t) => {
                        let pt = PineType { qualifier: spec_strongest_qualifier(q, t.qualifier), kind: t.kind };
                        if pt.kind == ValueKind::UserType && !k.same_udt_ternaries@.contains(e.span) {
                            (
                                None,
                                with_diags(
                                    v3,
                                    seq![error_view("E_BRANCH_TYPE"@, "switch user-defined type arms must resolve to the same UDT identity"@, e.span)],
                                ),
                            )
                        } else {
                            (Some(pt), v3)
                        }
                    },
                }
            }
        },
        ExprKind::History { expr, offset } => {
            let (vt, v1) = spec_analyze_expr(v, k, *expr);
            let (ot, v2) = spec_analyze_expr(v1, k, *offset);
            let v3 = history_checked(v2, *offset, ot);
            match vt {
                Some(t) => if t.kind == ValueKind::UserType {
                    (
                        None,
                        AnalyzerView {
                            unsupported: v3.unsupported.push(("user-defined type history"@, udt_history_reason(), (*expr).span)),
                            diags: v3.diags.push(unsupported_diag("user-defined type history"@, udt_history_reason(), (*expr).span)),
                            ..v3
                        },
                    )
                } else {
                    (Some(PineType { qualifier: Qualifier::Series, kind: t.kind }), v3)
                },
                None => (None, v3),
            }
        },
        _ => (type_of_span(k.types@, e.span), v),
    }
}

/// The analysis of tuple items in order.
pub open spec fn spec_analyze_items(v: AnalyzerView, k: ExprKnowledge, items: Seq<Expr>) -> AnalyzerView
    decreases items, 0nat,
{
    if items.len() == 0 {
        v
    } else {
        spec_analyze_expr(spec_analyze_items(v, k, items.drop_last()), k, items.last()).1
    }
}

/// The error for switch arms whose result kinds have nothing in common.
pub open spec fn switch_arms_error(current: Option<PineType>, next: PineType, span: Span) -> DiagView {
    error_view(
        "E_BRANCH_TYPE"@,
        "switch arms have incompatible types "@ + spec_value_kind_debug_name(current.unwrap().kind) + " and "@
            + spec_value_kind_debug_name(next.kind),
        span,
    )
}

/// The switch arms analyzed in order from the condition qualifier `q0`:
/// each arm's condition raises the qualifier (and, without a selector, must
/// be bool), each arm's result is merged into the result type; arms whose
/// results do not merge are reported. Gives the qualifier, the result type,
/// whether an arm did not merge, and the state after the arms.
pub open spec fn spec_switch_arms(
    v: AnalyzerView,
    k: ExprKnowledge,
    has_selector: bool,
    q0: Qualifier,
    arms: Seq<SwitchArm>,
    span: Span,
) -> (Qualifier, Option<PineType>, bool, AnalyzerView)
    decreases arms, 0nat,
{
    if arms.len() == 0 {
        (q0, None, false, v)
    } else {
        let (q, rt, err, v1) = spec_switch_arms(v, k, has_selector, q0, arms.drop_last(), span);
        let arm = arms.last();
        let (q2, v2) = match arm.condition {
            Some(c) => {
                let (ct, va) = spec_analyze_expr(v1, k, c);
                match ct {
                    Some(t) => (
                        spec_strongest_qualifier(q, t.qualifier),
                        if has_selector {
                            va
                        } else {
                            with_diags(va, bool_diags(Some(t), c.span))
                        },
                    ),
                    None => (q, va),
                }
            },
            None => (q, v1),
        };
        let (at, v3) = spec_analyze_expr(v2, k, arm.result);
        match at {
            Some(a) => match spec_merge_result_types(rt, a) {
                Some(m) => (q2, Some(m), err, v3),
                None => (q2, rt, true, with_diags(v3, seq![switch_arms_error(rt, a, span)])),
            },
            None => (q2, rt, err, v3),
        }
    }
}

/// The analysis of call arguments' values in order.
pub open spec fn spec_analyze_args(v: AnalyzerView, k: ExprKnowledge, args: Seq<CallArg>) -> AnalyzerView
    decreases args, 0nat,
{
    if args.len() == 0 {
        v
    } else {
        spec_analyze_expr(spec_analyze_args(v, k, args.drop_last()), k, args.last().value).1
    }
}

/// Analyzing an expression changes neither the depths nor the scopes.
pub proof fn lemma_analyze_expr_keeps_depths(v: AnalyzerView, k: ExprKnowledge, e: Expr)
    ensures
        spec_analyze_expr(v, k, e).1.block_depth == v.block_depth,
        spec_analyze_expr(v, k, e).1.loop_depth == v.loop_depth,
        spec_analyze_expr(v, k, e).1.function_depth == v.function_depth,
        spec_analyze_expr(v, k, e).1.expr_depth == v.expr_depth,
        spec_analyze_expr(v, k, e).1.scopes == v.scopes,
        spec_analyze_expr(v, k, e).1.function_stack == v.function_stack,
    decreases e, 2nat,
{
    if v.expr_depth < MAX_SEMA_EXPR_DEPTH {
        lemma_analyze_expr_inner_keeps_depths(AnalyzerView { expr_depth: v.expr_depth + 1, ..v }, k, e);
    }
}

pub proof fn lemma_analyze_expr_inner_keeps_depths(v: AnalyzerView, k: ExprKnowledge, e: Expr)
    ensures
        spec_analyze_expr_inner(v, k, e).1.block_depth == v.block_depth,
        spec_analyze_expr_inner(v, k, e).1.loop_depth == v.loop_depth,
        spec_analyze_expr_inner(v, k, e).1.function_depth == v.function_depth,
        spec_analyze_expr_inner(v, k, e).1.expr_depth == v.expr_depth,
        spec_analyze_expr_inner(v, k, e).1.scopes == v.scopes,
        spec_analyze_expr_inner(v, k, e).1.function_stack == v.function_stack,
    decreases e, 1nat,
{
    match e.kind {
        ExprKind::Call { callee, args } => lemma_analyze_args_keeps_depths(v, k, args@),
        ExprKind::Unary { expr, .. } => lemma_analyze_expr_keeps_depths(v, k, *expr),
        ExprKind::Binary { left, right, .. } => {
            lemma_analyze_expr_keeps_depths(v, k, *left);
            lemma_analyze_expr_keeps_depths(spec_analyze_expr(v, k, *left).1, k, *right);
        },
        ExprKind::Ternary { condition, then_expr, else_expr } => {
            let (ct, v1) = spec_analyze_expr(v, k, *condition);
            lemma_analyze_expr_keeps_depths(v, k, *condition);
            let v2 = with_diags(v1, bool_diags(ct, (*condition).span));
            lemma_analyze_expr_keeps_depths(v2, k, *then_expr);
            lemma_analyze_expr_keeps_depths(spec_analyze_expr(v2, k, *then_expr).1, k, *else_expr);
        },
        ExprKind::Tuple(items) => lemma_analyze_items_keeps_depths(v, k, items@),
        ExprKind::Switch { selector, arms } => {
            let (st, v1) = match selector {
                Some(sel) => spec_analyze_expr(v, k, *sel),
                None => (None, v),
            };
            match selector {
                Some(sel) => lemma_analyze_expr_keeps_depths(v, k, *sel),
                None => {},
            }
            let q0 = match st {
                Some(t) => t.qualifier,
                None => Qualifier::Const,
            };
            lemma_switch_arms_keep_depths(with_feature(v1, "switch"@, e.span), k, selector is Some, q0, arms@, e.span);
        },
        ExprKind::History { expr, offset } => {
            lemma_analyze_expr_keeps_depths(v, k, *expr);
            lemma_analyze_expr_keeps_depths(spec_analyze_expr(v, k, *expr).1, k, *offset);
        },
        _ => {},
    }
}

pub proof fn lemma_switch_arms_keep_depths(
    v: AnalyzerView,
    k: ExprKnowledge,
    has_selector: bool,
    q0: Qualifier,
    arms: Seq<SwitchArm>,
    span: Span,
)
    ensures
        spec_switch_arms(v, k, has_selector, q0, arms, span).3.block_depth == v.block_depth,
        spec_switch_arms(v, k, has_selector, q0, arms, span).3.loop_depth == v.loop_depth,
        spec_switch_arms(v, k, has_selector, q0, arms, span).3.function_depth == v.function_depth,
        spec_switch_arms(v, k, has_selector, q0, arms, span).3.expr_depth == v.expr_depth,
        spec_switch_arms(v, k, has_selector, q0, arms, span).3.scopes == v.scopes,
        spec_switch_arms(v, k, has_selector, q0, arms, span).3.function_stack == v.function_stack,
    decreases arms, 0nat,
{
    if arms.len() > 0 {
        lemma_switch_arms_keep_depths(v, k, has_selector, q0, arms.drop_last(), span);
        let (q, rt, err, v1) = spec_switch_arms(v, k, has_selector, q0, arms.drop_last(), span);
        let arm = arms.last();
        let v2 = match arm.condition {
            Some(c) => {
                lemma_analyze_expr_keeps_depths(v1, k, c);
                let (ct, va) = spec_analyze_expr(v1, k, c);
                match ct {
                    Some(t) => if has_selector {
                        va
                    } else {
                        with_diags(va, bool_diags(Some(t), c.span))
                    },
                    None => va,
                }
            },
            None => v1,
        };
        lemma_analyze_expr_keeps_depths(v2, k, arm.result);
    }
}

pub proof fn lemma_analyze_args_keeps_depths(v: AnalyzerView, k: ExprKnowledge, args: Seq<CallArg>)
    ensures
        spec_analyze_args(v, k, args).block_depth == v.block_depth,
        spec_analyze_args(v, k, args).loop_depth == v.loop_depth,
        spec_analyze_args(v, k, args).function_depth == v.function_depth,
        spec_analyze_args(v, k, args).expr_depth == v.expr_depth,
        spec_analyze_args(v, k, args).scopes == v.scopes,
        spec_analyze_args(v, k, args).function_stack == v.function_stack,
    decreases args, 0nat,
{
    if args.len() > 0 {
        lemma_analyze_args_keeps_depths(v, k, args.drop_last());
        lemma_analyze_expr_keeps_depths(spec_analyze_args(v, k, args.drop_last()), k, args.last().value);
    }
}

pub proof fn lemma_analyze_items_keeps_depths(v: AnalyzerView, k: ExprKnowledge, items: Seq<Expr>)
    ensures
        spec_analyze_items(v, k, items).block_depth == v.block_depth,
        spec_analyze_items(v, k, items).loop_depth == v.loop_depth,
        spec_analyze_items(v, k, items).function_depth == v.function_depth,
        spec_analyze_items(v, k, items).expr_depth == v.expr_depth,
        spec_analyze_items(v, k, items).scopes == v.scopes,
        spec_analyze_items(v, k, items).function_stack == v.function_stack,
    decreases items, 0nat,
{
    if items.len() > 0 {
        lemma_analyze_items_keeps_depths(v, k, items.drop_last());
        lemma_analyze_expr_keeps_depths(spec_analyze_items(v, k, items.drop_last()), k, items.last());
    }
}

fn span_type_of(types: &Vec<(Span, PineType)>, span: Span) -> (r: Option<PineType>)
    ensures
        r == type_of_span(types@, span),
{
    let n = types.len();
    let mut i: usize = 0;
    assert(types@.skip(0) =~= types@);
    while i < n
        invariant
            n == types@.len(),
            i <= n,
            type_of_span(types@, span) == type_of_span(types@.skip(i as int), span),
        decreases n - i,
    {
        assert(types@.skip(i as int).skip(1) =~= types@.skip((i + 1) as int));
        if types[i].0 == span {
            return Some(types[i].1);
        }
        i = i + 1;
    }
    None
}

fn builtin_named(k: &ExprKnowledge, name: &str) -> (r: bool)
    ensures
        r == is_builtin(*k, name@),
{
    let n = k.builtins.len();
    let mut i: usize = 0;
    while i < n
        invariant
            n == k.builtins@.len(),
            i <= n,
            forall|j: int| 0 <= j < i ==> (#[trigger] k.builtins@[j])@ != name@,
        decreases n - i,
    {
        if str_eq(k.builtins[i].as_str(), name) {
            return true;
        }
        i = i + 1;
    }
    false
}

fn same_udt_ternary(k: &ExprKnowledge, span: Span) -> (r: bool)
    ensures
        r == k.same_udt_ternaries@.contains(span),
{
    let n = k.same_udt_ternaries.len();
    let mut i: usize = 0;
    while i < n
        invariant
            n == k.same_udt_ternaries@.len(),
            i <= n,
            forall|j: int| 0 <= j < i ==> k.same_udt_ternaries@[j] != span,
        decreases n - i,
    {
        if k.same_udt_ternaries[i] == span {
            assert(k.same_udt_ternaries@[i as int] == span);
            return true;
        }
        i = i + 1;
    }
    false
}

fn literal_int_of(e: &Expr) -> (r: Option<i64>)
    ensures
        r == literal_int(*e),
{
    match &e.kind {
        ExprKind::Literal(Literal::Int(v)) => Some(*v),
        _ => None,
    }
}

/// Analyzes expression `expr` (see `spec_analyze_expr`), giving its type.
pub fn analyze_expr(state: &mut AnalyzerState, known: &ExprKnowledge, expr: &Expr) -> (r: Option<PineType>)
    ensures
        (r, final(state)@) == spec_analyze_expr(old(state)@, *known, *expr),
        keeps_rest(*old(state), *final(state)),
    decreases *expr, 2nat,
{
    if state.expr_depth >= MAX_SEMA_EXPR_DEPTH {
        push_error(
            &mut state.diagnostics,
            "E_SEMA_EXPR_DEPTH",
            String::from_str("expression is too deeply nested for semantic analysis"),
            expr.span,
        );
        return None;
    }
    state.expr_depth = state.expr_depth + 1;
    proof {
        lemma_analyze_expr_inner_keeps_depths(state@, *known, *expr);
    }
    let r = analyze_expr_inner(state, known, expr);
    state.expr_depth = if state.expr_depth > 0 {
        state.expr_depth - 1
    } else {
        0
    };
    r
}

/// Analyzes expression `expr` itself (see `spec_analyze_expr_inner`).
#[verifier::rlimit(100)]
pub fn analyze_expr_inner(state: &mut AnalyzerState, known: &ExprKnowledge, expr: &Expr) -> (r: Option<PineType>)
    ensures
        (r, final(state)@) == spec_analyze_expr_inner(old(state)@, *known, *expr),
        keeps_rest(*old(state), *final(state)),
    decreases *expr, 1nat,
{
    let ghost v0 = state@;
    match &expr.kind {
        ExprKind::Call { callee, args } => {
            match crate::call_helpers::expr_name(callee) {
                None => {
                    push_error(&mut state.diagnostics, "E_CALL_TARGET", String::from_str("expected function name"), callee.span);
                    None
                },
                Some(name) => {
                    analyze_args(state, known, args);
                    let builtin = builtin_named(known, name.as_str());
                    let call_type = span_type_of(&known.types, expr.span);
                    resolve_call(state, known, builtin, name.as_str(), callee.span, expr.span, call_type)
                },
            }
        },
        ExprKind::Literal(l) => {
            if let Literal::Color(_) = l {
                let ghost s0 = feature_uses_view(state.compatibility.supported@);
                crate::compatibility::push_feature_use(&mut state.compatibility.supported, "hex color literal", expr.span);
                assert(feature_uses_view(state.compatibility.supported@) =~= s0.push(("hex color literal"@, expr.span)));
            }
            Some(literal_type(l))
        },
        ExprKind::Identifier(name) => {
            let b = builtin_named(known, name.as_str());
            let ghost s0 = feature_uses_view(state.compatibility.supported@);
            let ghost u0 = unsupported_view(state.compatibility.unsupported@);
            let ghost d0 = diags_view(state.diagnostics@);
            check_feature_expr(expr, b, &mut state.compatibility.supported, &mut state.compatibility.unsupported, &mut state.diagnostics);
            proof {
                assert(spec_expr_name(*expr) == Some(name@));
                match spec_feature_refusal(name@, b) {
                    Some(reason) => {
                        assert(unsupported_view(state.compatibility.unsupported@) =~= u0.push((name@, reason, expr.span)));
                        assert(diags_view(state.diagnostics@) =~= d0.push(unsupported_diag(name@, reason, expr.span)));
                        assert(feature_uses_view(state.compatibility.supported@) =~= s0);
                    },
                    None => {
                        assert(unsupported_view(state.compatibility.unsupported@) =~= u0);
                        assert(diags_view(state.diagnostics@) =~= d0);
                        if b {
                            assert(feature_uses_view(state.compatibility.supported@) =~= s0.push((name@, expr.span)));
                        } else {
                            assert(feature_uses_view(state.compatibility.supported@) =~= s0);
                        }
                    },
                }
            }
            if find_scope(state, name.as_str()).is_some() {
                symbol_type_of(state, name.as_str())
            } else {
                match span_type_of(&known.types, expr.span) {
                    Some(t) => Some(t),
                    None => {
                        let s = String::from_str("unknown symbol `");
                        let s = s.concat(name.as_str());
                        let s = s.concat("`");
                        push_error(&mut state.diagnostics, "E_UNKNOWN_SYMBOL", s, expr.span);
                        None
                    },
                }
            }
        },
        ExprKind::QualifiedName(_) => analyze_qualified_name(state, known, expr),
        ExprKind::Unary { op, expr: inner } => {
            match analyze_expr(state, known, inner) {
                Some(t) => infer_unary(*op, t, inner.span, &mut state.diagnostics),
                None => None,
            }
        },
        ExprKind::Binary { op, left, right } => {
            let lt = analyze_expr(state, known, left);
            let rt = analyze_expr(state, known, right);
            match (lt, rt) {
                (Some(l), Some(r)) => infer_binary(*op, l, r, expr.span, &mut state.diagnostics),
                _ => None,
            }
        },
        ExprKind::Ternary { condition, then_expr, else_expr } => {
            let ct = analyze_expr(state, known, condition);
            let ghost d1 = diags_view(state.diagnostics@);
            match ct {
                Some(c) => expect_bool(c, condition.span, &mut state.diagnostics),
                None => {
                    assert(d1 =~= d1 + Seq::<DiagView>::empty());
                },
            }
            let tt = analyze_expr(state, known, then_expr);
            let et = analyze_expr(state, known, else_expr);
            match (ct, tt, et) {
                (Some(c), Some(t), Some(f)) => {
                    let ghost d4 = diags_view(state.diagnostics@);
                    match merge_branch_types(c, t, f, expr.span, &mut state.diagnostics) {
                        None => None,
                        Some(m) => {
                            if m.kind == ValueKind::UserType && !same_udt_ternary(known, expr.span) {
                                push_error(
                                    &mut state.diagnostics,
                                    "E_BRANCH_TYPE",
                                    String::from_str("ternary user-defined type branches must resolve to the same UDT identity"),
                                    expr.span,
                                );
                                None
                            } else {
                                assert(diags_view(state.diagnostics@) =~= d4);
                                Some(m)
                            }
                        },
                    }
                },
                _ => None,
            }
        },
        ExprKind::Tuple(items) => {
            analyze_items(state, known, items);
            Some(PineType::new(Qualifier::Series, ValueKind::Tuple))
        },
        ExprKind::Switch { .. } => analyze_switch_expr(state, known, expr),
        ExprKind::History { expr: value, offset } => {
            let vt = analyze_expr(state, known, value);
            let ot = analyze_expr(state, known, offset);
            let ghost u2 = unsupported_view(state.compatibility.unsupported@);
            let ghost d2 = diags_view(state.diagnostics@);
            validate_history_offset(offset.span, literal_int_of(offset), ot, &mut state.compatibility.unsupported, &mut state.diagnostics);
            match vt {
                Some(t) => {
                    if t.kind == ValueKind::UserType {
                        let ghost u3 = unsupported_view(state.compatibility.unsupported@);
                        let ghost d3 = diags_view(state.diagnostics@);
                        unsupported(
                            "user-defined type history",
                            "history references on user-defined type values are not supported in the current UDT subset",
                            value.span,
                            &mut state.compatibility.unsupported,
                            &mut state.diagnostics,
                        );
                        assert(unsupported_view(state.compatibility.unsupported@) =~= u3.push(("user-defined type history"@, udt_history_reason(), value.span)));
                        assert(diags_view(state.diagnostics@) =~= d3.push(unsupported_diag("user-defined type history"@, udt_history_reason(), value.span)));
                        None
                    } else {
                        Some(PineType::new(Qualifier::Series, t.kind))
                    }
                },
                None => None,
            }
        },
        _ => span_type_of(&known.types, expr.span),
    }
}

/// Analyzes a qualified name (see `spec_analyze_expr_inner`).
fn analyze_qualified_name(state: &mut AnalyzerState, known: &ExprKnowledge, expr: &Expr) -> (r: Option<PineType>)
    requires
        expr.kind is QualifiedName,
    ensures
        (r, final(state)@) == spec_analyze_expr_inner(old(state)@, *known, *expr),
        keeps_rest(*old(state), *final(state)),
{
    let name = match crate::call_helpers::expr_name(expr) {
        Some(n) => n,
        None => return None,
    };
    let b = builtin_named(known, name.as_str());
    let t = span_type_of(&known.types, expr.span);
    if !b && t.is_some() {
        return t;
    }
    let ghost s0 = feature_uses_view(state.compatibility.supported@);
    let ghost u0 = unsupported_view(state.compatibility.unsupported@);
    let ghost d0 = diags_view(state.diagnostics@);
    check_feature_expr(expr, b, &mut state.compatibility.supported, &mut state.compatibility.unsupported, &mut state.diagnostics);
    proof {
        match spec_feature_refusal(name@, b) {
            Some(reason) => {
                assert(unsupported_view(state.compatibility.unsupported@) =~= u0.push((name@, reason, expr.span)));
                assert(diags_view(state.diagnostics@) =~= d0.push(unsupported_diag(name@, reason, expr.span)));
                assert(feature_uses_view(state.compatibility.supported@) =~= s0);
            },
            None => {
                assert(unsupported_view(state.compatibility.unsupported@) =~= u0);
                assert(diags_view(state.diagnostics@) =~= d0);
                if b {
                    assert(feature_uses_view(state.compatibility.supported@) =~= s0.push((name@, expr.span)));
                } else {
                    assert(feature_uses_view(state.compatibility.supported@) =~= s0);
                }
            },
        }
    }
    if b {
        t
    } else if crate::strings::starts_with(name.as_str(), "color.") {
        let s = String::from_str("unknown named color `");
        let s = s.concat(name.as_str());
        let s = s.concat("`");
        push_error(&mut state.diagnostics, "E_UNKNOWN_COLOR", s, expr.span);
        None
    } else {
        None
    }
}

/// Analyzes a `switch` expression (see `spec_analyze_expr_inner`).
fn analyze_switch_expr(state: &mut AnalyzerState, known: &ExprKnowledge, expr: &Expr) -> (r: Option<PineType>)
    requires
        expr.kind is Switch,
    ensures
        (r, final(state)@) == spec_analyze_expr_inner(old(state)@, *known, *expr),
        keeps_rest(*old(state), *final(state)),
    decreases *expr, 0nat,
{
    let ghost v0 = state@;
    match &expr.kind {
        ExprKind::Switch { selector, arms } => {
            let st = match selector {
                Some(sel) => analyze_expr(state, known, sel),
                None => None,
            };
            let q0 = match st {
                Some(t) => t.qualifier,
                None => Qualifier::Const,
            };
            let ghost s0 = feature_uses_view(state.compatibility.supported@);
            crate::compatibility::push_feature_use(&mut state.compatibility.supported, "switch", expr.span);
            assert(feature_uses_view(state.compatibility.supported@) =~= s0.push(("switch"@, expr.span)));
            let (q, rt, err) = analyze_switch_arms(state, known, selector.is_some(), q0, arms, expr.span);
            if err {
                return None;
            }
            match rt {
                None => None,
                Some(t) => {
                    let pt = PineType::new(strongest_qualifier(q, t.qualifier), t.kind);
                    if pt.kind == ValueKind::UserType && !same_udt_ternary(known, expr.span) {
                        push_error(
                            &mut state.diagnostics,
                            "E_BRANCH_TYPE",
                            String::from_str("switch user-defined type arms must resolve to the same UDT identity"),
                            expr.span,
                        );
                        None
                    } else {
                        Some(pt)
                    }
                },
            }
        },
        _ => None,
    }
}

/// Analyzes the arms of a `switch` in order (see `spec_switch_arms`).
fn analyze_switch_arms(
    state: &mut AnalyzerState,
    known: &ExprKnowledge,
    has_selector: bool,
    q0: Qualifier,
    arms: &Vec<SwitchArm>,
    span: Span,
) -> (r: (Qualifier, Option<PineType>, bool))
    ensures
        (r.0, r.1, r.2, final(state)@) == spec_switch_arms(old(state)@, *known, has_selector, q0, arms@, span),
        keeps_rest(*old(state), *final(state)),
    decreases arms@, 0nat,
{
    let ghost v0 = state@;
    let n = arms.len();
    let mut i: usize = 0;
    let mut q = q0;
    let mut rt: Option<PineType> = None;
    let mut err = false;
    assert(arms@.take(0) =~= Seq::<SwitchArm>::empty());
    while i < n
        invariant
            n == arms@.len(),
            i <= n,
            v0 == old(state)@,
            keeps_rest(*old(state), *state),
            (q, rt, err, state@) == spec_switch_arms(v0, *known, has_selector, q0, arms@.take(i as int), span),
        decreases n - i,
    {
        assert(arms@.take((i + 1) as int).drop_last() =~= arms@.take(i as int));
        assert(arms@.take((i + 1) as int).last() == arms@[i as int]);
        let arm = &arms[i];
        match &arm.condition {
            Some(c) => {
                match analyze_expr(state, known, c) {
                    Some(t) => {
                        q = strongest_qualifier(q, t.qualifier);
                        if !has_selector {
                            let ghost d = diags_view(state.diagnostics@);
                            crate::expression_checks::expect_bool(t, c.span, &mut state.diagnostics);
                            assert(diags_view(state.diagnostics@) == d + bool_diags(Some(t), c.span));
                        }
                    },
                    None => {},
                }
            },
            None => {},
        }
        match analyze_expr(state, known, &arm.result) {
            Some(a) => {
                match merge_result_types(rt, a) {
                    Some(m) => {
                        rt = Some(m);
                    },
                    None => {
                        let current = match rt {
                            Some(c) => c.kind,
                            None => ValueKind::Void,
                        };
                        let s = String::from_str("switch arms have incompatible types ");
                        let s = s.concat(value_kind_debug_name(current));
                        let s = s.concat(" and ");
                        let s = s.concat(value_kind_debug_name(a.kind));
                        push_error(&mut state.diagnostics, "E_BRANCH_TYPE", s, span);
                        err = true;
                    },
                }
            },
            None => {},
        }
        i = i + 1;
    }
    assert(arms@.take(n as int) =~= arms@);
    (q, rt, err)
}

/// Analyzes call arguments' values in order.
fn analyze_args(state: &mut AnalyzerState, known: &ExprKnowledge, args: &Vec<CallArg>)
    ensures
        final(state)@ == spec_analyze_args(old(state)@, *known, args@),
        keeps_rest(*old(state), *final(state)),
    decreases args@, 0nat,
{
    let ghost v0 = state@;
    let n = args.len();
    let mut i: usize = 0;
    assert(args@.take(0) =~= Seq::<CallArg>::empty());
    while i < n
        invariant
            n == args@.len(),
            i <= n,
            v0 == old(state)@,
            keeps_rest(*old(state), *state),
            state@ == spec_analyze_args(v0, *known, args@.take(i as int)),
        decreases n - i,
    {
        assert(args@.take((i + 1) as int).drop_last() =~= args@.take(i as int));
        let _ = analyze_expr(state, known, &args[i].value);
        i = i + 1;
    }
    assert(args@.take(n as int) =~= args@);
}

/// Analyzes tuple items in order.
fn analyze_items(state: &mut AnalyzerState, known: &ExprKnowledge, items: &Vec<Expr>)
    ensures
        final(state)@ == spec_analyze_items(old(state)@, *known, items@),
        keeps_rest(*old(state), *final(state)),
    decreases items@, 0nat,
{
    let ghost v0 = state@;
    let n = items.len();
    let mut i: usize = 0;
    assert(items@.take(0) =~= Seq::<Expr>::empty());
    while i < n
        invariant
            n == items@.len(),
            i <= n,
            v0 == old(state)@,
            keeps_rest(*old(state), *state),
            state@ == spec_analyze_items(v0, *known, items@.take(i as int)),
        decreases n - i,
    {
        assert(items@.take((i + 1) as int).drop_last() =~= items@.take(i as int));
        let _ = analyze_expr(state, known, &items[i]);
        i = i + 1;
    }
    assert(items@.take(n as int) =~= items@);
}


/// A conditional's type is at least as dynamic as its condition, and a
/// history reference is a series of the kind of the value it reads.
pub proof fn lemma_conditionals_and_history_types(v: AnalyzerView, k: ExprKnowledge, e: Expr)
    ensures
        e.kind is Ternary ==> (spec_analyze_expr_inner(v, k, e).0 matches Some(m) ==> (spec_analyze_expr(
            v,
            k,
            *e.kind->condition,
        ).0 matches Some(c) && crate::types::qualifier_rank(m.qualifier) >= crate::types::qualifier_rank(
            c.qualifier,
        ))),
        e.kind is History ==> (spec_analyze_expr_inner(v, k, e).0 matches Some(t) ==> (spec_analyze_expr(
            v,
            k,
            *e.kind->History_expr,
        ).0 matches Some(x) && t.qualifier == Qualifier::Series && t.kind == x.kind && x.kind
            != ValueKind::UserType)),
{
    match e.kind {
        ExprKind::Ternary { condition, then_expr, else_expr } => {
            let (ct, v1) = spec_analyze_expr(v, k, *condition);
            let v2 = with_diags(v1, bool_diags(ct, (*condition).span));
            let (tt, v3) = spec_analyze_expr(v2, k, *then_expr);
            let (et, v4) = spec_analyze_expr(v3, k, *else_expr);
            match (ct, tt, et) {
                (Some(c), Some(t), Some(f)) => {
                    crate::expression_checks::lemma_conditional_is_as_dynamic_as_its_parts(c, t, f);
                },
                _ => {},
            }
        },
        _ => {},
    }
}

} // verus!
