//! Unsupported features are never silent: whatever the analysis of an
//! expression or a statement adds to the compatibility report's refused
//! features, it also reports as a diagnostic at the feature's span, and it
//! drops nothing reported before.
use vstd::prelude::*;

use crate::compatibility::{unsupported_diag, UnsupportedView};
use crate::expr_analysis::{
    feature_checked, history_checked, spec_analyze_args, spec_analyze_expr, spec_analyze_expr_inner,
    spec_analyze_items, udt_history_reason, ExprKnowledge, MAX_SEMA_EXPR_DEPTH,
};
use crate::field_mutations::{
    allowed_local_mutation, in_method, mutation_reason, spec_field_reassign, spec_field_target,
    target_param, udt_target, TargetView,
};
use crate::call_resolution::{spec_call_refusal, spec_resolve_call};
use crate::statements::{
    bool_diags, counter_type, define, enter, for_parts, location_diags, pop_scope, push_scope,
    range_diags, resolve_scope, spec_analyze_stmt, spec_analyze_stmts, with_diags, with_feature,
    with_refusal, AnalyzerView,
};
use crate::syntax::{DiagView, Expr, ExprKind, Stmt, StmtKind};
use crate::tuple_decls::{define_all, spec_tuple_decl};
use crate::expression_checks::spec_history_offset_refusals;

verus! {

/// `b` begins with `a`.
pub open spec fn extends<T>(a: Seq<T>, b: Seq<T>) -> bool {
    a.len() <= b.len() && b.subrange(0, a.len() as int) == a
}

/// The refusal `u` is reported among the diagnostics from index `from` on.
pub open spec fn reported_in(u: UnsupportedView, diags: Seq<DiagView>, from: int) -> bool {
    exists|d: int| from <= d < diags.len() && diags[d] == unsupported_diag(u.0, u.1, u.2)
}

/// From `before` to `after`, the refused features and the diagnostics only
/// grow, and every newly refused feature is reported by a new diagnostic.
pub open spec fn refusals_reported(before: AnalyzerView, after: AnalyzerView) -> bool {
    &&& extends(before.unsupported, after.unsupported)
    &&& extends(before.diags, after.diags)
    &&& forall|j: int|
        before.unsupported.len() <= j < after.unsupported.len() ==> #[trigger] reported_in(
            after.unsupported[j],
            after.diags,
            before.diags.len() as int,
        )
}

proof fn lemma_same_report(a: AnalyzerView, b: AnalyzerView)
    requires
        a.unsupported == b.unsupported,
        a.diags == b.diags,
    ensures
        refusals_reported(a, b),
{
    assert(b.unsupported.subrange(0, a.unsupported.len() as int) =~= a.unsupported);
    assert(b.diags.subrange(0, a.diags.len() as int) =~= a.diags);
}

proof fn lemma_trans(a: AnalyzerView, b: AnalyzerView, c: AnalyzerView)
    requires
        refusals_reported(a, b),
        refusals_reported(b, c),
    ensures
        refusals_reported(a, c),
{
    assert(c.unsupported.subrange(0, a.unsupported.len() as int) =~= a.unsupported) by {
        assert forall|i: int| 0 <= i < a.unsupported.len() implies c.unsupported[i] == a.unsupported[i] by {
            assert(c.unsupported[i] == c.unsupported.subrange(0, b.unsupported.len() as int)[i]);
            assert(b.unsupported[i] == b.unsupported.subrange(0, a.unsupported.len() as int)[i]);
        }
    }
    assert(c.diags.subrange(0, a.diags.len() as int) =~= a.diags) by {
        assert forall|i: int| 0 <= i < a.diags.len() implies c.diags[i] == a.diags[i] by {
            assert(c.diags[i] == c.diags.subrange(0, b.diags.len() as int)[i]);
            assert(b.diags[i] == b.diags.subrange(0, a.diags.len() as int)[i]);
        }
    }
    assert forall|j: int| a.unsupported.len() <= j < c.unsupported.len() implies #[trigger] reported_in(
        c.unsupported[j],
        c.diags,
        a.diags.len() as int,
    ) by {
        if j < b.unsupported.len() {
            assert(c.unsupported[j] == c.unsupported.subrange(0, b.unsupported.len() as int)[j]);
            assert(reported_in(b.unsupported[j], b.diags, a.diags.len() as int));
            let d = choose|d: int|
                a.diags.len() <= d < b.diags.len() && b.diags[d] == unsupported_diag(
                    b.unsupported[j].0,
                    b.unsupported[j].1,
                    b.unsupported[j].2,
                );
            assert(c.diags[d] == c.diags.subrange(0, b.diags.len() as int)[d]);
        } else {
            assert(reported_in(c.unsupported[j], c.diags, b.diags.len() as int));
            let d = choose|d: int|
                b.diags.len() <= d < c.diags.len() && c.diags[d] == unsupported_diag(
                    c.unsupported[j].0,
                    c.unsupported[j].1,
                    c.unsupported[j].2,
                );
            assert(a.diags.len() <= d);
        }
    }
}

proof fn lemma_with_diags(v: AnalyzerView, d: Seq<DiagView>)
    ensures
        refusals_reported(v, with_diags(v, d)),
{
    let w = with_diags(v, d);
    assert(w.unsupported.subrange(0, v.unsupported.len() as int) =~= v.unsupported);
    assert(w.diags.subrange(0, v.diags.len() as int) =~= v.diags);
}

proof fn lemma_with_feature(v: AnalyzerView, f: Seq<char>, s: crate::syntax::Span)
    ensures
        refusals_reported(v, with_feature(v, f, s)),
{
    lemma_same_report(v, with_feature(v, f, s));
}

proof fn lemma_with_refusal(v: AnalyzerView, f: Seq<char>, r: Seq<char>, s: crate::syntax::Span)
    ensures
        refusals_reported(v, with_refusal(v, f, r, s)),
{
    let w = with_refusal(v, f, r, s);
    assert(w.unsupported.subrange(0, v.unsupported.len() as int) =~= v.unsupported);
    assert(w.diags.subrange(0, v.diags.len() as int) =~= v.diags);
    assert forall|j: int| v.unsupported.len() <= j < w.unsupported.len() implies #[trigger] reported_in(
        w.unsupported[j],
        w.diags,
        v.diags.len() as int,
    ) by {
        assert(w.diags[v.diags.len() as int] == unsupported_diag(f, r, s));
    }
}

proof fn lemma_refusals_appended(v: AnalyzerView, r: Seq<UnsupportedView>)
    ensures
        refusals_reported(
            v,
            AnalyzerView {
                unsupported: v.unsupported + r,
                diags: v.diags + r.map_values(|u: UnsupportedView| unsupported_diag(u.0, u.1, u.2)),
                ..v
            },
        ),
{
    let w = AnalyzerView {
        unsupported: v.unsupported + r,
        diags: v.diags + r.map_values(|u: UnsupportedView| unsupported_diag(u.0, u.1, u.2)),
        ..v
    };
    assert(w.unsupported.subrange(0, v.unsupported.len() as int) =~= v.unsupported);
    assert(w.diags.subrange(0, v.diags.len() as int) =~= v.diags);
    assert forall|j: int| v.unsupported.len() <= j < w.unsupported.len() implies #[trigger] reported_in(
        w.unsupported[j],
        w.diags,
        v.diags.len() as int,
    ) by {
        let d = v.diags.len() + (j - v.unsupported.len());
        assert(w.diags[d] == unsupported_diag(w.unsupported[j].0, w.unsupported[j].1, w.unsupported[j].2));
    }
}

proof fn lemma_feature_checked(v: AnalyzerView, k: ExprKnowledge, e: Expr)
    ensures
        refusals_reported(v, feature_checked(v, k, e)),
{
    let w = feature_checked(v, k, e);
    if w.unsupported.len() > v.unsupported.len() {
        let name = crate::call_helpers::spec_expr_name(e).unwrap();
        let reason = crate::unsupported::spec_feature_refusal(name, crate::expr_analysis::is_builtin(k, name)).unwrap();
        assert(w == with_refusal(v, name, reason, e.span));
        lemma_with_refusal(v, name, reason, e.span);
    } else {
        lemma_same_report(v, AnalyzerView { supported: v.supported, ..w });
        assert(refusals_reported(v, w));
    }
}

/// Analyzing an expression reports every feature it refuses.
pub proof fn lemma_analyze_expr_reports_refusals(v: AnalyzerView, k: ExprKnowledge, e: Expr)
    ensures
        refusals_reported(v, spec_analyze_expr(v, k, e).1),
    decreases e, 2nat,
{
    if v.expr_depth >= MAX_SEMA_EXPR_DEPTH {
        lemma_with_diags(v, seq![crate::syntax::error_view("E_SEMA_EXPR_DEPTH"@, "expression is too deeply nested for semantic analysis"@, e.span)]);
    } else {
        let v0 = AnalyzerView { expr_depth: v.expr_depth + 1, ..v };
        lemma_same_report(v, v0);
        lemma_analyze_expr_inner_reports_refusals(v0, k, e);
        let v1 = spec_analyze_expr_inner(v0, k, e).1;
        lemma_trans(v, v0, v1);
        lemma_same_report(v1, AnalyzerView { expr_depth: v.expr_depth, ..v1 });
        lemma_trans(v, v1, AnalyzerView { expr_depth: v.expr_depth, ..v1 });
    }
}

proof fn lemma_resolve_call_reports(v: AnalyzerView, k: ExprKnowledge, name: Seq<char>, cs: crate::syntax::Span, s: crate::syntax::Span)
    ensures
        refusals_reported(v, spec_resolve_call(v, k, name, cs, s).1),
{
    if crate::expr_analysis::is_builtin(k, name) {
        lemma_with_feature(v, name, cs);
    } else if crate::call_resolution::is_callable(k, name) {
        lemma_same_report(v, v);
    } else {
        match spec_call_refusal(name) {
            Some(reason) => lemma_with_refusal(v, name, reason, cs),
            None => lemma_with_diags(
                v,
                seq![crate::syntax::error_view("E_UNKNOWN_FUNCTION"@, "unknown function `"@ + name + "`"@, cs)],
            ),
        }
    }
}

pub proof fn lemma_analyze_expr_inner_reports_refusals(v: AnalyzerView, k: ExprKnowledge, e: Expr)
    ensures
        refusals_reported(v, spec_analyze_expr_inner(v, k, e).1),
    decreases e, 1nat,
{
    let w = spec_analyze_expr_inner(v, k, e).1;
    match e.kind {
        ExprKind::Call { callee, args } => match crate::call_helpers::spec_expr_name(*callee) {
            None => lemma_with_diags(v, seq![crate::syntax::error_view("E_CALL_TARGET"@, "expected function name"@, (*callee).span)]),
            Some(name) => {
                lemma_analyze_args_reports_refusals(v, k, args@);
                let v1 = spec_analyze_args(v, k, args@);
                lemma_resolve_call_reports(v1, k, name, (*callee).span, e.span);
                lemma_trans(v, v1, w);
            },
        },
        ExprKind::Literal(l) => {
            lemma_with_feature(v, "hex color literal"@, e.span);
            lemma_same_report(v, v);
        },
        ExprKind::Identifier(name) => {
            lemma_feature_checked(v, k, e);
            let v1 = feature_checked(v, k, e);
            lemma_with_diags(v1, seq![crate::syntax::error_view("E_UNKNOWN_SYMBOL"@, "unknown symbol `"@ + name@ + "`"@, e.span)]);
            lemma_same_report(v1, v1);
            lemma_trans(v, v1, w);
        },
        ExprKind::QualifiedName(_) => {
            lemma_same_report(v, v);
            lemma_feature_checked(v, k, e);
            let v1 = feature_checked(v, k, e);
            let name = crate::call_helpers::spec_expr_name(e).unwrap();
            let d = seq![crate::syntax::error_view("E_UNKNOWN_COLOR"@, "unknown named color `"@ + name + "`"@, e.span)];
            lemma_with_diags(v1, d);
            lemma_trans(v, v1, with_diags(v1, d));
        },
        ExprKind::Unary { op, expr } => {
            lemma_analyze_expr_reports_refusals(v, k, *expr);
            let (t, v1) = spec_analyze_expr(v, k, *expr);
            match t {
                Some(t) => {
                    lemma_with_diags(v1, crate::operator_typing::unary_diags(op, t, (*expr).span));
                    lemma_trans(v, v1, w);
                },
                None => {},
            }
        },
        ExprKind::Binary { op, left, right } => {
            lemma_analyze_expr_reports_refusals(v, k, *left);
            let (lt, v1) = spec_analyze_expr(v, k, *left);
            lemma_analyze_expr_reports_refusals(v1, k, *right);
            let (rt, v2) = spec_analyze_expr(v1, k, *right);
            lemma_trans(v, v1, v2);
            match (lt, rt) {
                (Some(l), Some(r)) => {
                    lemma_with_diags(v2, crate::operator_typing::binary_diags(op, l, r, e.span));
                    lemma_trans(v, v2, w);
                },
                _ => {},
            }
        },
        ExprKind::Ternary { condition, then_expr, else_expr } => {
            lemma_analyze_expr_reports_refusals(v, k, *condition);
            let (ct, v1) = spec_analyze_expr(v, k, *condition);
            let v2 = with_diags(v1, bool_diags(ct, (*condition).span));
            lemma_with_diags(v1, bool_diags(ct, (*condition).span));
            lemma_trans(v, v1, v2);
            lemma_analyze_expr_reports_refusals(v2, k, *then_expr);
            let (tt, v3) = spec_analyze_expr(v2, k, *then_expr);
            lemma_trans(v, v2, v3);
            lemma_analyze_expr_reports_refusals(v3, k, *else_expr);
            let (et, v4) = spec_analyze_expr(v3, k, *else_expr);
            lemma_trans(v, v3, v4);
            match (ct, tt, et) {
                (Some(c), Some(t), Some(f)) => match crate::expression_checks::spec_merged_branch_type(c, t, f) {
                    None => {
                        lemma_with_diags(v4, seq![crate::expression_checks::branch_type_error_view(t, f, e.span)]);
                        lemma_trans(v, v4, w);
                    },
                    Some(m) => {
                        lemma_with_diags(
                            v4,
                            seq![crate::syntax::error_view("E_BRANCH_TYPE"@, "ternary user-defined type branches must resolve to the same UDT identity"@, e.span)],
                        );
                        lemma_trans(
                            v,
                            v4,
                            with_diags(
                                v4,
                                seq![crate::syntax::error_view("E_BRANCH_TYPE"@, "ternary user-defined type branches must resolve to the same UDT identity"@, e.span)],
                            ),
                        );
                    },
                },
                _ => {},
            }
        },
        ExprKind::Tuple(items) => lemma_analyze_items_reports_refusals(v, k, items@),
        ExprKind::Switch { selector, arms } => {
            let (st, v1) = match selector {
                Some(sel) => spec_analyze_expr(v, k, *sel),
                None => (None, v),
            };
            match selector {
                Some(sel) => lemma_analyze_expr_reports_refusals(v, k, *sel),
                None => lemma_same_report(v, v),
            }
            let q0 = match st {
                Some(t) => t.qualifier,
                None => crate::types::Qualifier::Const,
            };
            let v2 = with_feature(v1, "switch"@, e.span);
            lemma_with_feature(v1, "switch"@, e.span);
            lemma_trans(v, v1, v2);
            lemma_switch_arms_report_refusals(v2, k, selector is Some, q0, arms@, e.span);
            let v3 = crate::expr_analysis::spec_switch_arms(v2, k, selector is Some, q0, arms@, e.span).3;
            lemma_trans(v, v2, v3);
            let d = seq![crate::syntax::error_view("E_BRANCH_TYPE"@, "switch user-defined type arms must resolve to the same UDT identity"@, e.span)];
            lemma_with_diags(v3, d);
            lemma_trans(v, v3, with_diags(v3, d));
        },
        ExprKind::History { expr, offset } => {
            lemma_analyze_expr_reports_refusals(v, k, *expr);
            let (vt, v1) = spec_analyze_expr(v, k, *expr);
            lemma_analyze_expr_reports_refusals(v1, k, *offset);
            let (ot, v2) = spec_analyze_expr(v1, k, *offset);
            lemma_trans(v, v1, v2);
            let r = spec_history_offset_refusals((*offset).span, crate::statements::literal_int(*offset), ot);
            lemma_refusals_appended(v2, r);
            let v3 = history_checked(v2, *offset, ot);
            lemma_trans(v, v2, v3);
            lemma_with_refusal(v3, "user-defined type history"@, udt_history_reason(), (*expr).span);
            lemma_trans(v, v3, with_refusal(v3, "user-defined type history"@, udt_history_reason(), (*expr).span));
        },
        _ => lemma_same_report(v, v),
    }
}

pub proof fn lemma_switch_arms_report_refusals(
    v: AnalyzerView,
    k: ExprKnowledge,
    has_selector: bool,
    q0: crate::types::Qualifier,
    arms: Seq<crate::syntax::SwitchArm>,
    span: crate::syntax::Span,
)
    ensures
        refusals_reported(v, crate::expr_analysis::spec_switch_arms(v, k, has_selector, q0, arms, span).3),
    decreases arms, 0nat,
{
    if arms.len() == 0 {
        lemma_same_report(v, v);
    } else {
        lemma_switch_arms_report_refusals(v, k, has_selector, q0, arms.drop_last(), span);
        let (q, rt, err, v1) = crate::expr_analysis::spec_switch_arms(v, k, has_selector, q0, arms.drop_last(), span);
        let arm = arms.last();
        let v2 = match arm.condition {
            Some(c) => {
                lemma_analyze_expr_reports_refusals(v1, k, c);
                let (ct, va) = spec_analyze_expr(v1, k, c);
                lemma_trans(v, v1, va);
                match ct {
                    Some(t) => if has_selector {
                        va
                    } else {
                        lemma_with_diags(va, bool_diags(Some(t), c.span));
                        lemma_trans(v, va, with_diags(va, bool_diags(Some(t), c.span)));
                        with_diags(va, bool_diags(Some(t), c.span))
                    },
                    None => va,
                }
            },
            None => v1,
        };
        lemma_analyze_expr_reports_refusals(v2, k, arm.result);
        let (at, v3) = spec_analyze_expr(v2, k, arm.result);
        lemma_trans(v, v2, v3);
        match at {
            Some(a) => {
                let d = seq![crate::expr_analysis::switch_arms_error(rt, a, span)];
                lemma_with_diags(v3, d);
                lemma_trans(v, v3, with_diags(v3, d));
            },
            None => {},
        }
    }
}

pub proof fn lemma_analyze_items_reports_refusals(v: AnalyzerView, k: ExprKnowledge, items: Seq<Expr>)
    ensures
        refusals_reported(v, spec_analyze_items(v, k, items)),
    decreases items, 0nat,
{
    if items.len() == 0 {
        lemma_same_report(v, v);
    } else {
        lemma_analyze_items_reports_refusals(v, k, items.drop_last());
        let v1 = spec_analyze_items(v, k, items.drop_last());
        lemma_analyze_expr_reports_refusals(v1, k, items.last());
        lemma_trans(v, v1, spec_analyze_expr(v1, k, items.last()).1);
    }
}

pub proof fn lemma_analyze_args_reports_refusals(v: AnalyzerView, k: ExprKnowledge, args: Seq<crate::syntax::CallArg>)
    ensures
        refusals_reported(v, spec_analyze_args(v, k, args)),
    decreases args, 0nat,
{
    if args.len() == 0 {
        lemma_same_report(v, v);
    } else {
        lemma_analyze_args_reports_refusals(v, k, args.drop_last());
        let v1 = spec_analyze_args(v, k, args.drop_last());
        lemma_analyze_expr_reports_refusals(v1, k, args.last().value);
        lemma_trans(v, v1, spec_analyze_expr(v1, k, args.last().value).1);
    }
}


proof fn lemma_define_all_same_report(v: AnalyzerView, names: Seq<String>, types: Seq<crate::types::PineType>, n: int)
    ensures
        define_all(v, names, types, n).unsupported == v.unsupported,
        define_all(v, names, types, n).diags == v.diags,
    decreases n,
{
    if n > 0 {
        lemma_define_all_same_report(v, names, types, n - 1);
    }
}

proof fn lemma_tuple_decl_reports(v: AnalyzerView, k: ExprKnowledge, names: Seq<String>, value: Expr, span: crate::syntax::Span)
    ensures
        refusals_reported(v, spec_tuple_decl(v, k, names, value, span)),
{
    lemma_analyze_expr_reports_refusals(v, k, value);
    let (t, v1) = spec_analyze_expr(v, k, value);
    let w = spec_tuple_decl(v, k, names, value, span);
    if w == v1 {
    } else {
        match crate::tuple_decls::tuple_elements_of(k.tuples@, value.span) {
            None => {
                lemma_with_diags(v1, seq![crate::syntax::error_view("E_TUPLE_TYPE"@, "tuple assignment requires a tuple value"@, value.span)]);
                lemma_trans(v, v1, w);
            },
            Some(el) => {
                if names.len() != el.len() {
                    lemma_with_diags(
                        v1,
                        seq![crate::syntax::error_view(
                            "E_TUPLE_ARITY"@,
                            "tuple assignment expects "@ + crate::strings::spec_decimal(names.len()) + " value(s), got "@
                                + crate::strings::spec_decimal(el.len()),
                            span,
                        )],
                    );
                } else {
                    lemma_define_all_same_report(v1, names, el, names.len() as int);
                    lemma_same_report(v1, w);
                }
                lemma_trans(v, v1, w);
            },
        }
    }
}

proof fn lemma_udt_target_reports(v: AnalyzerView, k: ExprKnowledge, receiver: Seq<char>, field: Seq<char>, span: crate::syntax::Span)
    ensures
        refusals_reported(v, udt_target(v, k, receiver, field, span).1),
{
    let w = udt_target(v, k, receiver, field, span).1;
    if w.unsupported == v.unsupported && w.diags == v.diags {
        lemma_same_report(v, w);
    } else {
        assert(w.unsupported == v.unsupported);
        assert(exists|d: Seq<DiagView>| w == with_diags(v, d));
        let d = choose|d: Seq<DiagView>| w == with_diags(v, d);
        lemma_with_diags(v, d);
    }
}

proof fn lemma_field_target_reports(v: AnalyzerView, k: ExprKnowledge, receiver: Seq<char>, field: Seq<char>, span: crate::syntax::Span)
    ensures
        refusals_reported(v, spec_field_target(v, k, receiver, field, span).1),
{
    let w = spec_field_target(v, k, receiver, field, span).1;
    lemma_udt_target_reports(v, k, receiver, field, span);
    let v1 = with_diags(v, seq![crate::syntax::error_view("E_CHART_POINT_UNKNOWN_FIELD"@, "unknown field `"@ + field + "` on `chart.point`"@, span)]);
    lemma_with_diags(v, seq![crate::syntax::error_view("E_CHART_POINT_UNKNOWN_FIELD"@, "unknown field `"@ + field + "` on `chart.point`"@, span)]);
    lemma_udt_target_reports(v1, k, receiver, field, span);
    lemma_trans(v, v1, udt_target(v1, k, receiver, field, span).1);
    lemma_same_report(v, v);
}

proof fn lemma_field_reassign_reports(
    v: AnalyzerView,
    k: ExprKnowledge,
    receiver: Seq<char>,
    field: Seq<char>,
    value: Expr,
    span: crate::syntax::Span,
)
    ensures
        refusals_reported(v, spec_field_reassign(v, k, receiver, field, value, span)),
{
    let (target, v1) = spec_field_target(v, k, receiver, field, span);
    lemma_field_target_reports(v, k, receiver, field, span);
    let global = resolve_scope(v.scopes, receiver, v.scopes.len() as int) == Some(0int);
    let method = in_method(v.function_stack);
    let v2 = if v.function_depth > 0 && !allowed_local_mutation(target, method, global) {
        with_refusal(v1, "function_side_effect"@, mutation_reason(target, method, target_param(target), global), span)
    } else {
        v1
    };
    lemma_with_refusal(v1, "function_side_effect"@, mutation_reason(target, method, target_param(target), global), span);
    lemma_same_report(v1, v1);
    lemma_trans(v, v1, v2);
    lemma_analyze_expr_reports_refusals(v2, k, value);
    let (vt, v3) = spec_analyze_expr(v2, k, value);
    lemma_trans(v, v2, v3);
    let w = spec_field_reassign(v, k, receiver, field, value, span);
    match (target, vt) {
        (Some(TargetView::ChartPoint(_)), Some(_)) => {
            lemma_with_feature(v3, "chart.point field mutation"@, span);
            lemma_trans(v, v3, w);
        },
        (Some(TargetView::UserType(_, u, _)), Some(t)) => {
            let v4 = match u {
                Some(u) => with_diags(
                    v3,
                    if crate::field_mutations::user_type_of_span(k.value_user_types@, value.span) == Some(u) {
                        Seq::<DiagView>::empty()
                    } else {
                        seq![crate::syntax::error_view(
                            "E_ASSIGN_TYPE"@,
                            "cannot assign "@ + crate::types::spec_pine_type_name(t) + " to `"@ + receiver + "."@ + field
                                + "` of user-defined type `"@ + u + "`"@,
                            span,
                        )]
                    },
                ),
                None => v3,
            };
            match u {
                Some(uu) => lemma_with_diags(
                    v3,
                    if crate::field_mutations::user_type_of_span(k.value_user_types@, value.span) == Some(uu) {
                        Seq::<DiagView>::empty()
                    } else {
                        seq![crate::syntax::error_view(
                            "E_ASSIGN_TYPE"@,
                            "cannot assign "@ + crate::types::spec_pine_type_name(t) + " to `"@ + receiver + "."@ + field
                                + "` of user-defined type `"@ + uu + "`"@,
                            span,
                        )]
                    },
                ),
                None => lemma_same_report(v3, v3),
            }
            lemma_trans(v, v3, v4);
            lemma_with_feature(v4, "user-defined type field mutation"@, span);
            lemma_trans(v, v4, w);
        },
        _ => {},
    }
}

proof fn lemma_same_report_trans(a: AnalyzerView, b: AnalyzerView, c: AnalyzerView)
    requires
        refusals_reported(a, b),
        b.unsupported == c.unsupported,
        b.diags == c.diags,
    ensures
        refusals_reported(a, c),
{
    lemma_same_report(b, c);
    lemma_trans(a, b, c);
}

/// Analyzing a statement reports every feature it refuses: each feature
/// added to the compatibility report's refused features comes with an
/// error diagnostic at the feature's span, and nothing reported before is
/// dropped.
pub proof fn lemma_analyze_stmt_reports_refusals(v: AnalyzerView, k: ExprKnowledge, s: Stmt)
    ensures
        refusals_reported(v, spec_analyze_stmt(v, k, s)),
    decreases s,
{
    let w = spec_analyze_stmt(v, k, s);
    match s.kind {
        StmtKind::Expr(e) => lemma_analyze_expr_reports_refusals(v, k, e),
        StmtKind::Import(_) => lemma_with_feature(v, "import"@, s.span),
        StmtKind::Library(_) => lemma_with_refusal(v, "library"@, crate::unsupported::spec_unsupported_syntax_reason("library"@), s.span),
        StmtKind::Export(_) => lemma_with_refusal(v, "export"@, crate::unsupported::spec_unsupported_syntax_reason("export"@), s.span),
        StmtKind::UserType(_) => {
            let d = location_diags(v, "E_UDT_DECL_LOCATION"@, "user-defined type declarations must be top-level"@, s.span);
            lemma_with_diags(v, d);
            lemma_with_feature(with_diags(v, d), "user-defined types"@, s.span);
            lemma_trans(v, with_diags(v, d), w);
        },
        StmtKind::Method(_) => {
            let d = location_diags(v, "E_METHOD_DECL_LOCATION"@, "user-defined method declarations must be top-level"@, s.span);
            lemma_with_diags(v, d);
            lemma_with_feature(with_diags(v, d), "user-defined methods"@, s.span);
            lemma_trans(v, with_diags(v, d), w);
        },
        StmtKind::If { condition, then_branch, else_branch } => {
            lemma_analyze_expr_reports_refusals(v, k, condition);
            let (ct, v0) = spec_analyze_expr(v, k, condition);
            let va = with_diags(v0, bool_diags(ct, condition.span));
            lemma_with_diags(v0, bool_diags(ct, condition.span));
            lemma_trans(v, v0, va);
            let vb = with_feature(va, "if"@, s.span);
            lemma_with_feature(va, "if"@, s.span);
            lemma_trans(v, va, vb);
            let v1 = enter(vb, false);
            lemma_same_report_trans(v, vb, v1);
            lemma_analyze_stmts_reports_refusals(v1, k, then_branch@);
            let v2 = spec_analyze_stmts(v1, k, then_branch@);
            lemma_trans(v, v1, v2);
            let v3 = push_scope(pop_scope(v2));
            lemma_same_report_trans(v, v2, v3);
            lemma_analyze_stmts_reports_refusals(v3, k, else_branch@);
            let v4 = spec_analyze_stmts(v3, k, else_branch@);
            lemma_trans(v, v3, v4);
            lemma_same_report_trans(v, v4, w);
        },
        StmtKind::For { variable, from, to, step, body } => {
            let (ft, v0a) = spec_analyze_expr(v, k, from);
            lemma_analyze_expr_reports_refusals(v, k, from);
            let (tt, v0b) = spec_analyze_expr(v0a, k, to);
            lemma_analyze_expr_reports_refusals(v0a, k, to);
            lemma_trans(v, v0a, v0b);
            let (ft2, tt2, st, v0) = for_parts(v, k, from, to, step);
            match step {
                Some(sx) => {
                    lemma_analyze_expr_reports_refusals(v0b, k, sx);
                    lemma_trans(v, v0b, v0);
                },
                None => {},
            }
            let va = with_diags(v0, range_diags(ft2, tt2, from, to, step, st));
            lemma_with_diags(v0, range_diags(ft2, tt2, from, to, step, st));
            lemma_trans(v, v0, va);
            let vb = with_feature(va, "for"@, s.span);
            lemma_with_feature(va, "for"@, s.span);
            lemma_trans(v, va, vb);
            let v1 = define(enter(vb, true), variable@, counter_type(ft2, tt2));
            lemma_same_report_trans(v, vb, v1);
            lemma_analyze_stmts_reports_refusals(v1, k, body@);
            let v2 = spec_analyze_stmts(v1, k, body@);
            lemma_trans(v, v1, v2);
            lemma_same_report_trans(v, v2, w);
        },
        StmtKind::Decl { name, value } => {
            lemma_analyze_expr_reports_refusals(v, k, value);
            let (t, v0) = spec_analyze_expr(v, k, value);
            let d = if t matches Some(vt) && vt.kind == crate::types::ValueKind::Void {
                seq![crate::syntax::error_view("E_DECL_VALUE"@, "declarations must be initialized with a value-producing expression"@, value.span)]
            } else {
                Seq::empty()
            };
            lemma_with_diags(v0, d);
            lemma_trans(v, v0, with_diags(v0, d));
            lemma_same_report_trans(v, with_diags(v0, d), w);
        },
        StmtKind::Reassign { name, value } => {
            let v0 = match resolve_scope(v.scopes, name@, v.scopes.len() as int) {
                None => with_diags(v, seq![crate::syntax::error_view("E_UNKNOWN_SYMBOL"@, "cannot reassign unknown symbol `"@ + name@ + "`"@, s.span)]),
                Some(j) => if v.function_depth > 0 && j == 0 {
                    with_refusal(v, "function_side_effect"@, "reassigning global variables inside user-defined functions is not supported"@, s.span)
                } else {
                    v
                },
            };
            lemma_with_diags(v, seq![crate::syntax::error_view("E_UNKNOWN_SYMBOL"@, "cannot reassign unknown symbol `"@ + name@ + "`"@, s.span)]);
            lemma_with_refusal(v, "function_side_effect"@, "reassigning global variables inside user-defined functions is not supported"@, s.span);
            lemma_same_report(v, v);
            lemma_analyze_expr_reports_refusals(v0, k, value);
            lemma_trans(v, v0, w);
        },
        StmtKind::While { condition, body } => {
            lemma_analyze_expr_reports_refusals(v, k, condition);
            let (ct, v0) = spec_analyze_expr(v, k, condition);
            let va = with_diags(v0, bool_diags(ct, condition.span));
            lemma_with_diags(v0, bool_diags(ct, condition.span));
            lemma_trans(v, v0, va);
            let vb = with_feature(va, "while"@, s.span);
            lemma_with_feature(va, "while"@, s.span);
            lemma_trans(v, va, vb);
            let v1 = enter(vb, true);
            lemma_same_report_trans(v, vb, v1);
            lemma_analyze_stmts_reports_refusals(v1, k, body@);
            let v2 = spec_analyze_stmts(v1, k, body@);
            lemma_trans(v, v1, v2);
            lemma_same_report_trans(v, v2, w);
        },
        StmtKind::Break => {
            lemma_with_diags(v, seq![crate::syntax::error_view("E_LOOP_CONTROL"@, "`break` can only be used inside a loop"@, s.span)]);
            lemma_same_report(v, v);
        },
        StmtKind::Continue => {
            lemma_with_diags(v, seq![crate::syntax::error_view("E_LOOP_CONTROL"@, "`continue` can only be used inside a loop"@, s.span)]);
            lemma_same_report(v, v);
        },
        StmtKind::Function { .. } => {
            lemma_with_refusal(v, "block_local_function"@, "nested function declarations are not supported"@, s.span);
            lemma_same_report(v, v);
        },
        StmtKind::TupleDecl { names, value } => lemma_tuple_decl_reports(v, k, names@, value, s.span),
        StmtKind::FieldReassign { receiver, field, value } => lemma_field_reassign_reports(v, k, receiver@, field@, value, s.span),
        StmtKind::Unsupported { feature } => lemma_with_refusal(v, feature@, crate::unsupported::spec_unsupported_syntax_reason(feature@), s.span),
        _ => lemma_same_report(v, v),
    }
}

/// Analyzing statements in order reports every feature they refuse.
pub proof fn lemma_analyze_stmts_reports_refusals(v: AnalyzerView, k: ExprKnowledge, stmts: Seq<Stmt>)
    ensures
        refusals_reported(v, spec_analyze_stmts(v, k, stmts)),
    decreases stmts,
{
    if stmts.len() == 0 {
        lemma_same_report(v, v);
    } else {
        lemma_analyze_stmts_reports_refusals(v, k, stmts.drop_last());
        let v1 = spec_analyze_stmts(v, k, stmts.drop_last());
        lemma_analyze_stmt_reports_refusals(v1, k, stmts.last());
        lemma_trans(v, v1, spec_analyze_stmt(v1, k, stmts.last()));
    }
}


/// Analyzing a function body reports every feature it refuses.
pub proof fn lemma_function_body_reports_refusals(v: AnalyzerView, k: ExprKnowledge, body: Seq<Stmt>, span: crate::syntax::Span)
    ensures
        refusals_reported(v, crate::statements::spec_function_body(v, k, body, span).1),
{
    let err = crate::syntax::error_view("E_FUNCTION_RETURN"@, "user-defined function block must end with an expression"@, span);
    if body.len() == 0 {
        lemma_with_diags(v, seq![err]);
    } else {
        lemma_analyze_stmts_reports_refusals(v, k, body.drop_last());
        let v1 = spec_analyze_stmts(v, k, body.drop_last());
        match body.last().kind {
            StmtKind::Expr(e) => {
                lemma_analyze_expr_reports_refusals(v1, k, e);
                lemma_trans(v, v1, spec_analyze_expr(v1, k, e).1);
            },
            _ => {
                lemma_analyze_stmt_reports_refusals(v1, k, body.last());
                let v2 = spec_analyze_stmt(v1, k, body.last());
                lemma_trans(v, v1, v2);
                let d = seq![crate::syntax::error_view("E_FUNCTION_RETURN"@, "user-defined function block must end with an expression"@, body.last().span)];
                lemma_with_diags(v2, d);
                lemma_trans(v, v2, with_diags(v2, d));
            },
        }
    }
}

proof fn lemma_refusals_then_diags(v: AnalyzerView, r: Seq<UnsupportedView>, extra: Seq<DiagView>, w: AnalyzerView)
    requires
        w.unsupported == v.unsupported + r,
        w.diags == v.diags + r.map_values(|u: UnsupportedView| unsupported_diag(u.0, u.1, u.2)) + extra,
    ensures
        refusals_reported(v, w),
{
    let m = AnalyzerView {
        unsupported: v.unsupported + r,
        diags: v.diags + r.map_values(|u: UnsupportedView| unsupported_diag(u.0, u.1, u.2)),
        ..v
    };
    lemma_refusals_appended(v, r);
    lemma_with_diags(m, extra);
    lemma_trans(v, m, with_diags(m, extra));
    lemma_same_report_trans(v, with_diags(m, extra), w);
}

proof fn lemma_define_params_same_report(
    v: AnalyzerView,
    params: Seq<crate::methods::MethodParamInfo>,
    ix: Seq<int>,
    arg_types: Seq<Option<crate::types::PineType>>,
    p: int,
)
    ensures
        crate::methods::define_params(v, params, ix, arg_types, p).unsupported == v.unsupported,
        crate::methods::define_params(v, params, ix, arg_types, p).diags == v.diags,
    decreases p,
{
    if p > 0 {
        lemma_define_params_same_report(v, params, ix, arg_types, p - 1);
    }
}

/// A user-defined method call reports every feature it refuses, in its
/// checks and in its body.
pub proof fn lemma_user_method_call_reports_refusals(
    v: AnalyzerView,
    k: ExprKnowledge,
    methods: Seq<crate::methods::MethodInfo>,
    imported: Seq<(String, crate::imported_user_types::ImportedUserTypeInfo)>,
    receiver_type: Seq<char>,
    receiver: crate::types::PineType,
    span: crate::syntax::Span,
    method: Seq<char>,
    args: Seq<crate::syntax::CallArg>,
    arg_types: Seq<Option<crate::types::PineType>>,
)
    ensures
        refusals_reported(
            v,
            crate::methods::spec_user_method_call(v, k, methods, imported, receiver_type, receiver, span, method, args, arg_types).1,
        ),
{
    let vp = crate::methods::prepare_effect(v, methods, imported, receiver_type, method, span, args);
    let refusals = crate::methods::spec_side_effect_method_args(args, args.len() as int);
    match crate::methods::spec_method_call_plan(methods, imported, receiver_type, method, args, v.function_stack) {
        crate::methods::MethodCallPlan::Bound(mk, Ok(ix)) => {
            lemma_refusals_then_diags(v, refusals, Seq::empty(), vp);
            let m = methods[mk];
            let v1 = define(push_scope(vp), m.receiver_name@, Some(receiver));
            lemma_same_report_trans(v, vp, v1);
            let v2 = crate::methods::define_params(v1, m.params@, ix, arg_types, m.params@.len() as int);
            lemma_define_params_same_report(v1, m.params@, ix, arg_types, m.params@.len() as int);
            lemma_same_report_trans(v, v1, v2);
            let v3 = AnalyzerView {
                function_stack: v2.function_stack.push(crate::methods::method_stack_name(m.receiver_type@, method)),
                function_depth: v2.function_depth + 1,
                ..v2
            };
            lemma_same_report_trans(v, v2, v3);
            lemma_function_body_reports_refusals(v3, k, m.body@, m.span);
            let v4 = crate::statements::spec_function_body(v3, k, m.body@, m.span).1;
            lemma_trans(v, v3, v4);
            let w = crate::methods::spec_user_method_call(v, k, methods, imported, receiver_type, receiver, span, method, args, arg_types).1;
            lemma_same_report_trans(v, v4, w);
        },
        crate::methods::MethodCallPlan::Bound(mk, Err(e)) => {
            lemma_refusals_then_diags(
                v,
                refusals,
                seq![crate::udf_args::spec_udf_arg_error_diag(method, span, methods[mk].params@.len(), args.len(), e)],
                vp,
            );
        },
        _ => {
            assert(vp.unsupported == v.unsupported);
            assert(exists|d: Seq<DiagView>| vp == with_diags(v, d));
            let d = choose|d: Seq<DiagView>| vp == with_diags(v, d);
            lemma_with_diags(v, d);
        },
    }
}

} // verus!
