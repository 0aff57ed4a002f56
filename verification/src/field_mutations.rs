//! Field reassignments such as `p.x := 1`: the target field is resolved on a
//! `chart.point` or a user-defined type value, mutations the function
//! context does not allow are refused, the value is analyzed, and a value
//! of another user-defined type is reported.
use vstd::prelude::*;
use vstd::string::*;

use crate::chart_points::{chart_point_field_type, spec_chart_point_field_type};
use crate::expr_analysis::{analyze_expr, lemma_analyze_expr_keeps_depths, spec_analyze_expr, ExprKnowledge};
use crate::statement_checks::validate_user_type_field_assignment;
use crate::statements::{
    find_scope, keeps_rest, record, refuse, resolve_scope, with_diags, with_feature, with_refusal,
    AnalyzerState, AnalyzerView, ScopeView,
};
use crate::strings::{opt_string_view, starts_with, spec_starts_with, str_eq};
use crate::syntax::{error_view, push_error, DiagView, Expr, Span};
use crate::types::{spec_pine_type_name, PineType, Qualifier, ValueKind};
use crate::user_type_fields::{spec_user_type_field, user_type_field};
use crate::user_types::{find_user_type, spec_find_user_type};

verus! {

/// What the rest of the analysis resolved of a field reassignment's
/// receiver that holds a user-defined type value: the statement (by span),
/// the receiver's type name and qualifier, and whether the receiver is a
/// parameter of the enclosing user-defined function.
pub struct UdtReceiver {
    pub span: Span,
    pub udt_name: String,
    pub qualifier: Qualifier,
    pub is_param: bool,
}

/// The field a reassignment writes: a `chart.point` field of the given type,
/// or a user-defined type field with its type, its own user-defined type
/// name, and whether the receiver is a function parameter.
pub enum FieldTarget {
    ChartPoint(PineType),
    UserType(PineType, Option<String>, bool),
}

/// A field target as plain values.
pub enum TargetView {
    ChartPoint(PineType),
    UserType(PineType, Option<Seq<char>>, bool),
}

pub open spec fn target_view(t: FieldTarget) -> TargetView {
    match t {
        FieldTarget::ChartPoint(p) => TargetView::ChartPoint(p),
        FieldTarget::UserType(p, u, param) => TargetView::UserType(p, opt_string_view(u), param),
    }
}

pub open spec fn opt_target_view(t: Option<FieldTarget>) -> Option<TargetView> {
    match t {
        Some(t) => Some(target_view(t)),
        None => None,
    }
}

/// The receiver entry of the statement at `span`.
pub open spec fn receiver_of(rs: Seq<UdtReceiver>, span: Span) -> Option<UdtReceiver>
    decreases rs.len(),
{
    if rs.len() == 0 {
        None
    } else if rs[0].span == span {
        Some(rs[0])
    } else {
        receiver_of(rs.skip(1), span)
    }
}

/// The user-defined type name the analysis gave the value at `span`.
pub open spec fn user_type_of_span(names: Seq<(Span, String)>, span: Span) -> Option<Seq<char>>
    decreases names.len(),
{
    if names.len() == 0 {
        None
    } else if names[0].0 == span {
        Some(names[0].1@)
    } else {
        user_type_of_span(names.skip(1), span)
    }
}

/// The type of the latest declaration of `name` among the first `n`
/// entries of a scope.
pub open spec fn latest_type(scope: ScopeView, name: Seq<char>, n: int) -> Option<PineType>
    decreases n,
{
    if n <= 0 || n > scope.len() {
        None
    } else if scope[n - 1].0 == name {
        scope[n - 1].1
    } else {
        latest_type(scope, name, n - 1)
    }
}

/// The type of the symbol `name` resolves to, where it resolves and the
/// symbol is typed.
pub open spec fn symbol_type(v: AnalyzerView, name: Seq<char>) -> Option<PineType> {
    match resolve_scope(v.scopes, name, v.scopes.len() as int) {
        Some(j) => latest_type(v.scopes[j], name, v.scopes[j].len() as int),
        None => None,
    }
}

/// The user-defined type field the reassignment writes, and what its
/// resolution reports.
pub open spec fn udt_target(
    v: AnalyzerView,
    k: ExprKnowledge,
    receiver: Seq<char>,
    field: Seq<char>,
    span: Span,
) -> (Option<TargetView>, AnalyzerView) {
    if resolve_scope(v.scopes, receiver, v.scopes.len() as int) is None {
        (None, with_diags(v, seq![error_view("E_UNKNOWN_SYMBOL"@, "cannot reassign unknown symbol `"@ + receiver + "`"@, span)]))
    } else {
        match receiver_of(k.udt_receivers@, span) {
            None => (
                None,
                with_diags(
                    v,
                    seq![error_view(
                        "E_UDT_FIELD_MUTATION"@,
                        "cannot mutate field `"@ + field + "` on non-UDT `"@ + receiver + "`"@,
                        span,
                    )],
                ),
            ),
            Some(rc) => match spec_user_type_field(k.user_types@, rc.udt_name@, field) {
                Some((_, f)) => (
                    Some(
                        TargetView::UserType(
                            PineType { qualifier: rc.qualifier, kind: f.pine_type.kind },
                            opt_string_view(f.user_type_name),
                            rc.is_param,
                        ),
                    ),
                    v,
                ),
                None => if spec_find_user_type(k.user_types@, rc.udt_name@) is None {
                    (None, v)
                } else {
                    (
                        None,
                        with_diags(
                            v,
                            seq![error_view(
                                "E_UDT_UNKNOWN_FIELD"@,
                                "unknown field `"@ + field + "` on `"@ + rc.udt_name@ + "`"@,
                                span,
                            )],
                        ),
                    )
                },
            },
        }
    }
}

/// The field the reassignment of `receiver.field` at `span` writes, and
/// the state after its resolution: a `chart.point` receiver's field first,
/// then a user-defined type receiver's.
pub open spec fn spec_field_target(
    v: AnalyzerView,
    k: ExprKnowledge,
    receiver: Seq<char>,
    field: Seq<char>,
    span: Span,
) -> (Option<TargetView>, AnalyzerView) {
    match symbol_type(v, receiver) {
        Some(t) => if t.kind == ValueKind::ChartPoint {
            match spec_chart_point_field_type(t, field) {
                Some(ft) => (Some(TargetView::ChartPoint(ft)), v),
                None => udt_target(
                    with_diags(
                        v,
                        seq![error_view("E_CHART_POINT_UNKNOWN_FIELD"@, "unknown field `"@ + field + "` on `chart.point`"@, span)],
                    ),
                    k,
                    receiver,
                    field,
                    span,
                ),
            }
        } else {
            udt_target(v, k, receiver, field, span)
        },
        None => udt_target(v, k, receiver, field, span),
    }
}

/// Whether the innermost function being analyzed is a method.
pub open spec fn in_method(stack: Seq<Seq<char>>) -> bool {
    stack.len() > 0 && spec_starts_with(stack.last(), "method:"@)
}

/// Why a field mutation inside a function body is refused.
pub open spec fn mutation_reason(target: Option<TargetView>, method: bool, param: bool, global: bool) -> Seq<char> {
    match target {
        Some(TargetView::UserType(..)) => if method {
            "mutating user-defined type fields inside methods is not supported"@
        } else if param {
            "mutating user-defined type parameter fields inside user-defined functions is not supported"@
        } else if global {
            "mutating fields on global user-defined type values inside user-defined functions is not supported"@
        } else {
            "mutating user-defined type fields inside user-defined functions is not supported"@
        },
        Some(TargetView::ChartPoint(_)) => "mutating chart.point fields inside user-defined functions or methods is not supported"@,
        None => "mutating object fields inside user-defined functions or methods is not supported"@,
    }
}

pub open spec fn target_param(target: Option<TargetView>) -> bool {
    match target {
        Some(TargetView::UserType(_, _, p)) => p,
        _ => false,
    }
}

/// A local user-defined type value's field may be mutated inside a
/// user-defined function (not a method, not a parameter, not a global).
pub open spec fn allowed_local_mutation(target: Option<TargetView>, method: bool, global: bool) -> bool {
    target matches Some(TargetView::UserType(_, _, param)) && !method && !global && !param
}

/// The analysis of the reassignment of `receiver.field` to `value` at
/// `span`: the target is resolved; inside a function, a mutation that is
/// not of a local user-defined type value is refused; the value is
/// analyzed; where target and value are typed, a value of another
/// user-defined type than the field's is reported and the mutation is
/// recorded as a supported feature.
pub open spec fn spec_field_reassign(
    v: AnalyzerView,
    k: ExprKnowledge,
    receiver: Seq<char>,
    field: Seq<char>,
    value: Expr,
    span: Span,
) -> AnalyzerView {
    let (target, v1) = spec_field_target(v, k, receiver, field, span);
    let global = resolve_scope(v.scopes, receiver, v.scopes.len() as int) == Some(0int);
    let method = in_method(v.function_stack);
    let v2 = if v.function_depth > 0 && !allowed_local_mutation(target, method, global) {
        with_refusal(v1, "function_side_effect"@, mutation_reason(target, method, target_param(target), global), span)
    } else {
        v1
    };
    let (vt, v3) = spec_analyze_expr(v2, k, value);
    match (target, vt) {
        (Some(TargetView::ChartPoint(_)), Some(_)) => with_feature(v3, "chart.point field mutation"@, span),
        (Some(TargetView::UserType(_, u, _)), Some(t)) => with_feature(
            match u {
                Some(u) => with_diags(
                    v3,
                    if user_type_of_span(k.value_user_types@, value.span) == Some(u) {
                        Seq::<DiagView>::empty()
                    } else {
                        seq![error_view(
                            "E_ASSIGN_TYPE"@,
                            "cannot assign "@ + spec_pine_type_name(t) + " to `"@ + receiver + "."@ + field
                                + "` of user-defined type `"@ + u + "`"@,
                            span,
                        )]
                    },
                ),
                None => v3,
            },
            "user-defined type field mutation"@,
            span,
        ),
        _ => v3,
    }
}

/// A field reassignment leaves the depths, scopes and call stack as they
/// were.
pub proof fn lemma_field_reassign_keeps_depths(
    v: AnalyzerView,
    k: ExprKnowledge,
    receiver: Seq<char>,
    field: Seq<char>,
    value: Expr,
    span: Span,
)
    ensures
        spec_field_reassign(v, k, receiver, field, value, span).scopes.len() == v.scopes.len(),
        spec_field_reassign(v, k, receiver, field, value, span).block_depth == v.block_depth,
        spec_field_reassign(v, k, receiver, field, value, span).loop_depth == v.loop_depth,
        spec_field_reassign(v, k, receiver, field, value, span).function_depth == v.function_depth,
        spec_field_reassign(v, k, receiver, field, value, span).expr_depth == v.expr_depth,
        spec_field_reassign(v, k, receiver, field, value, span).function_stack == v.function_stack,
{
    let (target, v1) = spec_field_target(v, k, receiver, field, span);
    let global = resolve_scope(v.scopes, receiver, v.scopes.len() as int) == Some(0int);
    let method = in_method(v.function_stack);
    let v2 = if v.function_depth > 0 && !allowed_local_mutation(target, method, global) {
        with_refusal(v1, "function_side_effect"@, mutation_reason(target, method, target_param(target), global), span)
    } else {
        v1
    };
    lemma_analyze_expr_keeps_depths(v2, k, value);
}

fn receiver_entry(rs: &Vec<UdtReceiver>, span: Span) -> (r: Option<&UdtReceiver>)
    ensures
        match r {
            Some(rc) => receiver_of(rs@, span) == Some(*rc),
            None => receiver_of(rs@, span) is None,
        },
{
    let n = rs.len();
    let mut i: usize = 0;
    assert(rs@.skip(0) =~= rs@);
    while i < n
        invariant
            n == rs@.len(),
            i <= n,
            receiver_of(rs@, span) == receiver_of(rs@.skip(i as int), span),
        decreases n - i,
    {
        assert(rs@.skip(i as int).skip(1) =~= rs@.skip((i + 1) as int));
        if rs[i].span == span {
            return Some(&rs[i]);
        }
        i = i + 1;
    }
    None
}

fn value_user_type(names: &Vec<(Span, String)>, span: Span) -> (r: Option<&String>)
    ensures
        opt_ref_view(r) == user_type_of_span(names@, span),
{
    let n = names.len();
    let mut i: usize = 0;
    assert(names@.skip(0) =~= names@);
    while i < n
        invariant
            n == names@.len(),
            i <= n,
            user_type_of_span(names@, span) == user_type_of_span(names@.skip(i as int), span),
        decreases n - i,
    {
        assert(names@.skip(i as int).skip(1) =~= names@.skip((i + 1) as int));
        if names[i].0 == span {
            return Some(&names[i].1);
        }
        i = i + 1;
    }
    None
}

pub open spec fn opt_ref_view(r: Option<&String>) -> Option<Seq<char>> {
    match r {
        Some(s) => Some(s@),
        None => None,
    }
}

proof fn lemma_resolve_scope_in_range(scopes: Seq<ScopeView>, name: Seq<char>, n: int)
    ensures
        resolve_scope(scopes, name, n) matches Some(j) ==> 0 <= j < n && j < scopes.len(),
    decreases n,
{
    if n > 0 && n <= scopes.len() && !crate::statements::declares(scopes[n - 1], name) {
        lemma_resolve_scope_in_range(scopes, name, n - 1);
    }
}

pub(crate) fn symbol_type_of(state: &AnalyzerState, name: &str) -> (r: Option<PineType>)
    ensures
        r == symbol_type(state@, name@),
{
    proof {
        lemma_resolve_scope_in_range(state@.scopes, name@, state@.scopes.len() as int);
    }
    match find_scope(state, name) {
        None => None,
        Some(j) => {
            let scope = &state.scopes[j];
            let ghost sv = state@.scopes[j as int];
            assert(sv == crate::statements::scope_view(*scope));
            let mut n: usize = scope.len();
            while n > 0
                invariant
                    n <= scope@.len(),
                    sv == crate::statements::scope_view(*scope),
                    resolve_scope(state@.scopes, name@, state@.scopes.len() as int) == Some(j as int),
                    sv == state@.scopes[j as int],
                    sv.len() == scope@.len(),
                    latest_type(sv, name@, sv.len() as int) == latest_type(sv, name@, n as int),
                decreases n,
            {
                assert(sv[n - 1] == (scope@[n - 1].0@, scope@[n - 1].1));
                if str_eq(scope[n - 1].0.as_str(), name) {
                    assert(sv[n - 1].0 == name@);
                    assert(latest_type(sv, name@, n as int) == scope@[n - 1].1);
                    assert(symbol_type(state@, name@) == latest_type(sv, name@, sv.len() as int));
                    return scope[n - 1].1;
                }
                n = n - 1;
            }
            None
        },
    }
}

fn resolve_udt_target(
    state: &mut AnalyzerState,
    known: &ExprKnowledge,
    receiver: &String,
    field: &String,
    span: Span,
) -> (r: Option<FieldTarget>)
    ensures
        (opt_target_view(r), final(state)@) == udt_target(old(state)@, *known, receiver@, field@, span),
        keeps_rest(*old(state), *final(state)),
{
    if find_scope(state, receiver.as_str()).is_none() {
        let s = String::from_str("cannot reassign unknown symbol `");
        let s = s.concat(receiver.as_str());
        let s = s.concat("`");
        push_error(&mut state.diagnostics, "E_UNKNOWN_SYMBOL", s, span);
        return None;
    }
    match receiver_entry(&known.udt_receivers, span) {
        None => {
            let s = String::from_str("cannot mutate field `");
            let s = s.concat(field.as_str());
            let s = s.concat("` on non-UDT `");
            let s = s.concat(receiver.as_str());
            let s = s.concat("`");
            push_error(&mut state.diagnostics, "E_UDT_FIELD_MUTATION", s, span);
            None
        },
        Some(rc) => match user_type_field(known.user_types.as_slice(), rc.udt_name.as_str(), field.as_str()) {
            Some((_, f)) => Some(
                FieldTarget::UserType(
                    PineType { qualifier: rc.qualifier, kind: f.pine_type.kind },
                    f.user_type_name.clone(),
                    rc.is_param,
                ),
            ),
            None => {
                if find_user_type(known.user_types.as_slice(), rc.udt_name.as_str()).is_none() {
                    return None;
                }
                let s = String::from_str("unknown field `");
                let s = s.concat(field.as_str());
                let s = s.concat("` on `");
                let s = s.concat(rc.udt_name.as_str());
                let s = s.concat("`");
                push_error(&mut state.diagnostics, "E_UDT_UNKNOWN_FIELD", s, span);
                None
            },
        },
    }
}

fn resolve_field_target(
    state: &mut AnalyzerState,
    known: &ExprKnowledge,
    receiver: &String,
    field: &String,
    span: Span,
) -> (r: Option<FieldTarget>)
    ensures
        (opt_target_view(r), final(state)@) == spec_field_target(old(state)@, *known, receiver@, field@, span),
        keeps_rest(*old(state), *final(state)),
{
    match symbol_type_of(state, receiver.as_str()) {
        Some(t) => {
            if t.kind == ValueKind::ChartPoint {
                match chart_point_field_type(t, field.as_str()) {
                    Some(ft) => Some(FieldTarget::ChartPoint(ft)),
                    None => {
                        let s = String::from_str("unknown field `");
                        let s = s.concat(field.as_str());
                        let s = s.concat("` on `chart.point`");
                        push_error(&mut state.diagnostics, "E_CHART_POINT_UNKNOWN_FIELD", s, span);
                        resolve_udt_target(state, known, receiver, field, span)
                    },
                }
            } else {
                resolve_udt_target(state, known, receiver, field, span)
            }
        },
        None => resolve_udt_target(state, known, receiver, field, span),
    }
}

/// Analyzes the reassignment of `receiver.field` to `value` at `span` (see
/// `spec_field_reassign`).
pub fn analyze_field_reassign(
    state: &mut AnalyzerState,
    known: &ExprKnowledge,
    receiver: &String,
    field: &String,
    value: &Expr,
    span: Span,
)
    ensures
        final(state)@ == spec_field_reassign(old(state)@, *known, receiver@, field@, *value, span),
        keeps_rest(*old(state), *final(state)),
{
    let ghost v0 = state@;
    let global = match find_scope(state, receiver.as_str()) {
        Some(j) => j == 0,
        None => false,
    };
    let method = match state.function_stack.last() {
        Some(last) => starts_with(last.as_str(), "method:"),
        None => false,
    };
    proof {
        lemma_resolve_scope_in_range(v0.scopes, receiver@, v0.scopes.len() as int);
    }
    assert(method == in_method(v0.function_stack));
    assert(global == (resolve_scope(v0.scopes, receiver@, v0.scopes.len() as int) == Some(0int)));
    let target = resolve_field_target(state, known, receiver, field, span);
    let (is_udt, param) = match &target {
        Some(FieldTarget::UserType(_, _, p)) => (true, *p),
        _ => (false, false),
    };
    let allowed = is_udt && !method && !global && !param;
    let ghost v1 = state@;
    let ghost tv = opt_target_view(target);
    assert((tv, v1) == spec_field_target(v0, *known, receiver@, field@, span));
    assert(v1.function_depth == v0.function_depth);
    assert(allowed == allowed_local_mutation(tv, method, global));
    assert(param == target_param(tv));
    if state.function_depth > 0 && !allowed {
        let reason = match &target {
            Some(FieldTarget::UserType(..)) => if method {
                "mutating user-defined type fields inside methods is not supported"
            } else if param {
                "mutating user-defined type parameter fields inside user-defined functions is not supported"
            } else if global {
                "mutating fields on global user-defined type values inside user-defined functions is not supported"
            } else {
                "mutating user-defined type fields inside user-defined functions is not supported"
            },
            Some(FieldTarget::ChartPoint(_)) => "mutating chart.point fields inside user-defined functions or methods is not supported",
            None => "mutating object fields inside user-defined functions or methods is not supported",
        };
        refuse(state, "function_side_effect", reason, span);
    }
    let ghost v2 = state@;
    assert(v2 == if v0.function_depth > 0 && !allowed_local_mutation(tv, method, global) {
        with_refusal(v1, "function_side_effect"@, mutation_reason(tv, method, target_param(tv), global), span)
    } else {
        v1
    });
    let vt = analyze_expr(state, known, value);
    let ghost v3 = state@;
    assert((vt, v3) == spec_analyze_expr(v2, *known, *value));
    match (&target, vt) {
        (Some(FieldTarget::ChartPoint(_)), Some(_)) => {
            record(state, "chart.point field mutation", span);
            assert(state@ == with_feature(v3, "chart.point field mutation"@, span));
        },
        (Some(FieldTarget::UserType(_, u, _)), Some(t)) => {
            match u {
                Some(u) => {
                    let name = receiver.clone();
                    let name = name.concat(".");
                    let name = name.concat(field.as_str());
                    let actual = value_user_type(&known.value_user_types, value.span);
                    let actual_str: Option<&str> = match actual {
                        Some(a) => Some(a.as_str()),
                        None => None,
                    };
                    assert(crate::arg_facts::opt_str_view(actual_str) == opt_ref_view(actual));
                    assert(name@ == receiver@ + "."@ + field@);
                    assert("cannot assign "@ + spec_pine_type_name(t) + " to `"@ + name@ + "` of user-defined type `"@ + u@ + "`"@
                        =~= "cannot assign "@ + spec_pine_type_name(t) + " to `"@ + receiver@ + "."@ + field@
                        + "` of user-defined type `"@ + u@ + "`"@);
                    validate_user_type_field_assignment(name.as_str(), u.as_str(), actual_str, t, span, &mut state.diagnostics);
                    assert(tv matches Some(TargetView::UserType(_, Some(uu), _)) && uu == u@);
                },
                None => {},
            }
            let ghost v4 = state@;
            assert(v4 == match opt_string_view(*u) {
                Some(uu) => with_diags(
                    v3,
                    if user_type_of_span(known.value_user_types@, value.span) == Some(uu) {
                        Seq::<DiagView>::empty()
                    } else {
                        seq![error_view(
                            "E_ASSIGN_TYPE"@,
                            "cannot assign "@ + spec_pine_type_name(t) + " to `"@ + receiver@ + "."@ + field@
                                + "` of user-defined type `"@ + uu + "`"@,
                            span,
                        )]
                    },
                ),
                None => v3,
            });
            record(state, "user-defined type field mutation", span);
            assert(state@ == with_feature(v4, "user-defined type field mutation"@, span));
        },
        _ => {
            assert(state@ == v3);
        },
    }
}

} // verus!
