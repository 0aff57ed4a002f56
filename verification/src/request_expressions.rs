//! Which requested expressions `request.security` can evaluate: in the
//! script's own context, or by a data provider.
use vstd::prelude::*;

use crate::call_helpers::{expr_name, spec_expr_name};
use crate::requests::{
    is_request_provider_scalar_name, request_provider_tuple_call_is_supported,
    request_scalar_call_is_supported, request_tuple_call_is_supported,
    spec_is_request_provider_scalar_name, spec_request_provider_tuple_call_is_supported,
    spec_request_scalar_call_is_supported, spec_request_tuple_call_is_supported,
};
use crate::strategy::{is_strategy_state_variable, spec_is_strategy_state_variable};
use crate::syntax::{CallArg, Expr, ExprKind, Span, SwitchArm};

verus! {

/// Where a requested expression is evaluated: in the script's own symbol and
/// timeframe, or by a data provider for another symbol or timeframe.
#[derive(Clone, Copy, Debug, PartialEq, Eq, Structural)]
pub enum RequestScope {
    SameContext,
    Provider,
}

/// The canonical name the legacy translator gave the call whose callee
/// starts at `span`: the first entry of `renames` for that span.
pub open spec fn spec_renamed_call(renames: Seq<(Span, String)>, span: Span) -> Option<Seq<char>>
    decreases renames.len(),
{
    if renames.len() == 0 {
        None
    } else if renames[0].0 == span {
        Some(renames[0].1@)
    } else {
        spec_renamed_call(renames.skip(1), span)
    }
}

/// The name a requested call resolves to: the callee's dotted name, or the
/// canonical name the legacy translator gave that call.
pub open spec fn spec_request_call_name(callee: Expr, renames: Seq<(Span, String)>) -> Option<Seq<char>> {
    match spec_expr_name(callee) {
        Some(name) => match spec_renamed_call(renames, callee.span) {
            Some(canonical) => Some(canonical),
            None => Some(name),
        },
        None => None,
    }
}

/// Whether a call named `name` may stand in a requested expression.
pub open spec fn spec_scope_call_supported(scope: RequestScope, name: Seq<char>) -> bool {
    match scope {
        RequestScope::SameContext => spec_request_scalar_call_is_supported(name)
            || spec_request_tuple_call_is_supported(name),
        RequestScope::Provider => spec_request_scalar_call_is_supported(name),
    }
}

/// Whether `e` is a scalar expression the scope can evaluate: literals;
/// names (in the script's context any but a strategy state variable, for a
/// provider only the names it supplies); operators, conditionals and history
/// references over such expressions; supported calls with positional
/// arguments and switches whose parts are requested values. Tuples and
/// loops are not.
pub open spec fn spec_request_scalar(scope: RequestScope, renames: Seq<(Span, String)>, e: Expr) -> bool
    decreases e, 0nat,
{
    match e.kind {
        ExprKind::Literal(_) => true,
        ExprKind::Identifier(name) => match scope {
            RequestScope::SameContext => true,
            RequestScope::Provider => spec_is_request_provider_scalar_name(name@),
        },
        ExprKind::QualifiedName(_) => match spec_expr_name(e) {
            Some(name) => match scope {
                RequestScope::SameContext => !spec_is_strategy_state_variable(name),
                RequestScope::Provider => spec_is_request_provider_scalar_name(name),
            },
            None => true,
        },
        ExprKind::Unary { expr, .. } => spec_request_scalar(scope, renames, *expr),
        ExprKind::Binary { left, right, .. } => spec_request_scalar(scope, renames, *left)
            && spec_request_scalar(scope, renames, *right),
        ExprKind::Ternary { condition, then_expr, else_expr } => spec_request_scalar(
            scope,
            renames,
            *condition,
        ) && spec_request_scalar(scope, renames, *then_expr) && spec_request_scalar(
            scope,
            renames,
            *else_expr,
        ),
        ExprKind::History { expr, offset } => spec_request_scalar(scope, renames, *expr)
            && spec_request_scalar(scope, renames, *offset),
        ExprKind::Call { callee, args } => match spec_request_call_name(*callee, renames) {
            Some(name) => spec_scope_call_supported(scope, name) && spec_request_args(
                scope,
                renames,
                args@,
            ),
            None => false,
        },
        ExprKind::Switch { selector, arms } => (match selector {
            Some(s) => spec_request_value(scope, renames, *s),
            None => true,
        }) && spec_request_arms(scope, renames, arms@),
        ExprKind::Tuple(_) => false,
        ExprKind::For { .. } => false,
    }
}

/// Whether `e` is a value the scope can evaluate: in the script's context a
/// scalar or a tuple of such values, for a provider a scalar.
pub open spec fn spec_request_value(scope: RequestScope, renames: Seq<(Span, String)>, e: Expr) -> bool
    decreases e, 1nat,
{
    match e.kind {
        ExprKind::Tuple(items) => match scope {
            RequestScope::SameContext => spec_request_values(scope, renames, items@),
            RequestScope::Provider => false,
        },
        _ => spec_request_scalar(scope, renames, e),
    }
}

pub open spec fn spec_request_values(scope: RequestScope, renames: Seq<(Span, String)>, items: Seq<Expr>) -> bool
    decreases items, 0nat,
{
    if items.len() == 0 {
        true
    } else {
        spec_request_values(scope, renames, items.drop_last()) && spec_request_value(
            scope,
            renames,
            items.last(),
        )
    }
}

/// Every argument is positional and a value the scope can evaluate.
pub open spec fn spec_request_args(scope: RequestScope, renames: Seq<(Span, String)>, args: Seq<CallArg>) -> bool
    decreases args, 0nat,
{
    if args.len() == 0 {
        true
    } else {
        spec_request_args(scope, renames, args.drop_last()) && args.last().name is None
            && spec_request_value(scope, renames, args.last().value)
    }
}

pub open spec fn spec_request_arm(scope: RequestScope, renames: Seq<(Span, String)>, arm: SwitchArm) -> bool
    decreases arm, 0nat,
{
    (match arm.condition {
        Some(c) => spec_request_value(scope, renames, c),
        None => true,
    }) && spec_request_value(scope, renames, arm.result)
}

pub open spec fn spec_request_arms(scope: RequestScope, renames: Seq<(Span, String)>, arms: Seq<SwitchArm>) -> bool
    decreases arms, 0nat,
{
    if arms.len() == 0 {
        true
    } else {
        spec_request_arms(scope, renames, arms.drop_last()) && spec_request_arm(
            scope,
            renames,
            arms.last(),
        )
    }
}

fn renamed_call(renames: &[(Span, String)], span: Span) -> (r: Option<&String>)
    ensures
        match r {
            Some(c) => spec_renamed_call(renames@, span) == Some(c@),
            None => spec_renamed_call(renames@, span) is None,
        },
{
    let n = renames.len();
    let mut i: usize = 0;
    assert(renames@.skip(0) =~= renames@);
    while i < n
        invariant
            n == renames@.len(),
            i <= n,
            spec_renamed_call(renames@, span) == spec_renamed_call(renames@.skip(i as int), span),
        decreases n - i,
    {
        assert(renames@.skip(i as int).skip(1) =~= renames@.skip((i + 1) as int));
        if renames[i].0 == span {
            return Some(&renames[i].1);
        }
        i = i + 1;
    }
    None
}

/// The name a requested call resolves to: the canonical name the legacy
/// translator gave the call (`renames`, by callee span), else the callee's
/// dotted name.
pub fn request_expression_call_name(callee: &Expr, renames: &[(Span, String)]) -> (r: Option<String>)
    ensures
        match r {
            Some(n) => spec_request_call_name(*callee, renames@) == Some(n@),
            None => spec_request_call_name(*callee, renames@) is None,
        },
{
    let name = match expr_name(callee) {
        Some(n) => n,
        None => return None,
    };
    match renamed_call(renames, callee.span) {
        Some(canonical) => Some(canonical.clone()),
        None => Some(name),
    }
}

fn scope_call_supported(scope: RequestScope, name: &str) -> (r: bool)
    ensures
        r == spec_scope_call_supported(scope, name@),
{
    match scope {
        RequestScope::SameContext => request_scalar_call_is_supported(name)
            || request_tuple_call_is_supported(name),
        RequestScope::Provider => request_scalar_call_is_supported(name),
    }
}

proof fn lemma_values_prefix(scope: RequestScope, renames: Seq<(Span, String)>, s: Seq<Expr>, k: int)
    requires
        0 <= k <= s.len(),
        !spec_request_values(scope, renames, s.take(k)),
    ensures
        !spec_request_values(scope, renames, s),
    decreases s.len(),
{
    if k < s.len() {
        assert(s.drop_last().take(k) =~= s.take(k));
        lemma_values_prefix(scope, renames, s.drop_last(), k);
    } else {
        assert(s.take(k) =~= s);
    }
}

proof fn lemma_args_prefix(scope: RequestScope, renames: Seq<(Span, String)>, s: Seq<CallArg>, k: int)
    requires
        0 <= k <= s.len(),
        !spec_request_args(scope, renames, s.take(k)),
    ensures
        !spec_request_args(scope, renames, s),
    decreases s.len(),
{
    if k < s.len() {
        assert(s.drop_last().take(k) =~= s.take(k));
        lemma_args_prefix(scope, renames, s.drop_last(), k);
    } else {
        assert(s.take(k) =~= s);
    }
}

proof fn lemma_arms_prefix(scope: RequestScope, renames: Seq<(Span, String)>, s: Seq<SwitchArm>, k: int)
    requires
        0 <= k <= s.len(),
        !spec_request_arms(scope, renames, s.take(k)),
    ensures
        !spec_request_arms(scope, renames, s),
    decreases s.len(),
{
    if k < s.len() {
        assert(s.drop_last().take(k) =~= s.take(k));
        lemma_arms_prefix(scope, renames, s.drop_last(), k);
    } else {
        assert(s.take(k) =~= s);
    }
}

fn request_values(scope: RequestScope, renames: &[(Span, String)], items: &Vec<Expr>) -> (r: bool)
    ensures
        r == spec_request_values(scope, renames@, items@),
    decreases items@, 0nat,
{
    let n = items.len();
    let mut i: usize = 0;
    while i < n
        invariant
            n == items@.len(),
            i <= n,
            spec_request_values(scope, renames@, items@.take(i as int)),
        decreases n - i,
    {
        assert(items@.take((i + 1) as int).drop_last() =~= items@.take(i as int));
        if !request_value(scope, renames, &items[i]) {
            proof {
                lemma_values_prefix(scope, renames@, items@, (i + 1) as int);
            }
            return false;
        }
        i = i + 1;
    }
    assert(items@.take(n as int) =~= items@);
    true
}

fn request_args(scope: RequestScope, renames: &[(Span, String)], args: &Vec<CallArg>) -> (r: bool)
    ensures
        r == spec_request_args(scope, renames@, args@),
    decreases args@, 0nat,
{
    let n = args.len();
    let mut i: usize = 0;
    while i < n
        invariant
            n == args@.len(),
            i <= n,
            spec_request_args(scope, renames@, args@.take(i as int)),
        decreases n - i,
    {
        assert(args@.take((i + 1) as int).drop_last() =~= args@.take(i as int));
        if args[i].name.is_some() || !request_value(scope, renames, &args[i].value) {
            proof {
                lemma_args_prefix(scope, renames@, args@, (i + 1) as int);
            }
            return false;
        }
        i = i + 1;
    }
    assert(args@.take(n as int) =~= args@);
    true
}

fn request_arm(scope: RequestScope, renames: &[(Span, String)], arm: &SwitchArm) -> (r: bool)
    ensures
        r == spec_request_arm(scope, renames@, *arm),
    decreases *arm, 0nat,
{
    let condition_ok = match &arm.condition {
        Some(c) => request_value(scope, renames, c),
        None => true,
    };
    condition_ok && request_value(scope, renames, &arm.result)
}

fn request_arms(scope: RequestScope, renames: &[(Span, String)], arms: &Vec<SwitchArm>) -> (r: bool)
    ensures
        r == spec_request_arms(scope, renames@, arms@),
    decreases arms@, 0nat,
{
    let n = arms.len();
    let mut i: usize = 0;
    while i < n
        invariant
            n == arms@.len(),
            i <= n,
            spec_request_arms(scope, renames@, arms@.take(i as int)),
        decreases n - i,
    {
        assert(arms@.take((i + 1) as int).drop_last() =~= arms@.take(i as int));
        if !request_arm(scope, renames, &arms[i]) {
            proof {
                lemma_arms_prefix(scope, renames@, arms@, (i + 1) as int);
            }
            return false;
        }
        i = i + 1;
    }
    assert(arms@.take(n as int) =~= arms@);
    true
}

fn request_scalar(scope: RequestScope, renames: &[(Span, String)], expr: &Expr) -> (r: bool)
    ensures
        r == spec_request_scalar(scope, renames@, *expr),
    decreases *expr, 0nat,
{
    match &expr.kind {
        ExprKind::Literal(_) => true,
        ExprKind::Identifier(name) => match scope {
            RequestScope::SameContext => true,
            RequestScope::Provider => is_request_provider_scalar_name(name.as_str()),
        },
        ExprKind::QualifiedName(_) => match expr_name(expr) {
            Some(name) => match scope {
                RequestScope::SameContext => !is_strategy_state_variable(name.as_str()),
                RequestScope::Provider => is_request_provider_scalar_name(name.as_str()),
            },
            None => true,
        },
        ExprKind::Unary { expr: inner, .. } => request_scalar(scope, renames, inner),
        ExprKind::Binary { left, right, .. } => request_scalar(scope, renames, left)
            && request_scalar(scope, renames, right),
        ExprKind::Ternary { condition, then_expr, else_expr } => request_scalar(
            scope,
            renames,
            condition,
        ) && request_scalar(scope, renames, then_expr) && request_scalar(scope, renames, else_expr),
        ExprKind::History { expr: inner, offset } => request_scalar(scope, renames, inner)
            && request_scalar(scope, renames, offset),
        ExprKind::Call { callee, args } => match request_expression_call_name(callee, renames) {
            Some(name) => scope_call_supported(scope, name.as_str()) && request_args(
                scope,
                renames,
                args,
            ),
            None => false,
        },
        ExprKind::Switch { selector, arms } => {
            let selector_ok = match selector {
                Some(s) => request_value(scope, renames, s),
                None => true,
            };
            selector_ok && request_arms(scope, renames, arms)
        },
        ExprKind::Tuple(_) => false,
        ExprKind::For { .. } => false,
    }
}

fn request_value(scope: RequestScope, renames: &[(Span, String)], expr: &Expr) -> (r: bool)
    ensures
        r == spec_request_value(scope, renames@, *expr),
    decreases *expr, 1nat,
{
    match &expr.kind {
        ExprKind::Tuple(items) => match scope {
            RequestScope::SameContext => request_values(scope, renames, items),
            RequestScope::Provider => false,
        },
        _ => request_scalar(scope, renames, expr),
    }
}

/// Whether a scalar expression can be evaluated in the script's own context
/// (see `spec_request_scalar`).
pub fn request_expression_is_pure_scalar(expr: &Expr, renames: &[(Span, String)]) -> (r: bool)
    ensures
        r == spec_request_scalar(RequestScope::SameContext, renames@, *expr),
{
    request_scalar(RequestScope::SameContext, renames, expr)
}

/// Whether a value (a scalar or a tuple of values) can be evaluated in the
/// script's own context.
pub fn request_expression_is_same_context_value(expr: &Expr, renames: &[(Span, String)]) -> (r: bool)
    ensures
        r == spec_request_value(RequestScope::SameContext, renames@, *expr),
{
    request_value(RequestScope::SameContext, renames, expr)
}

/// Whether a scalar expression can be evaluated by a data provider.
pub fn request_expression_is_provider_scalar(expr: &Expr, renames: &[(Span, String)]) -> (r: bool)
    ensures
        r == spec_request_scalar(RequestScope::Provider, renames@, *expr),
{
    request_scalar(RequestScope::Provider, renames, expr)
}

/// A tuple a data provider can evaluate: a tuple literal of provider
/// scalars, or a supported tuple-returning call with positional provider
/// scalar arguments.
pub open spec fn spec_provider_tuple_value(renames: Seq<(Span, String)>, e: Expr) -> bool {
    match e.kind {
        ExprKind::Tuple(items) => spec_request_values(RequestScope::Provider, renames, items@),
        ExprKind::Call { callee, args } => match spec_request_call_name(*callee, renames) {
            Some(name) => spec_request_provider_tuple_call_is_supported(name) && spec_request_args(
                RequestScope::Provider,
                renames,
                args@,
            ),
            None => false,
        },
        _ => false,
    }
}

/// Whether a tuple can be evaluated by a data provider.
pub fn request_expression_is_provider_tuple_value(expr: &Expr, renames: &[(Span, String)]) -> (r: bool)
    ensures
        r == spec_provider_tuple_value(renames@, *expr),
{
    match &expr.kind {
        ExprKind::Tuple(items) => request_values(RequestScope::Provider, renames, items),
        ExprKind::Call { callee, args } => match request_expression_call_name(callee, renames) {
            Some(name) => request_provider_tuple_call_is_supported(name.as_str()) && request_args(
                RequestScope::Provider,
                renames,
                args,
            ),
            None => false,
        },
        _ => false,
    }
}

} // verus!
