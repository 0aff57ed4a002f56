//! What a call of a named function comes to once its arguments are
//! analyzed: a supported builtin is recorded and typed, a function, method
//! or constructor the analysis resolved is typed, a refused name is reported
//! as unsupported, and any other name is an unknown function.
use vstd::prelude::*;
use vstd::string::*;

use crate::expr_analysis::{is_builtin, ExprKnowledge};
use crate::statements::{keeps_rest, record, refuse, type_of_span, with_diags, with_feature, with_refusal, AnalyzerState, AnalyzerView};
use crate::strings::str_eq;
use crate::syntax::{error_view, push_error, Span};
use crate::types::PineType;
use crate::unsupported::{
    feature_refusal, opt_static_view, spec_feature_refusal, spec_unsupported_collection_reason,
    spec_unsupported_log_reason, spec_unsupported_strategy_reason, unsupported_collection_reason,
    unsupported_log_reason, unsupported_strategy_reason,
};

verus! {

/// Whether `name` is a callee the analysis resolved to a user-defined
/// function, method or constructor.
pub open spec fn is_callable(k: ExprKnowledge, name: Seq<char>) -> bool {
    exists|i: int| 0 <= i < k.callables@.len() && (#[trigger] k.callables@[i])@ == name
}

/// Why a call of `name`, which resolves to nothing, is refused, if it is:
/// strategy builtins outside the broker subset, Pine Logs, unsupported
/// collections, then the refused feature namespaces.
pub open spec fn spec_call_refusal(name: Seq<char>) -> Option<Seq<char>> {
    match spec_unsupported_strategy_reason(name) {
        Some(r) => Some(r),
        None => match spec_unsupported_log_reason(name) {
            Some(r) => Some(r),
            None => match spec_unsupported_collection_reason(name) {
                Some(r) => Some(r),
                None => spec_feature_refusal(name, false),
            },
        },
    }
}

/// The result of a call of `name` (callee at `callee_span`, call at `span`)
/// whose arguments are analyzed, and the state after it.
pub open spec fn spec_resolve_call(
    v: AnalyzerView,
    k: ExprKnowledge,
    name: Seq<char>,
    callee_span: Span,
    span: Span,
) -> (Option<PineType>, AnalyzerView) {
    if is_builtin(k, name) {
        (type_of_span(k.types@, span), with_feature(v, name, callee_span))
    } else if is_callable(k, name) {
        (type_of_span(k.types@, span), v)
    } else {
        match spec_call_refusal(name) {
            Some(reason) => (None, with_refusal(v, name, reason, callee_span)),
            None => (
                None,
                with_diags(v, seq![error_view("E_UNKNOWN_FUNCTION"@, "unknown function `"@ + name + "`"@, callee_span)]),
            ),
        }
    }
}

fn callable_named(k: &ExprKnowledge, name: &str) -> (r: bool)
    ensures
        r == is_callable(*k, name@),
{
    let n = k.callables.len();
    let mut i: usize = 0;
    while i < n
        invariant
            n == k.callables@.len(),
            i <= n,
            forall|j: int| 0 <= j < i ==> (#[trigger] k.callables@[j])@ != name@,
        decreases n - i,
    {
        if str_eq(k.callables[i].as_str(), name) {
            return true;
        }
        i = i + 1;
    }
    false
}

fn call_refusal(name: &str) -> (r: Option<&'static str>)
    ensures
        opt_static_view(r) == spec_call_refusal(name@),
{
    if let Some(r) = unsupported_strategy_reason(name) {
        return Some(r);
    }
    if let Some(r) = unsupported_log_reason(name) {
        return Some(r);
    }
    if let Some(r) = unsupported_collection_reason(name) {
        return Some(r);
    }
    feature_refusal(name, false)
}

/// Resolves a call of `name` whose arguments are analyzed (see
/// `spec_resolve_call`).
pub fn resolve_call(
    state: &mut AnalyzerState,
    known: &ExprKnowledge,
    builtin: bool,
    name: &str,
    callee_span: Span,
    span: Span,
    call_type: Option<PineType>,
) -> (r: Option<PineType>)
    requires
        builtin == is_builtin(*known, name@),
        call_type == type_of_span(known.types@, span),
    ensures
        (r, final(state)@) == spec_resolve_call(old(state)@, *known, name@, callee_span, span),
        keeps_rest(*old(state), *final(state)),
{
    if builtin {
        record(state, name, callee_span);
        return call_type;
    }
    if callable_named(known, name) {
        return call_type;
    }
    match call_refusal(name) {
        Some(reason) => {
            refuse(state, name, reason, callee_span);
            None
        },
        None => {
            let s = String::from_str("unknown function `");
            let s = s.concat(name);
            let s = s.concat("`");
            push_error(&mut state.diagnostics, "E_UNKNOWN_FUNCTION", s, callee_span);
            None
        },
    }
}

} // verus!
