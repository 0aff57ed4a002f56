//! Tuple declarations such as `[a, b] = f()`: the value is analyzed, must be
//! a tuple of as many elements as there are names, and each name is then
//! declared with its element's type.
use vstd::prelude::*;
use vstd::string::*;

use crate::expr_analysis::{analyze_expr, lemma_analyze_expr_keeps_depths, spec_analyze_expr, ExprKnowledge};
use crate::statements::{define, define_symbol, keeps_rest, with_diags, AnalyzerState, AnalyzerView};
use crate::strings::{decimal, spec_decimal, str_eq};
use crate::syntax::{diags_view, error_view, push_error, DiagView, Diagnostic, Expr, Severity, Span};
use crate::types::PineType;

verus! {

/// The element types the analysis gave the tuple value at `span`.
pub open spec fn tuple_elements_of(tuples: Seq<(Span, Vec<PineType>)>, span: Span) -> Option<Seq<PineType>>
    decreases tuples.len(),
{
    if tuples.len() == 0 {
        None
    } else if tuples[0].0 == span {
        Some(tuples[0].1@)
    } else {
        tuple_elements_of(tuples.skip(1), span)
    }
}

/// Whether an error stands among the diagnostics from index `start` on;
/// where `other_than_unsupported` holds, only errors whose code is not
/// `E_UNSUPPORTED_FEATURE` count.
pub open spec fn has_error_from(d: Seq<DiagView>, start: int, other_than_unsupported: bool) -> bool {
    exists|j: int|
        start <= j < d.len() && (#[trigger] d[j]).severity == Severity::Error && (!other_than_unsupported
            || d[j].code != "E_UNSUPPORTED_FEATURE"@)
}

/// The first `n` names declared in order, each with its element's type.
pub open spec fn define_all(v: AnalyzerView, names: Seq<String>, types: Seq<PineType>, n: int) -> AnalyzerView
    decreases n,
{
    if n <= 0 {
        v
    } else {
        define(define_all(v, names, types, n - 1), names[n - 1]@, Some(types[n - 1]))
    }
}

/// What analyzing the tuple declaration of `names` from `value` at `span`
/// comes to: the value is analyzed; where it got no type, or its analysis
/// reported an error other than an unsupported feature, nothing follows.
/// A value that is no tuple is reported (unless its analysis reported an
/// error), as is a tuple with another number of elements than names;
/// otherwise each name is declared with its element's type.
pub open spec fn spec_tuple_decl(v: AnalyzerView, k: ExprKnowledge, names: Seq<String>, value: Expr, span: Span) -> AnalyzerView {
    let (t, v1) = spec_analyze_expr(v, k, value);
    let start = v.diags.len() as int;
    if t is None || has_error_from(v1.diags, start, true) {
        v1
    } else {
        match tuple_elements_of(k.tuples@, value.span) {
            None => if has_error_from(v1.diags, start, false) {
                v1
            } else {
                with_diags(v1, seq![error_view("E_TUPLE_TYPE"@, "tuple assignment requires a tuple value"@, value.span)])
            },
            Some(el) => if names.len() != el.len() {
                with_diags(
                    v1,
                    seq![error_view(
                        "E_TUPLE_ARITY"@,
                        "tuple assignment expects "@ + spec_decimal(names.len()) + " value(s), got "@ + spec_decimal(el.len()),
                        span,
                    )],
                )
            } else {
                define_all(v1, names, el, names.len() as int)
            },
        }
    }
}

proof fn lemma_define_all_keeps(v: AnalyzerView, names: Seq<String>, types: Seq<PineType>, n: int)
    requires
        v.scopes.len() >= 1,
    ensures
        define_all(v, names, types, n).scopes.len() == v.scopes.len(),
        define_all(v, names, types, n).block_depth == v.block_depth,
        define_all(v, names, types, n).loop_depth == v.loop_depth,
        define_all(v, names, types, n).function_depth == v.function_depth,
        define_all(v, names, types, n).expr_depth == v.expr_depth,
        define_all(v, names, types, n).function_stack == v.function_stack,
    decreases n,
{
    if n > 0 {
        lemma_define_all_keeps(v, names, types, n - 1);
    }
}

/// A tuple declaration leaves the depths, scopes and call stack as they
/// were.
pub proof fn lemma_tuple_decl_keeps_depths(v: AnalyzerView, k: ExprKnowledge, names: Seq<String>, value: Expr, span: Span)
    requires
        v.scopes.len() >= 1,
    ensures
        spec_tuple_decl(v, k, names, value, span).scopes.len() == v.scopes.len(),
        spec_tuple_decl(v, k, names, value, span).block_depth == v.block_depth,
        spec_tuple_decl(v, k, names, value, span).loop_depth == v.loop_depth,
        spec_tuple_decl(v, k, names, value, span).function_depth == v.function_depth,
        spec_tuple_decl(v, k, names, value, span).expr_depth == v.expr_depth,
        spec_tuple_decl(v, k, names, value, span).function_stack == v.function_stack,
{
    lemma_analyze_expr_keeps_depths(v, k, value);
    let (t, v1) = spec_analyze_expr(v, k, value);
    if let Some(el) = tuple_elements_of(k.tuples@, value.span) {
        lemma_define_all_keeps(v1, names, el, names.len() as int);
    }
}

fn tuple_elements(tuples: &Vec<(Span, Vec<PineType>)>, span: Span) -> (r: Option<&Vec<PineType>>)
    ensures
        match r {
            Some(el) => tuple_elements_of(tuples@, span) == Some(el@),
            None => tuple_elements_of(tuples@, span) is None,
        },
{
    let n = tuples.len();
    let mut i: usize = 0;
    assert(tuples@.skip(0) =~= tuples@);
    while i < n
        invariant
            n == tuples@.len(),
            i <= n,
            tuple_elements_of(tuples@, span) == tuple_elements_of(tuples@.skip(i as int), span),
        decreases n - i,
    {
        assert(tuples@.skip(i as int).skip(1) =~= tuples@.skip((i + 1) as int));
        if tuples[i].0 == span {
            return Some(&tuples[i].1);
        }
        i = i + 1;
    }
    None
}

fn errors_from(d: &Vec<Diagnostic>, start: usize, other_than_unsupported: bool) -> (r: bool)
    ensures
        r == has_error_from(diags_view(d@), start as int, other_than_unsupported),
{
    let n = d.len();
    let mut i: usize = start;
    while i < n
        invariant
            n == d@.len(),
            start <= i,
            forall|j: int|
                start <= j < i ==> !((#[trigger] diags_view(d@)[j]).severity == Severity::Error && (
                !other_than_unsupported || diags_view(d@)[j].code != "E_UNSUPPORTED_FEATURE"@)),
        decreases n - i,
    {
        let is_error = match d[i].severity {
            Severity::Error => true,
            Severity::Warning => false,
        };
        if is_error && (!other_than_unsupported || !str_eq(d[i].code.as_str(), "E_UNSUPPORTED_FEATURE")) {
            assert(diags_view(d@)[i as int] == crate::syntax::diag_view(d@[i as int]));
            return true;
        }
        i = i + 1;
    }
    false
}

/// Analyzes the tuple declaration of `names` from `value` at `span` (see
/// `spec_tuple_decl`).
pub fn analyze_tuple_decl(state: &mut AnalyzerState, known: &ExprKnowledge, names: &Vec<String>, value: &Expr, span: Span)
    requires
        old(state).scopes@.len() >= 1,
    ensures
        final(state)@ == spec_tuple_decl(old(state)@, *known, names@, *value, span),
        keeps_rest(*old(state), *final(state)),
{
    let ghost v0 = state@;
    let start = state.diagnostics.len();
    let t = analyze_expr(state, known, value);
    proof {
        lemma_analyze_expr_keeps_depths(v0, *known, *value);
    }
    let ghost v1 = state@;
    if t.is_none() || errors_from(&state.diagnostics, start, true) {
        return;
    }
    match tuple_elements(&known.tuples, value.span) {
        None => {
            if !errors_from(&state.diagnostics, start, false) {
                push_error(
                    &mut state.diagnostics,
                    "E_TUPLE_TYPE",
                    String::from_str("tuple assignment requires a tuple value"),
                    value.span,
                );
            }
        },
        Some(el) => {
            if names.len() != el.len() {
                let s = String::from_str("tuple assignment expects ");
                let s = s.concat(decimal(names.len()).as_str());
                let s = s.concat(" value(s), got ");
                let s = s.concat(decimal(el.len()).as_str());
                push_error(&mut state.diagnostics, "E_TUPLE_ARITY", s, span);
            } else {
                let n = names.len();
                let mut i: usize = 0;
                while i < n
                    invariant
                        n == names@.len(),
                        n == el@.len(),
                        i <= n,
                        state@.scopes.len() >= 1,
                        v1.scopes.len() >= 1,
                        state@ == define_all(v1, names@, el@, i as int),
                        keeps_rest(*old(state), *state),
                    decreases n - i,
                {
                    proof {
                        lemma_define_all_keeps(v1, names@, el@, i as int);
                    }
                    define_symbol(state, &names[i], Some(el[i]));
                    i = i + 1;
                }
            }
        },
    }
}

} // verus!
