//! The statement-level analysis of a script: where declarations may stand,
//! the conditions and ranges of `if`, `for` and `while`, loop control, and
//! the syntax outside the supported subset, over the nesting of blocks,
//! loops and functions.
use vstd::prelude::*;
use vstd::string::*;

use crate::compatibility::{
    feature_uses_view, push_feature_use, unsupported, unsupported_diag, unsupported_view,
    CompatibilityReport, UnsupportedView,
};
use crate::expression_checks::{expect_bool, expect_int, expect_non_zero_loop_step};
use crate::syntax::{diags_view, error_view, push_error, DiagView, Diagnostic, Expr, ExprKind, Literal, Span, Stmt, StmtKind};
use crate::expr_analysis::{analyze_expr, lemma_analyze_expr_keeps_depths, spec_analyze_expr, ExprKnowledge};
use crate::strings::str_eq;
use crate::field_mutations::{analyze_field_reassign, lemma_field_reassign_keeps_depths, spec_field_reassign};
use crate::tuple_decls::{analyze_tuple_decl, lemma_tuple_decl_keeps_depths, spec_tuple_decl};
use crate::types::{spec_type_debug_label, PineType, ValueKind};
use crate::unsupported::{spec_unsupported_syntax_reason, unsupported_syntax_reason};

verus! {

/// What the analysis carries from statement to statement: its diagnostics,
/// the compatibility report, and how deep in blocks, loops and user-defined
/// functions it stands.
pub struct AnalyzerState {
    pub diagnostics: Vec<Diagnostic>,
    pub compatibility: CompatibilityReport,
    pub block_depth: u32,
    pub loop_depth: u32,
    pub function_depth: u32,
    pub expr_depth: u32,
    pub scopes: Vec<Vec<(String, Option<PineType>)>>,
    pub function_stack: Vec<String>,
}

/// A scope as plain values: each name declared in it with its type (`None`
/// where the analysis could not type the value), latest last.
pub type ScopeView = Seq<(Seq<char>, Option<PineType>)>;

pub open spec fn scope_view(s: Vec<(String, Option<PineType>)>) -> ScopeView {
    s@.map_values(|e: (String, Option<PineType>)| (e.0@, e.1))
}

/// The analyzer state as plain values.
pub struct AnalyzerView {
    pub diags: Seq<DiagView>,
    pub supported: Seq<(Seq<char>, Span)>,
    pub unsupported: Seq<UnsupportedView>,
    pub block_depth: nat,
    pub loop_depth: nat,
    pub function_depth: nat,
    pub expr_depth: nat,
    pub scopes: Seq<ScopeView>,
    pub function_stack: Seq<Seq<char>>,
}

impl AnalyzerState {
    pub open spec fn view(&self) -> AnalyzerView {
        AnalyzerView {
            diags: diags_view(self.diagnostics@),
            supported: feature_uses_view(self.compatibility.supported@),
            unsupported: unsupported_view(self.compatibility.unsupported@),
            block_depth: self.block_depth as nat,
            loop_depth: self.loop_depth as nat,
            function_depth: self.function_depth as nat,
            expr_depth: self.expr_depth as nat,
            scopes: self.scopes@.map_values(|sc: Vec<(String, Option<PineType>)>| scope_view(sc)),
            function_stack: self.function_stack@.map_values(|n: String| n@),
        }
    }
}

/// Everything of the state outside its view is as it was: the report's
/// language version, version origin, dialect, script mode, legacy
/// translations and legacy emulations.
pub open spec fn keeps_rest(before: AnalyzerState, after: AnalyzerState) -> bool {
    &&& after.compatibility.language_version == before.compatibility.language_version
    &&& after.compatibility.language_version_origin == before.compatibility.language_version_origin
    &&& after.compatibility.dialect == before.compatibility.dialect
    &&& after.compatibility.script_mode == before.compatibility.script_mode
    &&& after.compatibility.legacy_translations == before.compatibility.legacy_translations
    &&& after.compatibility.legacy_emulations == before.compatibility.legacy_emulations
}

/// The type the expression analysis gave the expression at `span`.
pub open spec fn type_of_span(types: Seq<(Span, PineType)>, span: Span) -> Option<PineType>
    decreases types.len(),
{
    if types.len() == 0 {
        None
    } else if types[0].0 == span {
        Some(types[0].1)
    } else {
        type_of_span(types.skip(1), span)
    }
}

/// The integer literal an expression is.
pub open spec fn literal_int(e: Expr) -> Option<i64> {
    match e.kind {
        ExprKind::Literal(Literal::Int(v)) => Some(v),
        _ => None,
    }
}

pub open spec fn with_diags(v: AnalyzerView, d: Seq<DiagView>) -> AnalyzerView {
    AnalyzerView { diags: v.diags + d, ..v }
}

pub open spec fn with_feature(v: AnalyzerView, feature: Seq<char>, span: Span) -> AnalyzerView {
    AnalyzerView { supported: v.supported.push((feature, span)), ..v }
}

pub open spec fn with_refusal(v: AnalyzerView, feature: Seq<char>, reason: Seq<char>, span: Span) -> AnalyzerView {
    AnalyzerView {
        unsupported: v.unsupported.push((feature, reason, span)),
        diags: v.diags.push(unsupported_diag(feature, reason, span)),
        ..v
    }
}

pub open spec fn bool_diags(t: Option<PineType>, span: Span) -> Seq<DiagView> {
    match t {
        Some(t) => if t.kind != ValueKind::Bool {
            seq![error_view("E_CONDITION_TYPE"@, "condition must be bool, got "@ + spec_type_debug_label(t), span)]
        } else {
            Seq::empty()
        },
        None => Seq::empty(),
    }
}

pub open spec fn int_diags(t: Option<PineType>, span: Span) -> Seq<DiagView> {
    match t {
        Some(t) => if t.kind != ValueKind::Int {
            seq![error_view("E_LOOP_RANGE_TYPE"@, "for loop range must be int, got "@ + spec_type_debug_label(t), span)]
        } else {
            Seq::empty()
        },
        None => Seq::empty(),
    }
}

/// What a `for` statement's range reports, given the types its bounds and
/// step got (`ft`, `tt`, `st`): bounds and step that are not ints, and a
/// step that is the literal zero (only where the step has a type).
pub open spec fn range_diags(ft: Option<PineType>, tt: Option<PineType>, from: Expr, to: Expr, step: Option<Expr>, st: Option<PineType>) -> Seq<DiagView> {
    int_diags(ft, from.span) + int_diags(tt, to.span) + match step {
        Some(s) => match st {
            Some(t) => int_diags(Some(t), s.span) + if literal_int(s) == Some(0i64) {
                seq![error_view("E_LOOP_STEP"@, "for loop step cannot be zero"@, s.span)]
            } else {
                Seq::<DiagView>::empty()
            },
            None => Seq::empty(),
        },
        None => Seq::empty(),
    }
}

pub open spec fn enter(v: AnalyzerView, is_loop: bool) -> AnalyzerView {
    AnalyzerView {
        block_depth: v.block_depth + 1,
        loop_depth: if is_loop { v.loop_depth + 1 } else { v.loop_depth },
        scopes: v.scopes.push(Seq::empty()),
        ..v
    }
}

pub open spec fn leave(v: AnalyzerView, is_loop: bool) -> AnalyzerView {
    AnalyzerView {
        block_depth: (v.block_depth - 1) as nat,
        loop_depth: if is_loop { (v.loop_depth - 1) as nat } else { v.loop_depth },
        scopes: v.scopes.drop_last(),
        ..v
    }
}

/// A new scope inside the current one.
pub open spec fn push_scope(v: AnalyzerView) -> AnalyzerView {
    AnalyzerView { scopes: v.scopes.push(Seq::empty()), ..v }
}

/// Back to the enclosing scope.
pub open spec fn pop_scope(v: AnalyzerView) -> AnalyzerView {
    AnalyzerView { scopes: v.scopes.drop_last(), ..v }
}

/// `name` declared with type `t` in the innermost scope.
pub open spec fn define(v: AnalyzerView, name: Seq<char>, t: Option<PineType>) -> AnalyzerView {
    AnalyzerView { scopes: v.scopes.update(v.scopes.len() - 1, v.scopes.last().push((name, t))), ..v }
}

pub open spec fn declares(scope: ScopeView, name: Seq<char>) -> bool {
    exists|j: int| 0 <= j < scope.len() && (#[trigger] scope[j]).0 == name
}

/// The innermost scope among the first `n` that declares `name`.
pub open spec fn resolve_scope(scopes: Seq<ScopeView>, name: Seq<char>, n: int) -> Option<int>
    decreases n,
{
    if n <= 0 || n > scopes.len() {
        None
    } else if declares(scopes[n - 1], name) {
        Some(n - 1)
    } else {
        resolve_scope(scopes, name, n - 1)
    }
}

/// The type the counter of a `for` loop has: an int as dynamic as the more
/// dynamic of its bounds, where both are typed.
pub open spec fn counter_type(ft: Option<PineType>, tt: Option<PineType>) -> Option<PineType> {
    match (ft, tt) {
        (Some(f), Some(t)) => Some(PineType { qualifier: crate::types::spec_strongest_qualifier(f.qualifier, t.qualifier), kind: ValueKind::Int }),
        _ => None,
    }
}

/// The state after analyzing a `for` statement's bounds and step, and the
/// types they got.
pub open spec fn for_parts(v: AnalyzerView, k: ExprKnowledge, from: Expr, to: Expr, step: Option<Expr>) -> (
    Option<PineType>,
    Option<PineType>,
    Option<PineType>,
    AnalyzerView,
) {
    let (ft, v1) = spec_analyze_expr(v, k, from);
    let (tt, v2) = spec_analyze_expr(v1, k, to);
    match step {
        Some(s) => {
            let (st, v3) = spec_analyze_expr(v2, k, s);
            (ft, tt, st, v3)
        },
        None => (ft, tt, None, v2),
    }
}

pub open spec fn location_diags(v: AnalyzerView, code: Seq<char>, message: Seq<char>, span: Span) -> Seq<DiagView> {
    if v.block_depth > 0 || v.function_depth > 0 {
        seq![error_view(code, message, span)]
    } else {
        Seq::empty()
    }
}

/// The analysis of statement `s` from `v`: its expressions are analyzed
/// (see `spec_analyze_expr`, with what the rest of the analysis resolved in
/// `k`), then the statement's own checks, declarations and scopes follow.
/// `for ... in` loops leave the state as it is.
pub open spec fn spec_analyze_stmt(v: AnalyzerView, k: ExprKnowledge, s: Stmt) -> AnalyzerView
    decreases s,
{
    match s.kind {
        StmtKind::Expr(e) => spec_analyze_expr(v, k, e).1,
        StmtKind::Import(_) => with_feature(v, "import"@, s.span),
        StmtKind::Library(_) => with_refusal(v, "library"@, spec_unsupported_syntax_reason("library"@), s.span),
        StmtKind::Export(_) => with_refusal(v, "export"@, spec_unsupported_syntax_reason("export"@), s.span),
        StmtKind::UserType(_) => with_feature(
            with_diags(
                v,
                location_diags(v, "E_UDT_DECL_LOCATION"@, "user-defined type declarations must be top-level"@, s.span),
            ),
            "user-defined types"@,
            s.span,
        ),
        StmtKind::Method(_) => with_feature(
            with_diags(
                v,
                location_diags(v, "E_METHOD_DECL_LOCATION"@, "user-defined method declarations must be top-level"@, s.span),
            ),
            "user-defined methods"@,
            s.span,
        ),
        StmtKind::If { condition, then_branch, else_branch } => {
            let (ct, v0) = spec_analyze_expr(v, k, condition);
            let v1 = enter(with_feature(with_diags(v0, bool_diags(ct, condition.span)), "if"@, s.span), false);
            leave(spec_analyze_stmts(push_scope(pop_scope(spec_analyze_stmts(v1, k, then_branch@))), k, else_branch@), false)
        },
        StmtKind::For { variable, from, to, step, body } => {
            let (ft, tt, st, v0) = for_parts(v, k, from, to, step);
            let v1 = define(
                enter(with_feature(with_diags(v0, range_diags(ft, tt, from, to, step, st)), "for"@, s.span), true),
                variable@,
                counter_type(ft, tt),
            );
            leave(spec_analyze_stmts(v1, k, body@), true)
        },
        StmtKind::Decl { name, value } => {
            let (t, v0) = spec_analyze_expr(v, k, value);
            define(
                with_diags(
                    v0,
                    if t matches Some(vt) && vt.kind == ValueKind::Void {
                        seq![error_view("E_DECL_VALUE"@, "declarations must be initialized with a value-producing expression"@, value.span)]
                    } else {
                        Seq::empty()
                    },
                ),
                name@,
                t,
            )
        },
        StmtKind::Reassign { name, value } => {
            let v0 = match resolve_scope(v.scopes, name@, v.scopes.len() as int) {
                None => with_diags(v, seq![error_view("E_UNKNOWN_SYMBOL"@, "cannot reassign unknown symbol `"@ + name@ + "`"@, s.span)]),
                Some(j) => if v.function_depth > 0 && j == 0 {
                    with_refusal(v, "function_side_effect"@, "reassigning global variables inside user-defined functions is not supported"@, s.span)
                } else {
                    v
                },
            };
            spec_analyze_expr(v0, k, value).1
        },
        StmtKind::While { condition, body } => {
            let (ct, v0) = spec_analyze_expr(v, k, condition);
            let v1 = enter(with_feature(with_diags(v0, bool_diags(ct, condition.span)), "while"@, s.span), true);
            leave(spec_analyze_stmts(v1, k, body@), true)
        },
        StmtKind::Break => if v.loop_depth == 0 {
            with_diags(v, seq![error_view("E_LOOP_CONTROL"@, "`break` can only be used inside a loop"@, s.span)])
        } else {
            v
        },
        StmtKind::Continue => if v.loop_depth == 0 {
            with_diags(v, seq![error_view("E_LOOP_CONTROL"@, "`continue` can only be used inside a loop"@, s.span)])
        } else {
            v
        },
        StmtKind::Function { .. } => if v.block_depth > 0 || v.function_depth > 0 {
            with_refusal(v, "block_local_function"@, "nested function declarations are not supported"@, s.span)
        } else {
            v
        },
        StmtKind::TupleDecl { names, value } => spec_tuple_decl(v, k, names@, value, s.span),
        StmtKind::FieldReassign { receiver, field, value } => spec_field_reassign(v, k, receiver@, field@, value, s.span),
        StmtKind::Unsupported { feature } => with_refusal(v, feature@, spec_unsupported_syntax_reason(feature@), s.span),
        _ => v,
    }
}

/// The analysis of statements in order.
pub open spec fn spec_analyze_stmts(v: AnalyzerView, k: ExprKnowledge, stmts: Seq<Stmt>) -> AnalyzerView
    decreases stmts,
{
    if stmts.len() == 0 {
        v
    } else {
        spec_analyze_stmt(spec_analyze_stmts(v, k, stmts.drop_last()), k, stmts.last())
    }
}

/// How deeply blocks nest inside a statement.
pub open spec fn stmt_nesting(s: Stmt) -> nat
    decreases s,
{
    match s.kind {
        StmtKind::If { then_branch, else_branch, .. } => {
            let a = stmts_nesting(then_branch@);
            let b = stmts_nesting(else_branch@);
            1 + if a >= b { a } else { b }
        },
        StmtKind::For { body, .. } => 1 + stmts_nesting(body@),
        StmtKind::While { body, .. } => 1 + stmts_nesting(body@),
        _ => 0,
    }
}

pub open spec fn stmts_nesting(stmts: Seq<Stmt>) -> nat
    decreases stmts,
{
    if stmts.len() == 0 {
        0
    } else {
        let a = stmts_nesting(stmts.drop_last());
        let b = stmt_nesting(stmts.last());
        if a >= b { a } else { b }
    }
}

/// The depth counters stay within range through a statement of this nesting.
pub open spec fn room_for(v: AnalyzerView, n: nat) -> bool {
    v.block_depth + n <= u32::MAX && v.loop_depth + n <= u32::MAX
}

/// The statement-level analysis leaves the analysis as deep in blocks,
/// loops, functions and scopes as it found it: every scope it opens it
/// closes again.
pub proof fn lemma_analyze_stmt_restores_depths(v: AnalyzerView, k: ExprKnowledge, s: Stmt)
    requires
        v.scopes.len() >= 1,
    ensures
        spec_analyze_stmt(v, k, s).block_depth == v.block_depth,
        spec_analyze_stmt(v, k, s).loop_depth == v.loop_depth,
        spec_analyze_stmt(v, k, s).function_depth == v.function_depth,
        spec_analyze_stmt(v, k, s).scopes.len() == v.scopes.len(),
        spec_analyze_stmt(v, k, s).function_stack == v.function_stack,
        spec_analyze_stmt(v, k, s).expr_depth == v.expr_depth,
    decreases s,
{
    match s.kind {
        StmtKind::Expr(e) => lemma_analyze_expr_keeps_depths(v, k, e),
        StmtKind::If { condition, then_branch, else_branch } => {
            lemma_analyze_expr_keeps_depths(v, k, condition);
            let (ct, v0) = spec_analyze_expr(v, k, condition);
            let v1 = enter(with_feature(with_diags(v0, bool_diags(ct, condition.span)), "if"@, s.span), false);
            lemma_analyze_stmts_restores_depths(v1, k, then_branch@);
            let v2 = push_scope(pop_scope(spec_analyze_stmts(v1, k, then_branch@)));
            lemma_analyze_stmts_restores_depths(v2, k, else_branch@);
        },
        StmtKind::For { variable, from, to, step, body } => {
            lemma_for_parts_keep_depths(v, k, from, to, step);
            let (ft, tt, st, v0) = for_parts(v, k, from, to, step);
            let v1 = define(
                enter(with_feature(with_diags(v0, range_diags(ft, tt, from, to, step, st)), "for"@, s.span), true),
                variable@,
                counter_type(ft, tt),
            );
            lemma_analyze_stmts_restores_depths(v1, k, body@);
        },
        StmtKind::Decl { value, .. } => lemma_analyze_expr_keeps_depths(v, k, value),
        StmtKind::TupleDecl { names, value } => lemma_tuple_decl_keeps_depths(v, k, names@, value, s.span),
        StmtKind::FieldReassign { receiver, field, value } => lemma_field_reassign_keeps_depths(v, k, receiver@, field@, value, s.span),
        StmtKind::Reassign { name, value } => {
            let v0 = match resolve_scope(v.scopes, name@, v.scopes.len() as int) {
                None => with_diags(v, seq![error_view("E_UNKNOWN_SYMBOL"@, "cannot reassign unknown symbol `"@ + name@ + "`"@, s.span)]),
                Some(j) => if v.function_depth > 0 && j == 0 {
                    with_refusal(v, "function_side_effect"@, "reassigning global variables inside user-defined functions is not supported"@, s.span)
                } else {
                    v
                },
            };
            lemma_analyze_expr_keeps_depths(v0, k, value);
        },
        StmtKind::While { condition, body } => {
            lemma_analyze_expr_keeps_depths(v, k, condition);
            let (ct, v0) = spec_analyze_expr(v, k, condition);
            let v1 = enter(with_feature(with_diags(v0, bool_diags(ct, condition.span)), "while"@, s.span), true);
            lemma_analyze_stmts_restores_depths(v1, k, body@);
        },
        _ => {},
    }
}

proof fn lemma_for_parts_keep_depths(v: AnalyzerView, k: ExprKnowledge, from: Expr, to: Expr, step: Option<Expr>)
    ensures
        for_parts(v, k, from, to, step).3.block_depth == v.block_depth,
        for_parts(v, k, from, to, step).3.loop_depth == v.loop_depth,
        for_parts(v, k, from, to, step).3.function_depth == v.function_depth,
        for_parts(v, k, from, to, step).3.scopes == v.scopes,
        for_parts(v, k, from, to, step).3.function_stack == v.function_stack,
        for_parts(v, k, from, to, step).3.expr_depth == v.expr_depth,
{
    lemma_analyze_expr_keeps_depths(v, k, from);
    let v1 = spec_analyze_expr(v, k, from).1;
    lemma_analyze_expr_keeps_depths(v1, k, to);
    if let Some(st) = step {
        lemma_analyze_expr_keeps_depths(spec_analyze_expr(v1, k, to).1, k, st);
    }
}

/// The same of a sequence of statements.
pub proof fn lemma_analyze_stmts_restores_depths(v: AnalyzerView, k: ExprKnowledge, stmts: Seq<Stmt>)
    requires
        v.scopes.len() >= 1,
    ensures
        spec_analyze_stmts(v, k, stmts).block_depth == v.block_depth,
        spec_analyze_stmts(v, k, stmts).loop_depth == v.loop_depth,
        spec_analyze_stmts(v, k, stmts).function_depth == v.function_depth,
        spec_analyze_stmts(v, k, stmts).scopes.len() == v.scopes.len(),
        spec_analyze_stmts(v, k, stmts).function_stack == v.function_stack,
        spec_analyze_stmts(v, k, stmts).expr_depth == v.expr_depth,
    decreases stmts,
{
    if stmts.len() > 0 {
        lemma_analyze_stmts_restores_depths(v, k, stmts.drop_last());
        lemma_analyze_stmt_restores_depths(spec_analyze_stmts(v, k, stmts.drop_last()), k, stmts.last());
    }
}

proof fn lemma_nesting_bounds(stmts: Seq<Stmt>, i: int)
    requires
        0 <= i < stmts.len(),
    ensures
        stmt_nesting(stmts[i]) <= stmts_nesting(stmts),
        stmts_nesting(stmts.take(i)) <= stmts_nesting(stmts),
    decreases stmts.len(),
{
    if i < stmts.len() - 1 {
        lemma_nesting_bounds(stmts.drop_last(), i);
        assert(stmts.drop_last().take(i) =~= stmts.take(i));
        assert(stmts.drop_last()[i] == stmts[i]);
    } else {
        assert(stmts.take(i) =~= stmts.drop_last());
    }
}

fn literal_int_of(e: &Expr) -> (r: Option<i64>)
    ensures
        r == literal_int(*e),
{
    match &e.kind {
        ExprKind::Literal(Literal::Int(v)) => Some(*v),
        _ => None,
    }
}

fn check_condition(state: &mut AnalyzerState, ct: Option<PineType>, condition: &Expr)
    ensures
        final(state)@ == with_diags(old(state)@, bool_diags(ct, condition.span)),
        keeps_rest(*old(state), *final(state)),
{
    match ct {
        Some(t) => expect_bool(t, condition.span, &mut state.diagnostics),
        None => {},
    }
    assert(diags_view(state.diagnostics@) =~= with_diags(old(state)@, bool_diags(ct, condition.span)).diags);
}

fn check_range(
    state: &mut AnalyzerState,
    ft: Option<PineType>,
    tt: Option<PineType>,
    from: &Expr,
    to: &Expr,
    step: &Option<Expr>,
    st: Option<PineType>,
)
    ensures
        final(state)@ == with_diags(old(state)@, range_diags(ft, tt, *from, *to, *step, st)),
        keeps_rest(*old(state), *final(state)),
{
    let ghost d0 = diags_view(state.diagnostics@);
    match ft {
        Some(t) => expect_int(t, from.span, &mut state.diagnostics),
        None => {},
    }
    match tt {
        Some(t) => expect_int(t, to.span, &mut state.diagnostics),
        None => {},
    }
    match step {
        Some(s) => match st {
            Some(t) => {
                expect_int(t, s.span, &mut state.diagnostics);
                expect_non_zero_loop_step(s.span, literal_int_of(s), &mut state.diagnostics);
            },
            None => {},
        },
        None => {},
    }
    assert(diags_view(state.diagnostics@) =~= d0 + range_diags(ft, tt, *from, *to, *step, st));
}

pub(crate) fn refuse(state: &mut AnalyzerState, feature: &str, reason: &str, span: Span)
    ensures
        final(state)@ == with_refusal(old(state)@, feature@, reason@, span),
        keeps_rest(*old(state), *final(state)),
{
    let ghost d0 = diags_view(state.diagnostics@);
    let ghost u0 = unsupported_view(state.compatibility.unsupported@);
    unsupported(feature, reason, span, &mut state.compatibility.unsupported, &mut state.diagnostics);
    assert(diags_view(state.diagnostics@) =~= d0.push(unsupported_diag(feature@, reason@, span)));
    assert(unsupported_view(state.compatibility.unsupported@) =~= u0.push((feature@, reason@, span)));
}

pub(crate) fn record(state: &mut AnalyzerState, feature: &str, span: Span)
    ensures
        final(state)@ == with_feature(old(state)@, feature@, span),
        keeps_rest(*old(state), *final(state)),
{
    let ghost s0 = feature_uses_view(state.compatibility.supported@);
    push_feature_use(&mut state.compatibility.supported, feature, span);
    assert(feature_uses_view(state.compatibility.supported@) =~= s0.push((feature@, span)));
}

fn check_location(state: &mut AnalyzerState, code: &str, message: &str, span: Span)
    ensures
        final(state)@ == with_diags(old(state)@, location_diags(old(state)@, code@, message@, span)),
        keeps_rest(*old(state), *final(state)),
{
    let ghost d0 = diags_view(state.diagnostics@);
    if state.block_depth > 0 || state.function_depth > 0 {
        push_error(&mut state.diagnostics, code, String::from_str(message), span);
    } else {
        assert(d0 =~= d0 + Seq::<DiagView>::empty());
    }
}

fn open_scope(state: &mut AnalyzerState)
    ensures
        final(state)@ == push_scope(old(state)@),
        keeps_rest(*old(state), *final(state)),
{
    let ghost before = state@.scopes;
    let fresh: Vec<(String, Option<PineType>)> = Vec::new();
    assert(scope_view(fresh) =~= Seq::<(Seq<char>, Option<PineType>)>::empty());
    state.scopes.push(fresh);
    assert(state@.scopes =~= before.push(Seq::empty()));
}

fn close_scope(state: &mut AnalyzerState)
    requires
        old(state).scopes@.len() >= 1,
    ensures
        final(state)@ == pop_scope(old(state)@),
        keeps_rest(*old(state), *final(state)),
{
    let ghost before = state@.scopes;
    let _ = state.scopes.pop();
    assert(state@.scopes =~= before.drop_last());
}

pub(crate) fn define_symbol(state: &mut AnalyzerState, name: &String, t: Option<PineType>)
    requires
        old(state).scopes@.len() >= 1,
    ensures
        final(state)@ == define(old(state)@, name@, t),
        keeps_rest(*old(state), *final(state)),
{
    let ghost before = state@.scopes;
    let mut top = match state.scopes.pop() {
        Some(top) => top,
        None => Vec::new(),
    };
    let ghost top_before = scope_view(top);
    top.push((name.clone(), t));
    assert(scope_view(top) =~= top_before.push((name@, t)));
    state.scopes.push(top);
    assert(state@.scopes =~= before.update(before.len() - 1, before.last().push((name@, t))));
}

fn scope_declares(scope: &Vec<(String, Option<PineType>)>, name: &str) -> (r: bool)
    ensures
        r == declares(scope_view(*scope), name@),
{
    let n = scope.len();
    let mut j: usize = 0;
    while j < n
        invariant
            n == scope@.len(),
            j <= n,
            forall|q: int| 0 <= q < j ==> (#[trigger] scope@[q]).0@ != name@,
        decreases n - j,
    {
        if str_eq(scope[j].0.as_str(), name) {
            assert(scope_view(*scope)[j as int].0 == name@);
            return true;
        }
        j = j + 1;
    }
    assert(!declares(scope_view(*scope), name@)) by {
        if declares(scope_view(*scope), name@) {
            let q = choose|q: int| 0 <= q < scope_view(*scope).len() && (#[trigger] scope_view(*scope)[q]).0 == name@;
            assert(scope@[q].0@ == name@);
        }
    }
    false
}

pub(crate) fn find_scope(state: &AnalyzerState, name: &str) -> (r: Option<usize>)
    ensures
        match r {
            Some(k) => resolve_scope(state@.scopes, name@, state@.scopes.len() as int) == Some(k as int),
            None => resolve_scope(state@.scopes, name@, state@.scopes.len() as int) is None,
        },
{
    let mut n: usize = state.scopes.len();
    while n > 0
        invariant
            n <= state@.scopes.len(),
            resolve_scope(state@.scopes, name@, state@.scopes.len() as int) == resolve_scope(state@.scopes, name@, n as int),
        decreases n,
    {
        if scope_declares(&state.scopes[n - 1], name) {
            return Some(n - 1);
        }
        n = n - 1;
    }
    None
}

/// Analyzes statement `stmt` (see `spec_analyze_stmt`).
#[verifier::rlimit(100)]
pub fn analyze_stmt(state: &mut AnalyzerState, known: &ExprKnowledge, stmt: &Stmt)
    requires
        room_for(old(state)@, stmt_nesting(*stmt)),
        old(state).scopes@.len() >= 1,
    ensures
        final(state)@ == spec_analyze_stmt(old(state)@, *known, *stmt),
        keeps_rest(*old(state), *final(state)),
    decreases *stmt,
{
    proof {
        reveal_strlit("import");
        reveal_strlit("library");
        reveal_strlit("export");
        lemma_analyze_stmt_restores_depths(state@, *known, *stmt);
    }
    match &stmt.kind {
        StmtKind::Expr(e) => {
            let _ = analyze_expr(state, known, e);
        },
        StmtKind::Import(_) => record(state, "import", stmt.span),
        StmtKind::Library(_) => refuse(state, "library", unsupported_syntax_reason("library"), stmt.span),
        StmtKind::Export(_) => refuse(state, "export", unsupported_syntax_reason("export"), stmt.span),
        StmtKind::UserType(_) => {
            check_location(state, "E_UDT_DECL_LOCATION", "user-defined type declarations must be top-level", stmt.span);
            record(state, "user-defined types", stmt.span);
        },
        StmtKind::Method(_) => {
            check_location(state, "E_METHOD_DECL_LOCATION", "user-defined method declarations must be top-level", stmt.span);
            record(state, "user-defined methods", stmt.span);
        },
        StmtKind::If { condition, then_branch, else_branch } => {
            let ghost va = state@;
            let ct = analyze_expr(state, known, condition);
            proof {
                lemma_analyze_expr_keeps_depths(va, *known, *condition);
            }
            check_condition(state, ct, condition);
            record(state, "if", stmt.span);
            state.block_depth = state.block_depth + 1;
            open_scope(state);
            let ghost v1 = state@;
            proof {
                lemma_analyze_stmts_restores_depths(v1, *known, then_branch@);
            }
            analyze_stmts(state, known, then_branch);
            close_scope(state);
            open_scope(state);
            let ghost v2 = state@;
            proof {
                lemma_analyze_stmts_restores_depths(v2, *known, else_branch@);
            }
            analyze_stmts(state, known, else_branch);
            close_scope(state);
            state.block_depth = state.block_depth - 1;
        },
        StmtKind::For { variable, from, to, step, body } => {
            let ghost va = state@;
            proof {
                lemma_for_parts_keep_depths(va, *known, *from, *to, *step);
            }
            let ft = analyze_expr(state, known, from);
            let tt = analyze_expr(state, known, to);
            let st = match step {
                Some(s) => analyze_expr(state, known, s),
                None => None,
            };
            check_range(state, ft, tt, from, to, step, st);
            record(state, "for", stmt.span);
            state.block_depth = state.block_depth + 1;
            state.loop_depth = state.loop_depth + 1;
            open_scope(state);
            let counter = match (ft, tt) {
                (Some(f), Some(t)) => Some(PineType::new(crate::types::strongest_qualifier(f.qualifier, t.qualifier), ValueKind::Int)),
                _ => None,
            };
            define_symbol(state, variable, counter);
            let ghost v1 = state@;
            proof {
                lemma_analyze_stmts_restores_depths(v1, *known, body@);
            }
            analyze_stmts(state, known, body);
            close_scope(state);
            state.loop_depth = state.loop_depth - 1;
            state.block_depth = state.block_depth - 1;
        },
        StmtKind::While { condition, body } => {
            let ghost va = state@;
            let ct = analyze_expr(state, known, condition);
            proof {
                lemma_analyze_expr_keeps_depths(va, *known, *condition);
            }
            check_condition(state, ct, condition);
            record(state, "while", stmt.span);
            state.block_depth = state.block_depth + 1;
            state.loop_depth = state.loop_depth + 1;
            open_scope(state);
            let ghost v1 = state@;
            proof {
                lemma_analyze_stmts_restores_depths(v1, *known, body@);
            }
            analyze_stmts(state, known, body);
            close_scope(state);
            state.loop_depth = state.loop_depth - 1;
            state.block_depth = state.block_depth - 1;
        },
        StmtKind::Break => {
            if state.loop_depth == 0 {
                push_error(&mut state.diagnostics, "E_LOOP_CONTROL", String::from_str("`break` can only be used inside a loop"), stmt.span);
            }
        },
        StmtKind::Continue => {
            if state.loop_depth == 0 {
                push_error(&mut state.diagnostics, "E_LOOP_CONTROL", String::from_str("`continue` can only be used inside a loop"), stmt.span);
            }
        },
        StmtKind::Function { .. } => {
            if state.block_depth > 0 || state.function_depth > 0 {
                refuse(state, "block_local_function", "nested function declarations are not supported", stmt.span);
            }
        },
        StmtKind::Unsupported { feature } => {
            refuse(state, feature.as_str(), unsupported_syntax_reason(feature.as_str()), stmt.span);
        },
        StmtKind::Decl { name, value } => {
            let ghost va = state@;
            let t = analyze_expr(state, known, value);
            proof {
                lemma_analyze_expr_keeps_depths(va, *known, *value);
            }
            let void = match t {
                Some(vt) => vt.kind == ValueKind::Void,
                None => false,
            };
            let ghost d0 = diags_view(state.diagnostics@);
            if void {
                push_error(
                    &mut state.diagnostics,
                    "E_DECL_VALUE",
                    String::from_str("declarations must be initialized with a value-producing expression"),
                    value.span,
                );
            } else {
                assert(d0 =~= d0 + Seq::<DiagView>::empty());
            }
            define_symbol(state, name, t);
        },
        StmtKind::Reassign { name, value } => {
            match find_scope(state, name.as_str()) {
                None => {
                    let s = String::from_str("cannot reassign unknown symbol `");
                    let s = s.concat(name.as_str());
                    let s = s.concat("`");
                    push_error(&mut state.diagnostics, "E_UNKNOWN_SYMBOL", s, stmt.span);
                },
                Some(k) => {
                    if state.function_depth > 0 && k == 0 {
                        refuse(
                            state,
                            "function_side_effect",
                            "reassigning global variables inside user-defined functions is not supported",
                            stmt.span,
                        );
                    }
                },
            }
            let _ = analyze_expr(state, known, value);
        },
        StmtKind::TupleDecl { names, value } => {
            analyze_tuple_decl(state, known, names, value, stmt.span);
        },
        StmtKind::FieldReassign { receiver, field, value } => {
            analyze_field_reassign(state, known, receiver, field, value, stmt.span);
        },
        _ => {},
    }
}

/// Analyzes statements in order (see `spec_analyze_stmts`).
pub fn analyze_stmts(state: &mut AnalyzerState, known: &ExprKnowledge, stmts: &Vec<Stmt>)
    requires
        room_for(old(state)@, stmts_nesting(stmts@)),
        old(state).scopes@.len() >= 1,
    ensures
        final(state)@ == spec_analyze_stmts(old(state)@, *known, stmts@),
        keeps_rest(*old(state), *final(state)),
    decreases stmts@,
{
    let ghost v0 = state@;
    let n = stmts.len();
    let mut i: usize = 0;
    assert(stmts@.take(0) =~= Seq::<Stmt>::empty());
    while i < n
        invariant
            n == stmts@.len(),
            i <= n,
            room_for(v0, stmts_nesting(stmts@)),
            v0 == old(state)@,
            v0.scopes.len() >= 1,
            keeps_rest(*old(state), *state),
            state@ == spec_analyze_stmts(v0, *known, stmts@.take(i as int)),
        decreases n - i,
    {
        proof {
            lemma_nesting_bounds(stmts@, i as int);
            lemma_analyze_stmts_restores_depths(v0, *known, stmts@.take(i as int));
        }
        assert(stmts@.take((i + 1) as int).drop_last() =~= stmts@.take(i as int));
        analyze_stmt(state, known, &stmts[i]);
        i = i + 1;
    }
    assert(stmts@.take(n as int) =~= stmts@);
}

/// What a function body's analysis comes to, its result type and the state
/// after it: an empty body, or one whose last statement is no expression, is
/// reported; otherwise the statements before the last are analyzed and the
/// last expression gives the result.
pub open spec fn spec_function_body(v: AnalyzerView, k: ExprKnowledge, body: Seq<Stmt>, span: Span) -> (Option<PineType>, AnalyzerView) {
    if body.len() == 0 {
        (None, with_diags(v, seq![error_view("E_FUNCTION_RETURN"@, "user-defined function block must end with an expression"@, span)]))
    } else {
        let v1 = spec_analyze_stmts(v, k, body.drop_last());
        match body.last().kind {
            StmtKind::Expr(e) => spec_analyze_expr(v1, k, e),
            _ => (
                None,
                with_diags(
                    spec_analyze_stmt(v1, k, body.last()),
                    seq![error_view("E_FUNCTION_RETURN"@, "user-defined function block must end with an expression"@, body.last().span)],
                ),
            ),
        }
    }
}

/// Analyzing a function body leaves the depths, scopes and call stack as
/// they were.
pub proof fn lemma_function_body_keeps_depths(v: AnalyzerView, k: ExprKnowledge, body: Seq<Stmt>, span: Span)
    requires
        v.scopes.len() >= 1,
    ensures
        spec_function_body(v, k, body, span).1.block_depth == v.block_depth,
        spec_function_body(v, k, body, span).1.loop_depth == v.loop_depth,
        spec_function_body(v, k, body, span).1.function_depth == v.function_depth,
        spec_function_body(v, k, body, span).1.scopes.len() == v.scopes.len(),
        spec_function_body(v, k, body, span).1.function_stack == v.function_stack,
{
    if body.len() > 0 {
        lemma_analyze_stmts_restores_depths(v, k, body.drop_last());
        let v1 = spec_analyze_stmts(v, k, body.drop_last());
        match body.last().kind {
            StmtKind::Expr(e) => lemma_analyze_expr_keeps_depths(v1, k, e),
            _ => lemma_analyze_stmt_restores_depths(v1, k, body.last()),
        }
    }
}

/// Analyzes the body of a user-defined function or method declared at
/// `span` (see `spec_function_body`), giving its result type.
pub fn analyze_function_body(state: &mut AnalyzerState, known: &ExprKnowledge, body: &Vec<Stmt>, span: Span) -> (r: Option<PineType>)
    requires
        room_for(old(state)@, stmts_nesting(body@)),
        old(state).scopes@.len() >= 1,
    ensures
        (r, final(state)@) == spec_function_body(old(state)@, *known, body@, span),
        keeps_rest(*old(state), *final(state)),
{
    let n = body.len();
    if n == 0 {
        push_error(&mut state.diagnostics, "E_FUNCTION_RETURN", String::from_str("user-defined function block must end with an expression"), span);
        return None;
    }
    let ghost v0 = state@;
    let mut i: usize = 0;
    assert(body@.take(0) =~= Seq::<Stmt>::empty());
    while i < n - 1
        invariant
            n == body@.len(),
            n >= 1,
            i <= n - 1,
            room_for(v0, stmts_nesting(body@)),
            v0 == old(state)@,
            v0.scopes.len() >= 1,
            keeps_rest(*old(state), *state),
            state@ == spec_analyze_stmts(v0, *known, body@.take(i as int)),
        decreases n - 1 - i,
    {
        proof {
            lemma_nesting_bounds(body@, i as int);
            lemma_analyze_stmts_restores_depths(v0, *known, body@.take(i as int));
        }
        assert(body@.take((i + 1) as int).drop_last() =~= body@.take(i as int));
        analyze_stmt(state, known, &body[i]);
        i = i + 1;
    }
    assert(body@.take((n - 1) as int) =~= body@.drop_last());
    let last = &body[n - 1];
    match &last.kind {
        StmtKind::Expr(e) => analyze_expr(state, known, e),
        _ => {
            proof {
                lemma_nesting_bounds(body@, (n - 1) as int);
                lemma_analyze_stmts_restores_depths(v0, *known, body@.drop_last());
            }
            analyze_stmt(state, known, last);
            push_error(&mut state.diagnostics, "E_FUNCTION_RETURN", String::from_str("user-defined function block must end with an expression"), last.span);
            None
        },
    }
}


/// A `for` counter is an int as dynamic as each of its bounds (and exactly
/// as dynamic as the more dynamic one), whenever both bounds are typed.
pub proof fn lemma_for_counter_is_as_dynamic_as_its_bounds(ft: Option<PineType>, tt: Option<PineType>)
    ensures
        (ft is Some && tt is Some) <==> counter_type(ft, tt) is Some,
        counter_type(ft, tt) matches Some(c) ==> {
            &&& c.kind == ValueKind::Int
            &&& crate::types::qualifier_rank(c.qualifier) >= crate::types::qualifier_rank(ft.unwrap().qualifier)
            &&& crate::types::qualifier_rank(c.qualifier) >= crate::types::qualifier_rank(tt.unwrap().qualifier)
            &&& (c.qualifier == ft.unwrap().qualifier || c.qualifier == tt.unwrap().qualifier)
        },
{
}

} // verus!
