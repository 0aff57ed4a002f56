//! Calls of user-defined methods on user-defined type receivers: finding the
//! method, refusing recursion, depth and side-effecting arguments, and
//! binding the arguments to the method's parameters.
use vstd::prelude::*;
use vstd::string::*;

use crate::compatibility::{
    feature_uses_view, push_feature_use, unsupported, unsupported_diag, unsupported_view, FeatureUse,
    UnsupportedFeature, UnsupportedView,
};
use crate::functions::{contains_output_or_declaration_call, spec_expr_contains_output_call};
use crate::imported_user_types::ImportedUserTypeInfo;
use crate::strings::str_eq;
use crate::syntax::{diags_view, error_view, push_error, CallArg, DiagView, Diagnostic, Span, Stmt};
use crate::call_checks::type_at;
use crate::expr_analysis::ExprKnowledge;
use crate::statements::{
    analyze_function_body, define, keeps_rest, lemma_analyze_stmts_restores_depths, lemma_function_body_keeps_depths, pop_scope, push_scope, room_for, spec_function_body,
    stmts_nesting, with_diags, AnalyzerState, AnalyzerView,
};
use crate::types::PineType;
use crate::udf_args::{
    names_view, report_udf_arg_error, resolve_udf_arg_indices, spec_resolve_udf_arg_indices,
    spec_udf_arg_error_diag, usizes_view, UdfArgErrorView, MAX_FUNCTION_CALL_DEPTH,
};

verus! {

/// A parameter of a user-defined method after its receiver.
#[derive(Clone, Debug)]
pub struct MethodParamInfo {
    pub name: String,
    pub pine_type: PineType,
    pub user_type_name: Option<String>,
}

/// A registered user-defined method: the receiver's type and name, the
/// method's name and other parameters, its body, and where it is declared.
#[derive(Debug)]
pub struct MethodInfo {
    pub receiver_type: String,
    pub name: String,
    pub receiver_name: String,
    pub params: Vec<MethodParamInfo>,
    pub body: Vec<Stmt>,
    pub span: Span,
}

pub open spec fn param_names(params: Seq<MethodParamInfo>) -> Seq<Seq<char>> {
    params.map_values(|p: MethodParamInfo| p.name@)
}

/// The first method registered for receiver type `receiver` named `name`.
pub open spec fn spec_find_method(methods: Seq<MethodInfo>, receiver: Seq<char>, name: Seq<char>, i: int) -> Option<int>
    decreases methods.len() - i,
{
    if i < 0 || i >= methods.len() {
        None
    } else if methods[i].receiver_type@ == receiver && methods[i].name@ == name {
        Some(i)
    } else {
        spec_find_method(methods, receiver, name, i + 1)
    }
}

pub open spec fn is_imported_type(imported: Seq<(String, ImportedUserTypeInfo)>, name: Seq<char>) -> bool {
    exists|k: int| 0 <= k < imported.len() && (#[trigger] imported[k]).0@ == name
}

/// The name a method call takes on the call stack.
pub open spec fn method_stack_name(receiver_type: Seq<char>, method: Seq<char>) -> Seq<char> {
    "method:"@ + receiver_type + "."@ + method
}

pub open spec fn side_effect_method_arg_reason() -> Seq<char> {
    "side-effecting calls cannot be passed as user-defined method arguments"@
}

pub open spec fn spec_side_effect_method_args(args: Seq<CallArg>, i: int) -> Seq<UnsupportedView>
    decreases i,
{
    if i <= 0 {
        Seq::empty()
    } else {
        spec_side_effect_method_args(args, i - 1) + if spec_expr_contains_output_call(args[i - 1].value) {
            seq![("function_side_effect"@, side_effect_method_arg_reason(), args[i - 1].span)]
        } else {
            Seq::<UnsupportedView>::empty()
        }
    }
}

/// What a call of method `method` on a receiver of user-defined type
/// `receiver_type` (at `receiver_span`) reports before the method body is
/// analyzed, and whether it may go on: an unknown method (for an imported
/// receiver type, that imported methods are not supported); a recursive
/// method or a call chain at the depth limit; else the side-effecting
/// arguments are refused and the arguments bound to the parameters.
pub enum MethodCallPlan {
    ImportedReceiver,
    Unknown,
    Recursive,
    TooDeep,
    Bound(int, Result<Seq<int>, UdfArgErrorView>),
}

pub open spec fn spec_method_call_plan(
    methods: Seq<MethodInfo>,
    imported: Seq<(String, ImportedUserTypeInfo)>,
    receiver_type: Seq<char>,
    method: Seq<char>,
    args: Seq<CallArg>,
    stack: Seq<Seq<char>>,
) -> MethodCallPlan {
    match spec_find_method(methods, receiver_type, method, 0) {
        None => if is_imported_type(imported, receiver_type) {
            MethodCallPlan::ImportedReceiver
        } else {
            MethodCallPlan::Unknown
        },
        Some(k) => if stack.contains(method_stack_name(methods[k].receiver_type@, method)) {
            MethodCallPlan::Recursive
        } else if stack.len() >= MAX_FUNCTION_CALL_DEPTH {
            MethodCallPlan::TooDeep
        } else {
            MethodCallPlan::Bound(k, spec_resolve_udf_arg_indices(param_names(methods[k].params@), args))
        },
    }
}

fn find_method(methods: &[MethodInfo], receiver_type: &str, name: &str) -> (r: Option<usize>)
    ensures
        match r {
            Some(k) => spec_find_method(methods@, receiver_type@, name@, 0) == Some(k as int) && k < methods@.len(),
            None => spec_find_method(methods@, receiver_type@, name@, 0) is None,
        },
{
    let n = methods.len();
    let mut i: usize = 0;
    while i < n
        invariant
            n == methods@.len(),
            i <= n,
            spec_find_method(methods@, receiver_type@, name@, 0) == spec_find_method(methods@, receiver_type@, name@, i as int),
        decreases n - i,
    {
        if str_eq(methods[i].receiver_type.as_str(), receiver_type) && str_eq(methods[i].name.as_str(), name) {
            return Some(i);
        }
        i = i + 1;
    }
    None
}

fn imported_type_named(imported: &[(String, ImportedUserTypeInfo)], name: &str) -> (r: bool)
    ensures
        r == is_imported_type(imported@, name@),
{
    let n = imported.len();
    let mut i: usize = 0;
    while i < n
        invariant
            n == imported@.len(),
            i <= n,
            forall|k: int| 0 <= k < i ==> (#[trigger] imported@[k]).0@ != name@,
        decreases n - i,
    {
        if str_eq(imported[i].0.as_str(), name) {
            return true;
        }
        i = i + 1;
    }
    false
}

fn stack_holds(stack: &[String], name: &String) -> (r: bool)
    ensures
        r == names_view(stack@).contains(name@),
{
    let n = stack.len();
    let mut i: usize = 0;
    while i < n
        invariant
            n == stack@.len(),
            i <= n,
            forall|k: int| 0 <= k < i ==> (#[trigger] stack@[k])@ != name@,
        decreases n - i,
    {
        if str_eq(stack[i].as_str(), name.as_str()) {
            assert(names_view(stack@)[i as int] == name@);
            return true;
        }
        i = i + 1;
    }
    assert(!names_view(stack@).contains(name@)) by {
        if names_view(stack@).contains(name@) {
            let k = choose|k: int| 0 <= k < names_view(stack@).len() && names_view(stack@)[k] == name@;
            assert(stack@[k]@ == name@);
        }
    }
    false
}

fn param_name_list(params: &Vec<MethodParamInfo>) -> (r: Vec<String>)
    ensures
        names_view(r@) == param_names(params@),
{
    let mut out: Vec<String> = Vec::new();
    let n = params.len();
    let mut i: usize = 0;
    while i < n
        invariant
            n == params@.len(),
            i <= n,
            out@.len() == i,
            forall|k: int| 0 <= k < i ==> (#[trigger] out@[k])@ == params@[k].name@,
        decreases n - i,
    {
        out.push(params[i].name.clone());
        i = i + 1;
    }
    assert(names_view(out@) =~= param_names(params@));
    out
}

/// Checks a call of method `method_name` on a receiver of user-defined type
/// `receiver_type` at `receiver_span` (see `spec_method_call_plan`): gives
/// the method's position in `methods` and the parameter each argument binds
/// to where the call may go on, recording the method as a supported feature
/// then, and reports what stops it.
pub fn prepare_user_method_call(
    methods: &[MethodInfo],
    imported: &[(String, ImportedUserTypeInfo)],
    receiver_type: &str,
    method_name: &str,
    receiver_span: Span,
    args: &[CallArg],
    function_stack: &[String],
    supported: &mut Vec<FeatureUse>,
    report: &mut Vec<UnsupportedFeature>,
    diagnostics: &mut Vec<Diagnostic>,
) -> (r: Option<(usize, Vec<usize>)>)
    ensures
        ({
            let plan = spec_method_call_plan(methods@, imported@, receiver_type@, method_name@, args@, names_view(function_stack@));
            let refusals = spec_side_effect_method_args(args@, args@.len() as int);
            let stop = |d: DiagView| {
                &&& r is None
                &&& diags_view(final(diagnostics)@) == diags_view(old(diagnostics)@) + seq![d]
                &&& unsupported_view(final(report)@) == unsupported_view(old(report)@)
                &&& final(supported)@ == old(supported)@
            };
            match plan {
                MethodCallPlan::ImportedReceiver => stop(error_view(
                    "E_IMPORT_UNSUPPORTED_METHOD"@,
                    "imported method `"@ + method_name@ + "` for receiver `"@ + receiver_type@
                        + "` is not supported; imported method dispatch requires imported UDT identity"@,
                    receiver_span,
                )),
                MethodCallPlan::Unknown => stop(error_view(
                    "E_UNKNOWN_METHOD"@,
                    "unknown method `"@ + method_name@ + "` for `"@ + receiver_type@ + "`"@,
                    receiver_span,
                )),
                MethodCallPlan::Recursive => stop(error_view(
                    "E_RECURSIVE_METHOD"@,
                    "recursive method `"@ + method_name@ + "` is not supported"@,
                    receiver_span,
                )),
                MethodCallPlan::TooDeep => stop(error_view(
                    "E_FUNCTION_CALL_DEPTH"@,
                    "user-defined method call chain is too deep"@,
                    receiver_span,
                )),
                MethodCallPlan::Bound(k, Err(e)) => {
                    &&& r is None
                    &&& unsupported_view(final(report)@) == unsupported_view(old(report)@) + refusals
                    &&& diags_view(final(diagnostics)@) == diags_view(old(diagnostics)@) + refusals.map_values(
                        |u: UnsupportedView| unsupported_diag(u.0, u.1, u.2),
                    ) + seq![spec_udf_arg_error_diag(method_name@, receiver_span, methods@[k].params@.len(), args@.len(), e)]
                    &&& final(supported)@ == old(supported)@
                },
                MethodCallPlan::Bound(k, Ok(indices)) => {
                    &&& r matches Some((m, v)) && m == k && usizes_view(v@) == indices
                    &&& unsupported_view(final(report)@) == unsupported_view(old(report)@) + refusals
                    &&& diags_view(final(diagnostics)@) == diags_view(old(diagnostics)@) + refusals.map_values(
                        |u: UnsupportedView| unsupported_diag(u.0, u.1, u.2),
                    )
                    &&& feature_uses_view(final(supported)@) == feature_uses_view(old(supported)@) + seq![
                        ("user-defined methods"@, methods@[k].span),
                    ]
                },
            }
        }),
{
    let ghost r0 = unsupported_view(report@);
    let ghost d0 = diags_view(diagnostics@);
    let k = match find_method(methods, receiver_type, method_name) {
        Some(k) => k,
        None => {
            if imported_type_named(imported, receiver_type) {
                let s = String::from_str("imported method `");
                let s = s.concat(method_name);
                let s = s.concat("` for receiver `");
                let s = s.concat(receiver_type);
                let s = s.concat("` is not supported; imported method dispatch requires imported UDT identity");
                push_error(diagnostics, "E_IMPORT_UNSUPPORTED_METHOD", s, receiver_span);
                return None;
            }
            let s = String::from_str("unknown method `");
            let s = s.concat(method_name);
            let s = s.concat("` for `");
            let s = s.concat(receiver_type);
            let s = s.concat("`");
            push_error(diagnostics, "E_UNKNOWN_METHOD", s, receiver_span);
            return None;
        },
    };
    let method = &methods[k];
    let stack_name = String::from_str("method:");
    let stack_name = stack_name.concat(method.receiver_type.as_str());
    let stack_name = stack_name.concat(".");
    let stack_name = stack_name.concat(method_name);
    if stack_holds(function_stack, &stack_name) {
        let s = String::from_str("recursive method `");
        let s = s.concat(method_name);
        let s = s.concat("` is not supported");
        push_error(diagnostics, "E_RECURSIVE_METHOD", s, receiver_span);
        return None;
    }
    if function_stack.len() >= MAX_FUNCTION_CALL_DEPTH {
        push_error(
            diagnostics,
            "E_FUNCTION_CALL_DEPTH",
            String::from_str("user-defined method call chain is too deep"),
            receiver_span,
        );
        return None;
    }
    let n = args.len();
    let mut i: usize = 0;
    while i < n
        invariant
            n == args@.len(),
            i <= n,
            r0 == unsupported_view(old(report)@),
            d0 == diags_view(old(diagnostics)@),
            supported@ == old(supported)@,
            unsupported_view(report@) == r0 + spec_side_effect_method_args(args@, i as int),
            diags_view(diagnostics@) == d0 + spec_side_effect_method_args(args@, i as int).map_values(
                |u: UnsupportedView| unsupported_diag(u.0, u.1, u.2),
            ),
        decreases n - i,
    {
        let ghost before = spec_side_effect_method_args(args@, i as int);
        if contains_output_or_declaration_call(&args[i].value) {
            unsupported(
                "function_side_effect",
                "side-effecting calls cannot be passed as user-defined method arguments",
                args[i].span,
                report,
                diagnostics,
            );
        }
        proof {
            let after = spec_side_effect_method_args(args@, i + 1);
            assert(after.map_values(|u: UnsupportedView| unsupported_diag(u.0, u.1, u.2)) =~= before.map_values(
                |u: UnsupportedView| unsupported_diag(u.0, u.1, u.2),
            ) + (after.skip(before.len() as int)).map_values(|u: UnsupportedView| unsupported_diag(u.0, u.1, u.2)));
            assert(unsupported_view(report@) =~= r0 + after);
            assert(diags_view(diagnostics@) =~= d0 + after.map_values(
                |u: UnsupportedView| unsupported_diag(u.0, u.1, u.2),
            ));
        }
        i = i + 1;
    }
    let params = param_name_list(&method.params);
    match resolve_udf_arg_indices(params.as_slice(), args) {
        Ok(indices) => {
            push_feature_use(supported, "user-defined methods", method.span);
            Some((k, indices))
        },
        Err(error) => {
            report_udf_arg_error(method_name, receiver_span, params.len(), args.len(), error, diagnostics);
            None
        },
    }
}

/// The state after the checks of `prepare_user_method_call` (see
/// `spec_method_call_plan`).
pub open spec fn prepare_effect(
    v: AnalyzerView,
    methods: Seq<MethodInfo>,
    imported: Seq<(String, ImportedUserTypeInfo)>,
    receiver_type: Seq<char>,
    method: Seq<char>,
    span: Span,
    args: Seq<CallArg>,
) -> AnalyzerView {
    let refusals = spec_side_effect_method_args(args, args.len() as int);
    match spec_method_call_plan(methods, imported, receiver_type, method, args, v.function_stack) {
        MethodCallPlan::ImportedReceiver => with_diags(v, seq![error_view(
            "E_IMPORT_UNSUPPORTED_METHOD"@,
            "imported method `"@ + method + "` for receiver `"@ + receiver_type
                + "` is not supported; imported method dispatch requires imported UDT identity"@,
            span,
        )]),
        MethodCallPlan::Unknown => with_diags(v, seq![error_view(
            "E_UNKNOWN_METHOD"@,
            "unknown method `"@ + method + "` for `"@ + receiver_type + "`"@,
            span,
        )]),
        MethodCallPlan::Recursive => with_diags(v, seq![error_view(
            "E_RECURSIVE_METHOD"@,
            "recursive method `"@ + method + "` is not supported"@,
            span,
        )]),
        MethodCallPlan::TooDeep => with_diags(v, seq![error_view(
            "E_FUNCTION_CALL_DEPTH"@,
            "user-defined method call chain is too deep"@,
            span,
        )]),
        MethodCallPlan::Bound(k, Err(e)) => AnalyzerView {
            unsupported: v.unsupported + refusals,
            diags: v.diags + refusals.map_values(|u: UnsupportedView| unsupported_diag(u.0, u.1, u.2)) + seq![
                spec_udf_arg_error_diag(method, span, methods[k].params@.len(), args.len(), e),
            ],
            ..v
        },
        MethodCallPlan::Bound(k, Ok(_)) => AnalyzerView {
            unsupported: v.unsupported + refusals,
            diags: v.diags + refusals.map_values(|u: UnsupportedView| unsupported_diag(u.0, u.1, u.2)),
            supported: v.supported.push(("user-defined methods"@, methods[k].span)),
            ..v
        },
    }
}

/// The argument that binds parameter `p`, where `ix` gives each argument's
/// parameter.
pub open spec fn arg_of_param(ix: Seq<int>, p: int, j: int) -> Option<int>
    decreases ix.len() - j,
{
    if j < 0 || j >= ix.len() {
        None
    } else if ix[j] == p {
        Some(j)
    } else {
        arg_of_param(ix, p, j + 1)
    }
}

pub open spec fn param_type(arg_types: Seq<Option<PineType>>, ix: Seq<int>, p: int) -> Option<PineType> {
    match arg_of_param(ix, p, 0) {
        Some(j) => type_at(arg_types, j),
        None => None,
    }
}

/// The method's parameters from `p` on declared in the innermost scope, each
/// with the type of the argument bound to it.
pub open spec fn define_params(v: AnalyzerView, params: Seq<MethodParamInfo>, ix: Seq<int>, arg_types: Seq<Option<PineType>>, p: int) -> AnalyzerView
    decreases p,
{
    if p <= 0 {
        v
    } else {
        define(define_params(v, params, ix, arg_types, p - 1), params[p - 1].name@, param_type(arg_types, ix, p - 1))
    }
}

/// A call of user-defined method `method` on a receiver of user-defined
/// type `receiver_type` and type `receiver`: its checks (see
/// `prepare_effect`); where the call may go on, a new scope holds the
/// receiver and the parameters, the method enters the call stack, its body
/// is analyzed (see `spec_function_body`) and gives the result, and the
/// stack, depth and scope are restored.
pub open spec fn spec_user_method_call(
    v: AnalyzerView,
    k: ExprKnowledge,
    methods: Seq<MethodInfo>,
    imported: Seq<(String, ImportedUserTypeInfo)>,
    receiver_type: Seq<char>,
    receiver: PineType,
    span: Span,
    method: Seq<char>,
    args: Seq<CallArg>,
    arg_types: Seq<Option<PineType>>,
) -> (Option<PineType>, AnalyzerView) {
    let vp = prepare_effect(v, methods, imported, receiver_type, method, span, args);
    match spec_method_call_plan(methods, imported, receiver_type, method, args, v.function_stack) {
        MethodCallPlan::Bound(mk, Ok(ix)) => {
            let m = methods[mk];
            let v1 = define(push_scope(vp), m.receiver_name@, Some(receiver));
            let v2 = define_params(v1, m.params@, ix, arg_types, m.params@.len() as int);
            let v3 = AnalyzerView {
                function_stack: v2.function_stack.push(method_stack_name(m.receiver_type@, method)),
                function_depth: v2.function_depth + 1,
                ..v2
            };
            let (r, v4) = spec_function_body(v3, k, m.body@, m.span);
            (
                r,
                pop_scope(
                    AnalyzerView {
                        function_stack: v4.function_stack.drop_last(),
                        function_depth: (v4.function_depth - 1) as nat,
                        ..v4
                    },
                ),
            )
        },
        _ => (None, vp),
    }
}

proof fn lemma_define_params_keeps(v: AnalyzerView, params: Seq<MethodParamInfo>, ix: Seq<int>, arg_types: Seq<Option<PineType>>, p: int)
    requires
        v.scopes.len() >= 1,
    ensures
        define_params(v, params, ix, arg_types, p).scopes.len() == v.scopes.len(),
        define_params(v, params, ix, arg_types, p).function_stack == v.function_stack,
        define_params(v, params, ix, arg_types, p).function_depth == v.function_depth,
        define_params(v, params, ix, arg_types, p).block_depth == v.block_depth,
        define_params(v, params, ix, arg_types, p).loop_depth == v.loop_depth,
    decreases p,
{
    if p > 0 {
        lemma_define_params_keeps(v, params, ix, arg_types, p - 1);
    }
}

/// A user-method call leaves the call stack, the function, block and loop
/// depths and the number of open scopes as it found them, on every
/// outcome.
pub proof fn lemma_user_method_call_restores_context(
    v: AnalyzerView,
    k: ExprKnowledge,
    methods: Seq<MethodInfo>,
    imported: Seq<(String, ImportedUserTypeInfo)>,
    receiver_type: Seq<char>,
    receiver: PineType,
    span: Span,
    method: Seq<char>,
    args: Seq<CallArg>,
    arg_types: Seq<Option<PineType>>,
)
    requires
        v.scopes.len() >= 1,
    ensures
        ({
            let after = spec_user_method_call(v, k, methods, imported, receiver_type, receiver, span, method, args, arg_types).1;
            &&& after.function_stack == v.function_stack
            &&& after.function_depth == v.function_depth
            &&& after.block_depth == v.block_depth
            &&& after.loop_depth == v.loop_depth
            &&& after.scopes.len() == v.scopes.len()
        }),
{
    let vp = prepare_effect(v, methods, imported, receiver_type, method, span, args);
    match spec_method_call_plan(methods, imported, receiver_type, method, args, v.function_stack) {
        MethodCallPlan::Bound(mk, Ok(ix)) => {
            let m = methods[mk];
            let v1 = define(push_scope(vp), m.receiver_name@, Some(receiver));
            lemma_define_params_keeps(v1, m.params@, ix, arg_types, m.params@.len() as int);
            let v2 = define_params(v1, m.params@, ix, arg_types, m.params@.len() as int);
            let v3 = AnalyzerView {
                function_stack: v2.function_stack.push(method_stack_name(m.receiver_type@, method)),
                function_depth: v2.function_depth + 1,
                ..v2
            };
            lemma_function_body_keeps_depths(v3, k, m.body@, m.span);
            assert(v3.function_stack.drop_last() =~= v.function_stack);
        },
        _ => {},
    }
}

fn arg_of(ix: &Vec<usize>, p: usize) -> (r: Option<usize>)
    ensures
        match r {
            Some(j) => arg_of_param(usizes_view(ix@), p as int, 0) == Some(j as int) && j < ix@.len(),
            None => arg_of_param(usizes_view(ix@), p as int, 0) is None,
        },
{
    let n = ix.len();
    let mut j: usize = 0;
    while j < n
        invariant
            n == ix@.len(),
            j <= n,
            arg_of_param(usizes_view(ix@), p as int, 0) == arg_of_param(usizes_view(ix@), p as int, j as int),
        decreases n - j,
    {
        if ix[j] == p {
            return Some(j);
        }
        j = j + 1;
    }
    None
}

proof fn lemma_find_method_in_range(methods: Seq<MethodInfo>, receiver: Seq<char>, name: Seq<char>, i: int)
    requires
        0 <= i,
    ensures
        spec_find_method(methods, receiver, name, i) matches Some(k) ==> i <= k < methods.len(),
    decreases methods.len() - i,
{
    if i < methods.len() && !(methods[i].receiver_type@ == receiver && methods[i].name@ == name) {
        lemma_find_method_in_range(methods, receiver, name, i + 1);
    }
}

fn define_symbol(state: &mut AnalyzerState, name: &String, t: Option<PineType>)
    requires
        old(state).scopes@.len() >= 1,
    ensures
        final(state)@ == define(old(state)@, name@, t),
        keeps_rest(*old(state), *final(state)),
{
    let ghost before = state@.scopes;
    let mut top = match state.scopes.pop() {
        Some(top) => top,
        None => Vec::new(),
    };
    let ghost top_before = crate::statements::scope_view(top);
    top.push((name.clone(), t));
    assert(crate::statements::scope_view(top) =~= top_before.push((name@, t)));
    state.scopes.push(top);
    assert(state@.scopes =~= before.update(before.len() - 1, before.last().push((name@, t))));
}

/// Analyzes a call of method `method_name` on a receiver of user-defined
/// type `receiver_type` and type `receiver` at `receiver_span`, whose
/// arguments have types `arg_types` (see `spec_user_method_call`), giving
/// the method's result type.
pub fn analyze_user_method_call_with_receiver(
    state: &mut AnalyzerState,
    known: &ExprKnowledge,
    methods: &[MethodInfo],
    imported: &[(String, ImportedUserTypeInfo)],
    receiver_type: &str,
    receiver: PineType,
    receiver_span: Span,
    method_name: &str,
    args: &[CallArg],
    arg_types: &[Option<PineType>],
) -> (r: Option<PineType>)
    requires
        old(state).scopes@.len() >= 1,
        old(state).function_depth < u32::MAX,
        forall|i: int| 0 <= i < methods@.len() ==> room_for(old(state)@, stmts_nesting(#[trigger] methods@[i].body@)),
    ensures
        (r, final(state)@) == spec_user_method_call(
            old(state)@,
            *known,
            methods@,
            imported@,
            receiver_type@,
            receiver,
            receiver_span,
            method_name@,
            args@,
            arg_types@,
        ),
        keeps_rest(*old(state), *final(state)),
{
    let ghost v0 = state@;
    proof {
        lemma_find_method_in_range(methods@, receiver_type@, method_name@, 0);
    }
    let planned = prepare_user_method_call(
        methods,
        imported,
        receiver_type,
        method_name,
        receiver_span,
        args,
        state.function_stack.as_slice(),
        &mut state.compatibility.supported,
        &mut state.compatibility.unsupported,
        &mut state.diagnostics,
    );
    let ghost vp = prepare_effect(v0, methods@, imported@, receiver_type@, method_name@, receiver_span, args@);
    assert(state@.diags =~= vp.diags);
    assert(state@.unsupported =~= vp.unsupported);
    assert(state@.supported =~= vp.supported);
    assert(state@ == vp);
    let (mk, ix) = match planned {
        Some(p) => p,
        None => return None,
    };
    let m = &methods[mk];
    let fresh: Vec<(String, Option<PineType>)> = Vec::new();
    assert(crate::statements::scope_view(fresh) =~= Seq::<(Seq<char>, Option<PineType>)>::empty());
    let ghost sc = state@.scopes;
    state.scopes.push(fresh);
    assert(state@.scopes =~= sc.push(Seq::empty()));
    assert(state@ == push_scope(vp));
    define_symbol(state, &m.receiver_name, Some(receiver));
    let ghost v1 = state@;
    let n = m.params.len();
    let mut p: usize = 0;
    while p < n
        invariant
            n == m.params@.len(),
            p <= n,
            state@.scopes.len() >= 1,
            keeps_rest(*old(state), *state),
            state@ == define_params(v1, m.params@, usizes_view(ix@), arg_types@, p as int),
            state@.block_depth == v0.block_depth,
            state@.loop_depth == v0.loop_depth,
            state@.function_depth == v0.function_depth,
            state@.function_stack == v0.function_stack,
            state.function_depth < u32::MAX,
        decreases n - p,
    {
        let t = match arg_of(&ix, p) {
            Some(j) => if j < arg_types.len() {
                arg_types[j]
            } else {
                None
            },
            None => None,
        };
        define_symbol(state, &m.params[p].name, t);
        p = p + 1;
    }
    let stack_name = String::from_str("method:");
    let stack_name = stack_name.concat(m.receiver_type.as_str());
    let stack_name = stack_name.concat(".");
    let stack_name = stack_name.concat(method_name);
    let ghost fs = state@.function_stack;
    state.function_stack.push(stack_name);
    assert(state@.function_stack =~= fs.push(method_stack_name(m.receiver_type@, method_name@)));
    state.function_depth = state.function_depth + 1;
    let ghost v3 = state@;
    proof {
        lemma_function_body_keeps_depths(v3, *known, m.body@, m.span);
    }
    let r = analyze_function_body(state, known, &m.body, m.span);
    let ghost fs4 = state@.function_stack;
    let _ = state.function_stack.pop();
    assert(state@.function_stack =~= fs4.drop_last());
    state.function_depth = state.function_depth - 1;
    let ghost sc4 = state@.scopes;
    let _ = state.scopes.pop();
    assert(state@.scopes =~= sc4.drop_last());
    r
}

} // verus!
