//! Binding the arguments of a call to a user-defined function's parameters.
use vstd::prelude::*;
use vstd::string::*;

use crate::compatibility::{
    feature_uses_view, push_feature_use, unsupported, unsupported_diag, unsupported_view, FeatureUse,
    UnsupportedFeature, UnsupportedView,
};
use crate::functions::{contains_output_or_declaration_call, spec_expr_contains_output_call};
use crate::signatures::first_index_of;
use crate::strings::str_eq;
use crate::strings::{decimal, spec_decimal};
use crate::syntax::{diags_view, error_view, push_error, CallArg, DiagView, Diagnostic, Span};

verus! {

/// Why the arguments of a user-defined function call cannot be bound.
#[derive(Debug)]
pub enum UdfArgError {
    UnknownName { name: String, span: Span },
    Duplicate { name: String, span: Span },
    PositionalAfterNamed { span: Span },
    TooMany { span: Span },
    Missing { param: String },
}

/// The same errors over character sequences.
pub enum UdfArgErrorView {
    UnknownName { name: Seq<char>, span: Span },
    Duplicate { name: Seq<char>, span: Span },
    PositionalAfterNamed { span: Span },
    TooMany { span: Span },
    Missing { param: Seq<char> },
}

impl UdfArgError {
    pub open spec fn view(&self) -> UdfArgErrorView {
        match self {
            UdfArgError::UnknownName { name, span } => UdfArgErrorView::UnknownName {
                name: name@,
                span: *span,
            },
            UdfArgError::Duplicate { name, span } => UdfArgErrorView::Duplicate {
                name: name@,
                span: *span,
            },
            UdfArgError::PositionalAfterNamed { span } => UdfArgErrorView::PositionalAfterNamed {
                span: *span,
            },
            UdfArgError::TooMany { span } => UdfArgErrorView::TooMany { span: *span },
            UdfArgError::Missing { param } => UdfArgErrorView::Missing { param: param@ },
        }
    }
}

pub open spec fn names_view(params: Seq<String>) -> Seq<Seq<char>> {
    params.map_values(|p: String| p@)
}

pub open spec fn is_named(args: Seq<CallArg>, j: int) -> bool {
    args[j].name is Some
}

pub open spec fn name_of(args: Seq<CallArg>, j: int) -> Seq<char> {
    args[j].name.unwrap()@
}

/// The parameter slot argument `j` claims: a named argument claims the first
/// parameter with its name, a positional one the slot of its own position.
pub open spec fn arg_slot(params: Seq<Seq<char>>, args: Seq<CallArg>, j: int) -> Option<int> {
    if is_named(args, j) {
        first_index_of(params, name_of(args, j))
    } else {
        Some(j)
    }
}

/// Whether some argument before `j` claims slot `k`.
pub open spec fn claimed_before(params: Seq<Seq<char>>, args: Seq<CallArg>, j: int, k: int) -> bool {
    exists|i: int| 0 <= i < j && #[trigger] arg_slot(params, args, i) == Some(k)
}

pub open spec fn named_before(args: Seq<CallArg>, j: int) -> bool {
    exists|i: int| 0 <= i < j && #[trigger] is_named(args, i)
}

/// Whether argument `j` cannot be bound, given the arguments before it.
pub open spec fn arg_fails(params: Seq<Seq<char>>, args: Seq<CallArg>, j: int) -> bool {
    if is_named(args, j) {
        match first_index_of(params, name_of(args, j)) {
            None => true,
            Some(k) => claimed_before(params, args, j, k),
        }
    } else {
        named_before(args, j) || j >= params.len()
    }
}

/// The error for failing argument `j`.
pub open spec fn arg_error(params: Seq<Seq<char>>, args: Seq<CallArg>, j: int) -> UdfArgErrorView {
    if is_named(args, j) {
        if first_index_of(params, name_of(args, j)) is None {
            UdfArgErrorView::UnknownName { name: name_of(args, j), span: args[j].span }
        } else {
            UdfArgErrorView::Duplicate { name: name_of(args, j), span: args[j].span }
        }
    } else if named_before(args, j) {
        UdfArgErrorView::PositionalAfterNamed { span: args[j].span }
    } else {
        UdfArgErrorView::TooMany { span: args[j].span }
    }
}

pub open spec fn first_failure_from(params: Seq<Seq<char>>, args: Seq<CallArg>, j: int) -> Option<
    int,
>
    decreases args.len() - j,
{
    if j < 0 || j >= args.len() {
        None
    } else if arg_fails(params, args, j) {
        Some(j)
    } else {
        first_failure_from(params, args, j + 1)
    }
}

/// The first parameter, from `k` on, that no argument claims.
pub open spec fn first_unclaimed_from(params: Seq<Seq<char>>, args: Seq<CallArg>, k: int) -> Option<
    int,
>
    decreases params.len() - k,
{
    if k < 0 || k >= params.len() {
        None
    } else if !claimed_before(params, args, args.len() as int, k) {
        Some(k)
    } else {
        first_unclaimed_from(params, args, k + 1)
    }
}

/// Arguments bind in order; the first argument that cannot bind gives the
/// error; otherwise the first parameter left unbound is missing; otherwise
/// each argument's parameter index.
pub open spec fn spec_resolve_udf_arg_indices(params: Seq<Seq<char>>, args: Seq<CallArg>) -> Result<
    Seq<int>,
    UdfArgErrorView,
> {
    match first_failure_from(params, args, 0) {
        Some(j) => Err(arg_error(params, args, j)),
        None => match first_unclaimed_from(params, args, 0) {
            Some(k) => Err(UdfArgErrorView::Missing { param: params[k] }),
            None => Ok(Seq::new(args.len(), |j: int| arg_slot(params, args, j).unwrap())),
        },
    }
}

pub open spec fn usizes_view(v: Seq<usize>) -> Seq<int> {
    v.map_values(|x: usize| x as int)
}

fn position_of(params: &[String], name: &str) -> (r: Option<usize>)
    ensures
        r matches Some(i) ==> first_index_of(names_view(params@), name@) == Some(i as int),
        r is None ==> first_index_of(names_view(params@), name@) is None,
{
    let n = params.len();
    let ghost names = names_view(params@);
    let mut i: usize = 0;
    while i < n
        invariant
            n == params@.len(),
            names == names_view(params@),
            i <= n,
            first_index_of(names.take(i as int), name@) is None,
        decreases n - i,
    {
        assert(names.take((i + 1) as int).drop_last() =~= names.take(i as int));
        if str_eq(params[i].as_str(), name) {
            assert(names.take((i + 1) as int).last() == name@);
            proof {
                crate::signatures::lemma_first_index_prefix(names, name@, i as int);
            }
            return Some(i);
        }
        assert(names.take((i + 1) as int).last() == params@[i as int]@);
        i = i + 1;
    }
    assert(names.take(n as int) =~= names);
    None
}

/// Binds the arguments of a call to the parameters of a user-defined function.
pub fn resolve_udf_arg_indices(params: &[String], args: &[CallArg]) -> (r: Result<Vec<usize>, UdfArgError>)
    ensures
        match r {
            Ok(v) => spec_resolve_udf_arg_indices(names_view(params@), args@) == Ok::<
                Seq<int>,
                UdfArgErrorView,
            >(usizes_view(v@)),
            Err(e) => spec_resolve_udf_arg_indices(names_view(params@), args@) == Err::<
                Seq<int>,
                UdfArgErrorView,
            >(e.view()),
        },
{
    let ghost ps = names_view(params@);
    let n = params.len();
    let mut used: Vec<bool> = Vec::new();
    let mut k: usize = 0;
    while k < n
        invariant
            k <= n,
            used@.len() == k,
            forall|x: int| 0 <= x < k ==> !used@[x],
        decreases n - k,
    {
        used.push(false);
        k = k + 1;
    }
    let mut indices: Vec<usize> = Vec::new();
    let mut next_positional: usize = 0;
    let mut saw_named = false;
    let m = args.len();
    let mut i: usize = 0;
    while i < m
        invariant
            ps == names_view(params@),
            n == params@.len(),
            m == args@.len(),
            i <= m,
            used@.len() == n,
            indices@.len() == i,
            forall|x: int|
                0 <= x < n ==> used@[x] == claimed_before(ps, args@, i as int, x),
            forall|j: int|
                0 <= j < i ==> arg_slot(ps, args@, j) == Some(indices@[j] as int),
            saw_named == named_before(args@, i as int),
            !saw_named ==> next_positional == i,
            first_failure_from(ps, args@, 0) == first_failure_from(ps, args@, i as int),
        decreases m - i,
    {
        let arg = &args[i];
        if let Some(name) = &arg.name {
            assert(is_named(args@, i as int));
            let param_index = match position_of(params, name.as_str()) {
                Some(p) => p,
                None => {
                    assert(arg_fails(ps, args@, i as int));
                    return Err(UdfArgError::UnknownName { name: name.clone(), span: arg.span });
                },
            };
            proof {
                crate::signatures::lemma_first_index_of_bounds(ps, name@);
            }
            if used[param_index] {
                assert(arg_fails(ps, args@, i as int));
                return Err(UdfArgError::Duplicate { name: name.clone(), span: arg.span });
            }
            assert(!arg_fails(ps, args@, i as int));
            saw_named = true;
            used.set(param_index, true);
            indices.push(param_index);
            assert(arg_slot(ps, args@, i as int) == Some(param_index as int));
        } else {
            assert(!is_named(args@, i as int));
            if saw_named {
                assert(arg_fails(ps, args@, i as int));
                return Err(UdfArgError::PositionalAfterNamed { span: arg.span });
            }
            if next_positional >= n {
                assert(arg_fails(ps, args@, i as int));
                return Err(UdfArgError::TooMany { span: arg.span });
            }
            assert(!claimed_before(ps, args@, i as int, i as int));
            assert(!arg_fails(ps, args@, i as int));
            used.set(next_positional, true);
            indices.push(next_positional);
            next_positional = next_positional + 1;
        }
        proof {
            assert forall|x: int| 0 <= x < n implies used@[x] == claimed_before(
                ps,
                args@,
                i + 1,
                x,
            ) by {
                if claimed_before(ps, args@, i as int, x) {
                    let w = choose|w: int|
                        0 <= w < i && #[trigger] arg_slot(ps, args@, w) == Some(x);
                    assert(0 <= w < i + 1 && arg_slot(ps, args@, w) == Some(x));
                }
                if arg_slot(ps, args@, i as int) == Some(x) {
                    assert(0 <= i < i + 1 && arg_slot(ps, args@, i as int) == Some(x));
                }
            }
            if saw_named {
                assert(is_named(args@, i as int) || named_before(args@, i as int));
                if is_named(args@, i as int) {
                    assert(0 <= i < i + 1 && is_named(args@, i as int));
                }
            } else {
                assert forall|w: int| 0 <= w < i + 1 implies !#[trigger] is_named(args@, w) by {}
            }
        }
        i = i + 1;
    }
    assert(first_failure_from(ps, args@, 0) is None);
    let mut q: usize = 0;
    while q < n
        invariant
            ps == names_view(params@),
            n == params@.len(),
            m == args@.len(),
            q <= n,
            used@.len() == n,
            forall|x: int|
                0 <= x < n ==> used@[x] == claimed_before(ps, args@, m as int, x),
            forall|x: int| 0 <= x < q ==> used@[x],
            first_failure_from(ps, args@, 0) is None,
            first_unclaimed_from(ps, args@, 0) == first_unclaimed_from(ps, args@, q as int),
        decreases n - q,
    {
        if !used[q] {
            return Err(UdfArgError::Missing { param: params[q].clone() });
        }
        q = q + 1;
    }
    assert(usizes_view(indices@) =~= Seq::new(
        args@.len(),
        |j: int| arg_slot(ps, args@, j).unwrap(),
    ));
    Ok(indices)
}

pub proof fn lemma_no_failure_from(params: Seq<Seq<char>>, args: Seq<CallArg>, i: int)
    requires
        0 <= i,
        first_failure_from(params, args, i) is None,
    ensures
        forall|j: int| i <= j < args.len() ==> !arg_fails(params, args, j),
    decreases args.len() - i,
{
    if i < args.len() {
        lemma_no_failure_from(params, args, i + 1);
    }
}

pub proof fn lemma_all_claimed_from(params: Seq<Seq<char>>, args: Seq<CallArg>, k: int)
    requires
        0 <= k,
        first_unclaimed_from(params, args, k) is None,
    ensures
        forall|x: int|
            k <= x < params.len() ==> claimed_before(params, args, args.len() as int, x),
    decreases params.len() - k,
{
    if k < params.len() {
        lemma_all_claimed_from(params, args, k + 1);
    }
}

/// When the arguments of a user-defined function call bind, every parameter
/// is bound by exactly one argument: the indices are a permutation of the
/// parameter positions, positional arguments keep their position, and a named
/// argument binds the first parameter of that name.
pub proof fn lemma_bound_udf_args_are_a_permutation(params: Seq<Seq<char>>, args: Seq<CallArg>)
    requires
        spec_resolve_udf_arg_indices(params, args) is Ok,
    ensures
        ({
            let ix = spec_resolve_udf_arg_indices(params, args)->Ok_0;
            &&& ix.len() == args.len()
            &&& args.len() == params.len()
            &&& forall|j: int| 0 <= j < ix.len() ==> 0 <= #[trigger] ix[j] < params.len()
            &&& forall|j1: int, j2: int|
                0 <= j1 < j2 < ix.len() ==> #[trigger] ix[j1] != #[trigger] ix[j2]
            &&& forall|k: int| 0 <= k < params.len() ==> #[trigger] ix.contains(k)
            &&& forall|j: int|
                0 <= j < ix.len() ==> (if is_named(args, j) {
                    first_index_of(params, name_of(args, j)) == Some(#[trigger] ix[j])
                } else {
                    ix[j] == j
                })
        }),
{
    let ix = spec_resolve_udf_arg_indices(params, args)->Ok_0;
    lemma_no_failure_from(params, args, 0);
    lemma_all_claimed_from(params, args, 0);
    assert forall|j: int| 0 <= j < ix.len() implies arg_slot(params, args, j) == Some(
        #[trigger] ix[j],
    ) by {
        assert(!arg_fails(params, args, j));
    }
    assert forall|j: int| 0 <= j < ix.len() implies 0 <= #[trigger] ix[j] < params.len() by {
        assert(!arg_fails(params, args, j));
        if is_named(args, j) {
            crate::signatures::lemma_first_index_of_bounds(params, name_of(args, j));
        }
    }
    assert forall|j1: int, j2: int| 0 <= j1 < j2 < ix.len() implies #[trigger] ix[j1]
        != #[trigger] ix[j2] by {
        assert(!arg_fails(params, args, j2));
        if ix[j1] == ix[j2] {
            assert(arg_slot(params, args, j1) == Some(ix[j1]));
            if is_named(args, j2) {
                assert(claimed_before(params, args, j2, ix[j2]));
            } else {
                if is_named(args, j1) {
                    assert(named_before(args, j2));
                } else {
                    assert(ix[j1] == j1);
                }
            }
        }
    }
    assert forall|k: int| 0 <= k < params.len() implies #[trigger] ix.contains(k) by {
        assert(claimed_before(params, args, args.len() as int, k));
        let w = choose|w: int|
            0 <= w < args.len() && #[trigger] arg_slot(params, args, w) == Some(k);
        assert(ix[w] == k);
        assert(ix.contains(k));
    }
    assert(ix.no_duplicates());
    ix.unique_seq_to_set();
    vstd::set_lib::lemma_int_range(0, params.len() as int);
    assert(ix.to_set() =~= vstd::set_lib::set_int_range(0, params.len() as int)) by {
        assert forall|x: int| ix.to_set().contains(x) implies vstd::set_lib::set_int_range(
            0,
            params.len() as int,
        ).contains(x) by {
            let j = choose|j: int| 0 <= j < ix.len() && ix[j] == x;
            assert(0 <= ix[j] < params.len());
        }
        assert forall|x: int| vstd::set_lib::set_int_range(0, params.len() as int).contains(
            x,
        ) implies ix.to_set().contains(x) by {
            assert(ix.contains(x));
        }
    }
}

/// The diagnostic a call of the user-defined function `function_name` with
/// `got` arguments for `expected` parameters gets for `error`.
pub open spec fn spec_udf_arg_error_diag(
    function_name: Seq<char>,
    call_span: Span,
    expected: nat,
    got: nat,
    error: UdfArgErrorView,
) -> DiagView {
    match error {
        UdfArgErrorView::UnknownName { name, span } => error_view(
            "E_FUNCTION_ARG_NAME"@,
            "`"@ + function_name + "` has no argument named `"@ + name + "`"@,
            span,
        ),
        UdfArgErrorView::Duplicate { name, span } => error_view(
            "E_FUNCTION_ARG_DUPLICATE"@,
            "`"@ + function_name + "` argument `"@ + name + "` is provided more than once"@,
            span,
        ),
        UdfArgErrorView::PositionalAfterNamed { span } => error_view(
            "E_FUNCTION_ARG_ORDER"@,
            "positional arguments cannot follow named arguments in user-defined function calls"@,
            span,
        ),
        UdfArgErrorView::TooMany { span } => error_view(
            "E_FUNCTION_ARITY"@,
            "`"@ + function_name + "` expects "@ + spec_decimal(expected) + " argument(s), got "@
                + spec_decimal(got),
            span,
        ),
        UdfArgErrorView::Missing { param } => error_view(
            "E_FUNCTION_ARITY"@,
            "`"@ + function_name + "` is missing argument `"@ + param + "`"@,
            call_span,
        ),
    }
}

/// Reports a failed binding of user-defined function arguments.
pub fn report_udf_arg_error(
    function_name: &str,
    call_span: Span,
    expected: usize,
    got: usize,
    error: UdfArgError,
    diagnostics: &mut Vec<Diagnostic>,
)
    ensures
        diags_view(final(diagnostics)@) == diags_view(old(diagnostics)@) + seq![
            spec_udf_arg_error_diag(
                function_name@,
                call_span,
                expected as nat,
                got as nat,
                error.view(),
            ),
        ],
{
    match error {
        UdfArgError::UnknownName { name, span } => {
            let s = String::from_str("`");
            let s = s.concat(function_name);
            let s = s.concat("` has no argument named `");
            let s = s.concat(name.as_str());
            let s = s.concat("`");
            push_error(diagnostics, "E_FUNCTION_ARG_NAME", s, span);
        },
        UdfArgError::Duplicate { name, span } => {
            let s = String::from_str("`");
            let s = s.concat(function_name);
            let s = s.concat("` argument `");
            let s = s.concat(name.as_str());
            let s = s.concat("` is provided more than once");
            push_error(diagnostics, "E_FUNCTION_ARG_DUPLICATE", s, span);
        },
        UdfArgError::PositionalAfterNamed { span } => {
            push_error(
                diagnostics,
                "E_FUNCTION_ARG_ORDER",
                String::from_str(
                    "positional arguments cannot follow named arguments in user-defined function calls",
                ),
                span,
            );
        },
        UdfArgError::TooMany { span } => {
            let s = String::from_str("`");
            let s = s.concat(function_name);
            let s = s.concat("` expects ");
            let s = s.concat(decimal(expected).as_str());
            let s = s.concat(" argument(s), got ");
            let s = s.concat(decimal(got).as_str());
            push_error(diagnostics, "E_FUNCTION_ARITY", s, span);
        },
        UdfArgError::Missing { param } => {
            let s = String::from_str("`");
            let s = s.concat(function_name);
            let s = s.concat("` is missing argument `");
            let s = s.concat(param.as_str());
            let s = s.concat("`");
            push_error(diagnostics, "E_FUNCTION_ARITY", s, call_span);
        },
    }
}

/// How many user-defined function calls may be active at once.
pub const MAX_FUNCTION_CALL_DEPTH: usize = 64;

pub open spec fn side_effect_arg_reason() -> Seq<char> {
    "side-effecting calls cannot be passed as user-defined function arguments"@
}

/// The arguments that carry an output, declaration or mutation call, each
/// refused at its span.
pub open spec fn spec_side_effect_arg_refusals(args: Seq<CallArg>, i: int) -> Seq<UnsupportedView>
    decreases i,
{
    if i <= 0 {
        Seq::empty()
    } else {
        spec_side_effect_arg_refusals(args, i - 1) + if spec_expr_contains_output_call(args[i - 1].value) {
            seq![("function_side_effect"@, side_effect_arg_reason(), args[i - 1].span)]
        } else {
            Seq::<UnsupportedView>::empty()
        }
    }
}

/// What a call of user-defined function `name` comes to before its body is
/// analyzed: refused as recursive when `name` is active, or as too deep when
/// `function_stack` is full; else its side-effecting arguments are refused
/// and its arguments bound to `params`, which either fails with an argument
/// error or gives each argument's parameter.
pub enum UdfCallPlan {
    Recursive,
    TooDeep,
    Bound(Result<Seq<int>, UdfArgErrorView>),
}

pub open spec fn spec_udf_call_plan(name: Seq<char>, params: Seq<Seq<char>>, args: Seq<CallArg>, stack: Seq<Seq<char>>) -> UdfCallPlan {
    if stack.contains(name) {
        UdfCallPlan::Recursive
    } else if stack.len() >= MAX_FUNCTION_CALL_DEPTH {
        UdfCallPlan::TooDeep
    } else {
        UdfCallPlan::Bound(spec_resolve_udf_arg_indices(params, args))
    }
}

fn stack_contains(stack: &[String], name: &str) -> (r: bool)
    ensures
        r == names_view(stack@).contains(name@),
{
    let n = stack.len();
    let mut i: usize = 0;
    while i < n
        invariant
            n == stack@.len(),
            i <= n,
            forall|k: int| 0 <= k < i ==> (#[trigger] stack@[k])@ != name@,
        decreases n - i,
    {
        if str_eq(stack[i].as_str(), name) {
            assert(names_view(stack@)[i as int] == name@);
            return true;
        }
        i = i + 1;
    }
    assert(!names_view(stack@).contains(name@)) by {
        if names_view(stack@).contains(name@) {
            let k = choose|k: int| 0 <= k < names_view(stack@).len() && names_view(stack@)[k] == name@;
            assert(stack@[k]@ == name@);
        }
    }
    false
}

/// Checks a call of user-defined function `name` (declared at
/// `function_span` with `params`) at `span`, where `function_stack` holds
/// the functions being analyzed: gives the parameter each argument binds to
/// where the call may go on (see `spec_udf_call_plan`), recording the
/// function as a supported feature then, and reports what stops it.
pub fn prepare_udf_call(
    name: &str,
    span: Span,
    function_span: Span,
    params: &[String],
    args: &[CallArg],
    function_stack: &[String],
    supported: &mut Vec<FeatureUse>,
    report: &mut Vec<UnsupportedFeature>,
    diagnostics: &mut Vec<Diagnostic>,
) -> (r: Option<Vec<usize>>)
    ensures
        ({
            let plan = spec_udf_call_plan(name@, names_view(params@), args@, names_view(function_stack@));
            let refusals = spec_side_effect_arg_refusals(args@, args@.len() as int);
            match plan {
                UdfCallPlan::Recursive => {
                    &&& r is None
                    &&& diags_view(final(diagnostics)@) == diags_view(old(diagnostics)@) + seq![
                        error_view("E_RECURSIVE_FUNCTION"@, "recursive function `"@ + name@ + "` is not supported"@, span),
                    ]
                    &&& unsupported_view(final(report)@) == unsupported_view(old(report)@)
                    &&& final(supported)@ == old(supported)@
                },
                UdfCallPlan::TooDeep => {
                    &&& r is None
                    &&& diags_view(final(diagnostics)@) == diags_view(old(diagnostics)@) + seq![
                        error_view("E_FUNCTION_CALL_DEPTH"@, "user-defined function call chain is too deep"@, span),
                    ]
                    &&& unsupported_view(final(report)@) == unsupported_view(old(report)@)
                    &&& final(supported)@ == old(supported)@
                },
                UdfCallPlan::Bound(Err(e)) => {
                    &&& r is None
                    &&& unsupported_view(final(report)@) == unsupported_view(old(report)@) + refusals
                    &&& diags_view(final(diagnostics)@) == diags_view(old(diagnostics)@) + refusals.map_values(
                        |u: UnsupportedView| unsupported_diag(u.0, u.1, u.2),
                    ) + seq![spec_udf_arg_error_diag(name@, span, params@.len(), args@.len(), e)]
                    &&& final(supported)@ == old(supported)@
                },
                UdfCallPlan::Bound(Ok(indices)) => {
                    &&& r matches Some(v) && usizes_view(v@) == indices
                    &&& unsupported_view(final(report)@) == unsupported_view(old(report)@) + refusals
                    &&& diags_view(final(diagnostics)@) == diags_view(old(diagnostics)@) + refusals.map_values(
                        |u: UnsupportedView| unsupported_diag(u.0, u.1, u.2),
                    )
                    &&& feature_uses_view(final(supported)@) == feature_uses_view(old(supported)@) + seq![
                        ("function"@, function_span),
                    ]
                },
            }
        }),
{
    let ghost r0 = unsupported_view(report@);
    let ghost d0 = diags_view(diagnostics@);
    if stack_contains(function_stack, name) {
        let s = String::from_str("recursive function `");
        let s = s.concat(name);
        let s = s.concat("` is not supported");
        push_error(diagnostics, "E_RECURSIVE_FUNCTION", s, span);
        return None;
    }
    if function_stack.len() >= MAX_FUNCTION_CALL_DEPTH {
        push_error(
            diagnostics,
            "E_FUNCTION_CALL_DEPTH",
            String::from_str("user-defined function call chain is too deep"),
            span,
        );
        return None;
    }
    let n = args.len();
    let mut i: usize = 0;
    while i < n
        invariant
            n == args@.len(),
            i <= n,
            r0 == unsupported_view(old(report)@),
            d0 == diags_view(old(diagnostics)@),
            unsupported_view(report@) == r0 + spec_side_effect_arg_refusals(args@, i as int),
            diags_view(diagnostics@) == d0 + spec_side_effect_arg_refusals(args@, i as int).map_values(
                |u: UnsupportedView| unsupported_diag(u.0, u.1, u.2),
            ),
        decreases n - i,
    {
        let ghost before = spec_side_effect_arg_refusals(args@, i as int);
        if contains_output_or_declaration_call(&args[i].value) {
            unsupported(
                "function_side_effect",
                "side-effecting calls cannot be passed as user-defined function arguments",
                args[i].span,
                report,
                diagnostics,
            );
        }
        proof {
            let after = spec_side_effect_arg_refusals(args@, i + 1);
            assert(after.map_values(|u: UnsupportedView| unsupported_diag(u.0, u.1, u.2)) =~= before.map_values(
                |u: UnsupportedView| unsupported_diag(u.0, u.1, u.2),
            ) + (after.skip(before.len() as int)).map_values(|u: UnsupportedView| unsupported_diag(u.0, u.1, u.2)));
            assert(unsupported_view(report@) =~= r0 + after);
            assert(diags_view(diagnostics@) =~= d0 + after.map_values(
                |u: UnsupportedView| unsupported_diag(u.0, u.1, u.2),
            ));
        }
        i = i + 1;
    }
    match resolve_udf_arg_indices(params, args) {
        Ok(indices) => {
            push_feature_use(supported, "function", function_span);
            Some(indices)
        },
        Err(error) => {
            report_udf_arg_error(name, span, params.len(), args.len(), error, diagnostics);
            None
        },
    }
}

} // verus!
