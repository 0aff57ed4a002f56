//! The generic checks of a builtin call: how many arguments it takes, which
//! parameter each argument binds to, and whether that parameter takes the
//! argument's type.
use vstd::prelude::*;
use vstd::string::*;

use crate::accepts::{accepts_type, spec_accepts_type, Accepts};
use crate::builtin_names::{
    is_ta_extreme_length_overload, is_ta_pivot_default_source_overload,
    spec_is_ta_extreme_length_overload, spec_is_ta_pivot_default_source_overload,
};
use crate::calls::{binding_defined, call_arg_accepts_type, spec_call_arg_accepts_type};
use crate::signatures::{
    first_index_of, lemma_first_index_of_bounds, param_names, param_position, BuiltinParam,
    BuiltinSignature,
};
use crate::strings::{decimal, opt_string_view, spec_decimal, str_eq};
use crate::syntax::{
    concat_diags, diags_view, error_view, first_arg_span, first_span, push_error, CallArg, DiagView,
    Diagnostic, Span,
};
use crate::types::{spec_type_debug_label, type_debug_label, PineType, ValueKind};

verus! {

/// The parameter an argument resolves to: a named argument by its name, a
/// positional one by its index, and extra positional arguments of a variadic
/// builtin to its last parameter.
pub open spec fn spec_resolve_param(
    params: Seq<BuiltinParam>,
    variadic: bool,
    index: int,
    name: Option<Seq<char>>,
) -> Option<int> {
    match name {
        Some(n) => first_index_of(param_names(params), n),
        None => if 0 <= index < params.len() {
            Some(index)
        } else if variadic && params.len() > 0 {
            Some(params.len() - 1)
        } else {
            None
        },
    }
}

pub open spec fn no_such_argument_message(function_name: Seq<char>, name: Seq<char>) -> Seq<char> {
    "`"@ + function_name + "` has no argument named `"@ + name + "`"@
}

/// What resolving an argument reports: a name no parameter has.
pub open spec fn spec_resolve_param_diags(
    function_name: Seq<char>,
    params: Seq<BuiltinParam>,
    name: Option<Seq<char>>,
    span: Span,
) -> Seq<DiagView> {
    match name {
        Some(n) => if first_index_of(param_names(params), n) is None {
            seq![error_view("E_CALL_ARG_NAME"@, no_such_argument_message(function_name, n), span)]
        } else {
            Seq::empty()
        },
        None => Seq::empty(),
    }
}

/// Resolves the parameter argument `index` binds to, reporting a name that
/// no parameter has.
pub fn resolve_param<'a>(
    signature: &'a BuiltinSignature,
    index: usize,
    arg: &CallArg,
    diagnostics: &mut Vec<Diagnostic>,
) -> (r: Option<&'a BuiltinParam>)
    ensures
        match spec_resolve_param(
            signature.params@,
            signature.variadic,
            index as int,
            opt_string_view(arg.name),
        ) {
            Some(k) => 0 <= k < signature.params@.len() && r == Some(&signature.params@[k]),
            None => r is None,
        },
        diags_view(final(diagnostics)@) == diags_view(old(diagnostics)@) + spec_resolve_param_diags(
            signature.name@,
            signature.params@,
            opt_string_view(arg.name),
            arg.span,
        ),
{
    let ghost start = diags_view(diagnostics@);
    if let Some(name) = &arg.name {
        proof {
            lemma_first_index_of_bounds(param_names(signature.params@), name@);
        }
        match param_position(&signature.params, name.as_str()) {
            Some(k) => {
                assert(diags_view(diagnostics@) =~= start + Seq::<DiagView>::empty());
                Some(&signature.params[k])
            },
            None => {
                let s = String::from_str("`");
                let s = s.concat(signature.name);
                let s = s.concat("` has no argument named `");
                let s = s.concat(name.as_str());
                let s = s.concat("`");
                push_error(diagnostics, "E_CALL_ARG_NAME", s, arg.span);
                None
            },
        }
    } else {
        assert(diags_view(diagnostics@) =~= start + Seq::<DiagView>::empty());
        if index < signature.params.len() {
            Some(&signature.params[index])
        } else if signature.variadic && signature.params.len() > 0 {
            Some(&signature.params[signature.params.len() - 1])
        } else {
            None
        }
    }
}

/// How many parameters of a builtin must be given.
pub open spec fn spec_signature_required_count(params: Seq<BuiltinParam>) -> nat
    decreases params.len(),
{
    if params.len() == 0 {
        0
    } else {
        spec_signature_required_count(params.drop_last()) + if params.last().optional {
            0nat
        } else {
            1nat
        }
    }
}

fn signature_required_count(params: &Vec<BuiltinParam>) -> (r: usize)
    ensures
        r == spec_signature_required_count(params@),
{
    let n = params.len();
    let mut count: usize = 0;
    let mut i: usize = 0;
    while i < n
        invariant
            n == params@.len(),
            i <= n,
            count == spec_signature_required_count(params@.take(i as int)),
            count <= i,
        decreases n - i,
    {
        assert(params@.take((i + 1) as int).drop_last() =~= params@.take(i as int));
        if !params[i].optional {
            count = count + 1;
        }
        i = i + 1;
    }
    assert(params@.take(n as int) =~= params@);
    count
}

pub open spec fn type_at(arg_types: Seq<Option<PineType>>, i: int) -> Option<PineType> {
    if 0 <= i < arg_types.len() {
        arg_types[i]
    } else {
        None
    }
}

pub open spec fn does_not_accept_debug_message(
    function_name: Seq<char>,
    param_name: Seq<char>,
    t: PineType,
) -> Seq<char> {
    "`"@ + function_name + "` argument `"@ + param_name + "` does not accept "@
        + spec_type_debug_label(t)
}

/// The single-argument overload of the extreme-value builtins (`ta.highest`
/// and kin) takes just a simple int `length`.
pub open spec fn single_extreme_length(signature: BuiltinSignature, args: Seq<CallArg>) -> bool {
    spec_is_ta_extreme_length_overload(signature.name@) && args.len() == 1
}

/// The two-argument overload of the pivot builtins takes simple int
/// `leftbars` and `rightbars` over a default source.
pub open spec fn pivot_default_source(signature: BuiltinSignature, args: Seq<CallArg>) -> bool {
    spec_is_ta_pivot_default_source_overload(signature.name@) && args.len() == 2
}

/// What a special overload reports of an argument named `expected`'s slot:
/// a different name, or a type that is no simple int.
pub open spec fn overload_slot_diags(
    function_name: Seq<char>,
    overload: Seq<char>,
    expected: Seq<char>,
    arg: CallArg,
    t: Option<PineType>,
) -> Seq<DiagView> {
    match arg.name {
        Some(n) if n@ != expected => seq![
            error_view(
                "E_CALL_ARG_NAME"@,
                "`"@ + function_name + "` "@ + overload + " overload has no argument named `"@ + n@
                    + "`"@,
                arg.span,
            ),
        ],
        _ => match t {
            Some(t) => if !spec_accepts_type(Accepts::SimpleInt, t) {
                seq![
                    error_view(
                        "E_CALL_ARG_TYPE"@,
                        does_not_accept_debug_message(function_name, expected, t),
                        arg.span,
                    ),
                ]
            } else {
                Seq::empty()
            },
            None => Seq::empty(),
        },
    }
}

/// What argument `i` of a call reports.
pub open spec fn spec_call_arg_diags(
    signature: BuiltinSignature,
    args: Seq<CallArg>,
    arg_types: Seq<Option<PineType>>,
    i: int,
) -> Seq<DiagView> {
    let name = signature.name@;
    if pivot_default_source(signature, args) {
        overload_slot_diags(
            name,
            "two-argument"@,
            if i == 0 {
                "leftbars"@
            } else {
                "rightbars"@
            },
            args[i],
            type_at(arg_types, i),
        )
    } else if single_extreme_length(signature, args) && i == 0 {
        overload_slot_diags(name, "single-argument"@, "length"@, args[i], type_at(arg_types, 0))
    } else {
        let params = signature.params@;
        spec_resolve_param_diags(name, params, opt_string_view(args[i].name), args[i].span)
            + match spec_resolve_param(params, signature.variadic, i, opt_string_view(args[i].name)) {
            Some(k) => match type_at(arg_types, i) {
                Some(t) => if name == "array.join"@ && params[k].name@ == "id"@ && t.kind
                    == ValueKind::UserTypeArray {
                    Seq::empty()
                } else if !spec_call_arg_accepts_type(signature, args, arg_types, params[k].accepts, t) {
                    seq![
                        error_view(
                            "E_CALL_ARG_TYPE"@,
                            does_not_accept_debug_message(name, params[k].name@, t),
                            args[i].span,
                        ),
                    ]
                } else {
                    Seq::empty()
                },
                None => Seq::empty(),
            },
            None => Seq::empty(),
        }
    }
}

/// Whether a call has too few arguments to check further.
pub open spec fn spec_call_has_too_few_args(signature: BuiltinSignature, args: Seq<CallArg>) -> bool {
    args.len() < spec_signature_required_count(signature.params@) && !single_extreme_length(
        signature,
        args,
    ) && !pivot_default_source(signature, args)
}

/// What checking the arity of a call and each of its arguments reports.
pub open spec fn spec_call_arity_and_type_diags(
    signature: BuiltinSignature,
    args: Seq<CallArg>,
    arg_types: Seq<Option<PineType>>,
) -> Seq<DiagView> {
    let name = signature.name@;
    let params = signature.params@;
    let required = spec_signature_required_count(params);
    if args.len() < required && !single_extreme_length(signature, args) && !pivot_default_source(
        signature,
        args,
    ) {
        seq![
            error_view(
                "E_CALL_ARITY"@,
                "`"@ + name + "` expects at least "@ + spec_decimal(required) + " argument(s), got "@
                    + spec_decimal(args.len()),
                first_span(args),
            ),
        ]
    } else {
        (if !signature.variadic && args.len() > params.len() {
            seq![
                error_view(
                    "E_CALL_ARITY"@,
                    "`"@ + name + "` expects at most "@ + spec_decimal(params.len())
                        + " argument(s), got "@ + spec_decimal(args.len()),
                    args[params.len() as int].span,
                ),
            ]
        } else {
            Seq::empty()
        }) + concat_diags(
            args.len() as int,
            |i: int| spec_call_arg_diags(signature, args, arg_types, i),
        )
    }
}

fn overload_slot_check(
    function_name: &str,
    overload: &str,
    expected: &str,
    arg: &CallArg,
    t: Option<PineType>,
    diagnostics: &mut Vec<Diagnostic>,
)
    ensures
        diags_view(final(diagnostics)@) == diags_view(old(diagnostics)@) + overload_slot_diags(
            function_name@,
            overload@,
            expected@,
            *arg,
            t,
        ),
{
    let ghost start = diags_view(diagnostics@);
    if let Some(name) = &arg.name {
        if !str_eq(name.as_str(), expected) {
            let s = String::from_str("`");
            let s = s.concat(function_name);
            let s = s.concat("` ");
            let s = s.concat(overload);
            let s = s.concat(" overload has no argument named `");
            let s = s.concat(name.as_str());
            let s = s.concat("`");
            push_error(diagnostics, "E_CALL_ARG_NAME", s, arg.span);
            return ;
        }
    }
    if let Some(t) = t {
        if !accepts_type(Accepts::SimpleInt, t) {
            let s = String::from_str("`");
            let s = s.concat(function_name);
            let s = s.concat("` argument `");
            let s = s.concat(expected);
            let s = s.concat("` does not accept ");
            let s = s.concat(type_debug_label(t).as_str());
            push_error(diagnostics, "E_CALL_ARG_TYPE", s, arg.span);
            return ;
        }
    }
    assert(diags_view(diagnostics@) =~= start + overload_slot_diags(
        function_name@,
        overload@,
        expected@,
        *arg,
        t,
    ));
}

fn type_at_index(arg_types: &[Option<PineType>], i: usize) -> (r: Option<PineType>)
    ensures
        r == type_at(arg_types@, i as int),
{
    if i < arg_types.len() {
        arg_types[i]
    } else {
        None
    }
}

fn check_call_arg(
    signature: &BuiltinSignature,
    args: &[CallArg],
    arg_types: &[Option<PineType>],
    index: usize,
    pivot: bool,
    extreme: bool,
    diagnostics: &mut Vec<Diagnostic>,
)
    requires
        index < args@.len(),
        pivot == pivot_default_source(*signature, args@),
        extreme == single_extreme_length(*signature, args@),
    ensures
        diags_view(final(diagnostics)@) == diags_view(old(diagnostics)@) + spec_call_arg_diags(
            *signature,
            args@,
            arg_types@,
            index as int,
        ),
{
    let ghost start = diags_view(diagnostics@);
    let arg = &args[index];
    if pivot {
        let expected = if index == 0 {
            "leftbars"
        } else {
            "rightbars"
        };
        overload_slot_check(
            signature.name,
            "two-argument",
            expected,
            arg,
            type_at_index(arg_types, index),
            diagnostics,
        );
        return ;
    }
    if extreme && index == 0 {
        overload_slot_check(
            signature.name,
            "single-argument",
            "length",
            arg,
            type_at_index(arg_types, 0),
            diagnostics,
        );
        return ;
    }
    let param = resolve_param(signature, index, arg, diagnostics);
    let ghost resolved = diags_view(diagnostics@);
    if let Some(param) = param {
        if let Some(arg_type) = type_at_index(arg_types, index) {
            let skip = str_eq(signature.name, "array.join") && str_eq(param.name, "id")
                && arg_type.kind == ValueKind::UserTypeArray;
            if !skip {
                assert(binding_defined(*signature, args@));
                if !call_arg_accepts_type(signature, args, arg_types, param.accepts, arg_type) {
                    let s = String::from_str("`");
                    let s = s.concat(signature.name);
                    let s = s.concat("` argument `");
                    let s = s.concat(param.name);
                    let s = s.concat("` does not accept ");
                    let s = s.concat(type_debug_label(arg_type).as_str());
                    push_error(diagnostics, "E_CALL_ARG_TYPE", s, arg.span);
                }
            }
        }
    }
    assert(diags_view(diagnostics@) =~= start + spec_call_arg_diags(
        *signature,
        args@,
        arg_types@,
        index as int,
    ));
}

/// Checks the arity of a builtin call and the type of each argument against
/// the parameter it binds to.
pub fn validate_call_arity_and_types(
    signature: &BuiltinSignature,
    args: &[CallArg],
    arg_types: &[Option<PineType>],
    diagnostics: &mut Vec<Diagnostic>,
) -> (r: bool)
    ensures
        r == !spec_call_has_too_few_args(*signature, args@),
        diags_view(final(diagnostics)@) == diags_view(old(diagnostics)@)
            + spec_call_arity_and_type_diags(*signature, args@, arg_types@),
{
    let ghost start = diags_view(diagnostics@);
    let required = signature_required_count(&signature.params);
    let extreme = is_ta_extreme_length_overload(signature.name) && args.len() == 1;
    let pivot = is_ta_pivot_default_source_overload(signature.name) && args.len() == 2;
    if args.len() < required && !extreme && !pivot {
        let s = String::from_str("`");
        let s = s.concat(signature.name);
        let s = s.concat("` expects at least ");
        let s = s.concat(decimal(required).as_str());
        let s = s.concat(" argument(s), got ");
        let s = s.concat(decimal(args.len()).as_str());
        push_error(diagnostics, "E_CALL_ARITY", s, first_arg_span(args));
        return false;
    }
    if !signature.variadic && args.len() > signature.params.len() {
        let s = String::from_str("`");
        let s = s.concat(signature.name);
        let s = s.concat("` expects at most ");
        let s = s.concat(decimal(signature.params.len()).as_str());
        let s = s.concat(" argument(s), got ");
        let s = s.concat(decimal(args.len()).as_str());
        push_error(diagnostics, "E_CALL_ARITY", s, args[signature.params.len()].span);
    }
    let ghost after_arity = diags_view(diagnostics@);
    let ghost f = |i: int| spec_call_arg_diags(*signature, args@, arg_types@, i);
    let n = args.len();
    let mut index: usize = 0;
    while index < n
        invariant
            n == args@.len(),
            index <= n,
            pivot == pivot_default_source(*signature, args@),
            extreme == single_extreme_length(*signature, args@),
            f == (|i: int| spec_call_arg_diags(*signature, args@, arg_types@, i)),
            diags_view(diagnostics@) == after_arity + concat_diags(index as int, f),
        decreases n - index,
    {
        check_call_arg(signature, args, arg_types, index, pivot, extreme, diagnostics);
        index = index + 1;
    }
    assert(diags_view(diagnostics@) =~= start + spec_call_arity_and_type_diags(
        *signature,
        args@,
        arg_types@,
    ));
    true
}

} // verus!
