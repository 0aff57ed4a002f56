//! The argument checks of `array.*` builtins: element values, concatenated
//! arrays, `array.from` element kinds and user-defined type arrays.
use vstd::prelude::*;
use vstd::string::*;

use crate::arrays::{
    array_element_expected_label, array_from_actual_arg_labels, array_from_user_type_inference_message,
    spec_array_element_expected_label, spec_array_from_actual_arg_labels,
    spec_array_from_user_type_inference_message,
};
use crate::call_helpers::{call_arg_expected_type_diagnostic, spec_expects_message};
use crate::call_checks::type_at;
use crate::signatures::BuiltinSignature;
use crate::strings::{spec_starts_with, starts_with, str_eq};
use crate::syntax::{diags_view, error_view, first_arg_span, first_span, push_diagnostic, push_error, CallArg, DiagView, Diagnostic, Span};
use crate::types::{
    matrix_element_kind, pine_type_name, spec_array_element_kind, spec_is_array_kind,
    spec_matrix_element_kind, spec_pine_type_name,
    spec_type_debug_label, type_debug_label, PineType, ValueKind,
};
use crate::user_types::{InferenceView, UserTypeArrayElementInference};

verus! {

/// The span of argument `i`, or the empty span when there is none.
pub open spec fn span_at(args: Seq<CallArg>, i: int) -> Span {
    if 0 <= i < args.len() {
        args[i].span
    } else {
        Span { start: 0, end: 0 }
    }
}

fn arg_span(args: &[CallArg], i: usize) -> (r: Span)
    ensures
        r == span_at(args@, i as int),
{
    if i < args.len() {
        args[i].span
    } else {
        Span::new(0, 0)
    }
}

fn type_at_index(arg_types: &[Option<PineType>], i: usize) -> (r: Option<PineType>)
    ensures
        r == type_at(arg_types@, i as int),
{
    if i < arg_types.len() {
        arg_types[i]
    } else {
        None
    }
}

/// The position of the value argument of the `array.*` builtins that take one.
pub open spec fn spec_array_value_index(name: Seq<char>) -> Option<int> {
    if name == "array.push"@ || name == "array.unshift"@ || name == "array.fill"@ || name
        == "array.includes"@ || name == "array.indexof"@ || name == "array.lastindexof"@ || name
        == "array.binary_search"@ || name == "array.binary_search_leftmost"@ || name
        == "array.binary_search_rightmost"@ {
        Some(1)
    } else if name == "array.set"@ || name == "array.insert"@ {
        Some(2)
    } else {
        None
    }
}

fn array_value_index(name: &str) -> (r: Option<usize>)
    ensures
        match r {
            Some(i) => spec_array_value_index(name@) == Some(i as int),
            None => spec_array_value_index(name@) is None,
        },
{
    if str_eq(name, "array.push") || str_eq(name, "array.unshift") || str_eq(name, "array.fill")
        || str_eq(name, "array.includes") || str_eq(name, "array.indexof") || str_eq(
        name,
        "array.lastindexof",
    ) || str_eq(name, "array.binary_search") || str_eq(name, "array.binary_search_leftmost")
        || str_eq(name, "array.binary_search_rightmost") {
        Some(1)
    } else if str_eq(name, "array.set") || str_eq(name, "array.insert") {
        Some(2)
    } else {
        None
    }
}

/// What an element value of the wrong kind reports: a value fits an array
/// when it is `na`, of the element kind, or an int for a float array.
#[verifier::opaque]
pub open spec fn spec_array_value_args_diags(
    signature: BuiltinSignature,
    args: Seq<CallArg>,
    arg_types: Seq<Option<PineType>>,
) -> Seq<DiagView> {
    let name = signature.name@;
    match spec_array_value_index(name) {
        None => Seq::empty(),
        Some(vi) => match (type_at(arg_types, 0), type_at(arg_types, vi)) {
            (Some(array_type), Some(value_type)) => match spec_array_element_kind(array_type.kind) {
                Some(element) => if value_type.kind == ValueKind::Na || value_type.kind == element || (
                element == ValueKind::Float && value_type.kind == ValueKind::Int) {
                    Seq::empty()
                } else {
                    match spec_array_element_expected_label(element) {
                        Some(expected) => seq![
                            error_view(
                                "E_CALL_ARG_TYPE"@,
                                spec_expects_message(
                                    name,
                                    "value"@,
                                    expected,
                                    spec_pine_type_name(value_type),
                                ),
                                span_at(args, vi),
                            ),
                        ],
                        None => Seq::empty(),
                    }
                },
                None => Seq::empty(),
            },
            _ => Seq::empty(),
        },
    }
}

/// Checks that the value an `array.*` call stores or looks up fits the array.
pub fn validate_array_value_args(
    signature: &BuiltinSignature,
    args: &[CallArg],
    arg_types: &[Option<PineType>],
    diagnostics: &mut Vec<Diagnostic>,
)
    ensures
        diags_view(final(diagnostics)@) == diags_view(old(diagnostics)@)
            + spec_array_value_args_diags(*signature, args@, arg_types@),
{
    reveal(spec_array_value_args_diags);
    let ghost start = diags_view(diagnostics@);
    proof {
        assert(start =~= start + Seq::<DiagView>::empty());
    }
    let value_index = match array_value_index(signature.name) {
        Some(i) => i,
        None => return ,
    };
    let array_type = match type_at_index(arg_types, 0) {
        Some(t) => t,
        None => return ,
    };
    let value_type = match type_at_index(arg_types, value_index) {
        Some(t) => t,
        None => return ,
    };
    let element_kind = match array_type.kind.array_element_kind() {
        Some(k) => k,
        None => return ,
    };
    if value_type.kind == ValueKind::Na || value_type.kind == element_kind || (element_kind
        == ValueKind::Float && value_type.kind == ValueKind::Int) {
        return ;
    }
    let expected = match array_element_expected_label(element_kind) {
        Some(e) => e,
        None => return ,
    };
    push_diagnostic(
        diagnostics,
        call_arg_expected_type_diagnostic(
            signature.name,
            "value",
            expected,
            value_type,
            arg_span(args, value_index),
        ),
    );
}

/// What concatenating arrays of two different kinds reports.
#[verifier::opaque]
pub open spec fn spec_array_concat_args_diags(
    signature: BuiltinSignature,
    args: Seq<CallArg>,
    arg_types: Seq<Option<PineType>>,
) -> Seq<DiagView> {
    if signature.name@ != "array.concat"@ {
        Seq::empty()
    } else {
        match (type_at(arg_types, 0), type_at(arg_types, 1)) {
            (Some(first), Some(second)) => if !spec_is_array_kind(first.kind) || !spec_is_array_kind(
                second.kind,
            ) || first.kind == second.kind {
                Seq::empty()
            } else {
                seq![
                    error_view(
                        "E_CALL_ARG_TYPE"@,
                        spec_expects_message(
                            "array.concat"@,
                            "id2"@,
                            spec_pine_type_name(first),
                            spec_pine_type_name(second),
                        ),
                        span_at(args, 1),
                    ),
                ]
            },
            _ => Seq::empty(),
        }
    }
}

/// Checks that `array.concat` joins two arrays of the same kind.
pub fn validate_array_concat_args(
    signature: &BuiltinSignature,
    args: &[CallArg],
    arg_types: &[Option<PineType>],
    diagnostics: &mut Vec<Diagnostic>,
)
    ensures
        diags_view(final(diagnostics)@) == diags_view(old(diagnostics)@)
            + spec_array_concat_args_diags(*signature, args@, arg_types@),
{
    reveal(spec_array_concat_args_diags);
    let ghost start = diags_view(diagnostics@);
    proof {
        assert(start =~= start + Seq::<DiagView>::empty());
    }
    if !str_eq(signature.name, "array.concat") {
        return ;
    }
    let first = match type_at_index(arg_types, 0) {
        Some(t) => t,
        None => return ,
    };
    let second = match type_at_index(arg_types, 1) {
        Some(t) => t,
        None => return ,
    };
    if first.kind.array_element_kind().is_none() || second.kind.array_element_kind().is_none()
        || first.kind == second.kind {
        return ;
    }
    let expected = pine_type_name(first);
    push_diagnostic(
        diagnostics,
        call_arg_expected_type_diagnostic(
            "array.concat",
            "id2",
            expected.as_str(),
            second,
            arg_span(args, 1),
        ),
    );
}

/// The `array.*` builtins that take user-defined type arrays.
pub open spec fn spec_takes_user_type_arrays(name: Seq<char>) -> bool {
    name == "array.size"@ || name == "array.get"@ || name == "array.set"@ || name == "array.push"@
        || name == "array.insert"@ || name == "array.pop"@ || name == "array.remove"@ || name
        == "array.shift"@ || name == "array.unshift"@ || name == "array.first"@ || name
        == "array.last"@ || name == "array.fill"@ || name == "array.clear"@ || name == "array.copy"@
        || name == "array.concat"@ || name == "array.slice"@ || name == "array.reverse"@ || name
        == "array.join"@ || name == "array.includes"@ || name == "array.indexof"@ || name
        == "array.lastindexof"@
}

fn takes_user_type_arrays(name: &str) -> (r: bool)
    ensures
        r == spec_takes_user_type_arrays(name@),
{
    str_eq(name, "array.size") || str_eq(name, "array.get") || str_eq(name, "array.set") || str_eq(
        name,
        "array.push",
    ) || str_eq(name, "array.insert") || str_eq(name, "array.pop") || str_eq(name, "array.remove")
        || str_eq(name, "array.shift") || str_eq(name, "array.unshift") || str_eq(
        name,
        "array.first",
    ) || str_eq(name, "array.last") || str_eq(name, "array.fill") || str_eq(name, "array.clear")
        || str_eq(name, "array.copy") || str_eq(name, "array.concat") || str_eq(name, "array.slice")
        || str_eq(name, "array.reverse") || str_eq(name, "array.join") || str_eq(
        name,
        "array.includes",
    ) || str_eq(name, "array.indexof") || str_eq(name, "array.lastindexof")
}

pub open spec fn is_user_type_array_type(t: Option<PineType>) -> bool {
    t matches Some(t) && t.kind == ValueKind::UserTypeArray
}

/// The first argument typed as a user-defined type array.
pub open spec fn spec_first_user_type_array_from(ts: Seq<Option<PineType>>, i: int) -> Option<int>
    decreases ts.len() - i,
{
    if i < 0 || i >= ts.len() {
        None
    } else if is_user_type_array_type(ts[i]) {
        Some(i)
    } else {
        spec_first_user_type_array_from(ts, i + 1)
    }
}

pub open spec fn user_type_array_helper_message() -> Seq<char> {
    "`array.*` helper does not support UDT arrays except `array.size`, `array.get`, `array.set`, `array.push`, `array.insert`, `array.pop`, `array.remove`, `array.shift`, `array.unshift`, `array.first`, `array.last`, `array.fill`, `array.clear`, `array.copy`, `array.concat`, `array.slice`, `array.reverse`, `array.join`, `array.includes`, `array.indexof`, and `array.lastindexof`"@
}

/// What passing a user-defined type array to another `array.*` helper reports.
#[verifier::opaque]
pub open spec fn spec_user_type_array_helper_args_diags(
    signature: BuiltinSignature,
    args: Seq<CallArg>,
    arg_types: Seq<Option<PineType>>,
) -> Seq<DiagView> {
    let name = signature.name@;
    if !spec_starts_with(name, "array."@) || spec_takes_user_type_arrays(name) {
        Seq::empty()
    } else {
        match spec_first_user_type_array_from(arg_types, 0) {
            Some(i) => seq![
                error_view("E_CALL_ARG_TYPE"@, user_type_array_helper_message(), span_at(args, i)),
            ],
            None => Seq::empty(),
        }
    }
}

/// Refuses user-defined type arrays in the `array.*` helpers that do not take them.
pub fn validate_user_type_array_helper_args(
    signature: &BuiltinSignature,
    args: &[CallArg],
    arg_types: &[Option<PineType>],
    diagnostics: &mut Vec<Diagnostic>,
)
    ensures
        diags_view(final(diagnostics)@) == diags_view(old(diagnostics)@)
            + spec_user_type_array_helper_args_diags(*signature, args@, arg_types@),
{
    reveal(spec_user_type_array_helper_args_diags);
    let ghost start = diags_view(diagnostics@);
    proof {
        assert(start =~= start + Seq::<DiagView>::empty());
    }
    if !starts_with(signature.name, "array.") || takes_user_type_arrays(signature.name) {
        return ;
    }
    let n = arg_types.len();
    let mut i: usize = 0;
    while i < n
        invariant
            n == arg_types@.len(),
            i <= n,
            spec_first_user_type_array_from(arg_types@, 0) == spec_first_user_type_array_from(
                arg_types@,
                i as int,
            ),
            diagnostics@ == old(diagnostics)@,
            spec_starts_with(signature.name@, "array."@),
            !spec_takes_user_type_arrays(signature.name@),
        decreases n - i,
    {
        let found = match arg_types[i] {
            Some(t) => t.kind == ValueKind::UserTypeArray,
            None => false,
        };
        if found {
            reveal(spec_user_type_array_helper_args_diags);
            push_error(
                diagnostics,
                "E_CALL_ARG_TYPE",
                String::from_str(
                    "`array.*` helper does not support UDT arrays except `array.size`, `array.get`, `array.set`, `array.push`, `array.insert`, `array.pop`, `array.remove`, `array.shift`, `array.unshift`, `array.first`, `array.last`, `array.fill`, `array.clear`, `array.copy`, `array.concat`, `array.slice`, `array.reverse`, `array.join`, `array.includes`, `array.indexof`, and `array.lastindexof`",
                ),
                arg_span(args, i),
            );
            return ;
        }
        i = i + 1;
    }
}

/// The position of the value argument of the `array.*` builtins that store
/// or look up user-defined type values.
pub open spec fn spec_user_type_array_value_index(name: Seq<char>) -> Option<int> {
    if name == "array.push"@ || name == "array.unshift"@ || name == "array.includes"@ || name
        == "array.indexof"@ || name == "array.lastindexof"@ || name == "array.fill"@ {
        Some(1)
    } else if name == "array.insert"@ || name == "array.set"@ {
        Some(2)
    } else {
        None
    }
}

fn user_type_array_value_index(name: &str) -> (r: Option<usize>)
    ensures
        match r {
            Some(i) => spec_user_type_array_value_index(name@) == Some(i as int),
            None => spec_user_type_array_value_index(name@) is None,
        },
{
    if str_eq(name, "array.push") || str_eq(name, "array.unshift") || str_eq(name, "array.includes")
        || str_eq(name, "array.indexof") || str_eq(name, "array.lastindexof") || str_eq(
        name,
        "array.fill",
    ) {
        Some(1)
    } else if str_eq(name, "array.insert") || str_eq(name, "array.set") {
        Some(2)
    } else {
        None
    }
}

/// What a value of the wrong type for a user-defined type array reports:
/// a value that is no user-defined type, or one of another type than the
/// array's (as the analysis named them: `array_type_name` for the array
/// argument, `value_type_name` for the value).
#[verifier::opaque]
pub open spec fn spec_user_type_array_value_args_diags(
    signature: BuiltinSignature,
    args: Seq<CallArg>,
    arg_types: Seq<Option<PineType>>,
    array_type_name: Option<Seq<char>>,
    value_type_name: Option<Seq<char>>,
) -> Seq<DiagView> {
    let name = signature.name@;
    match spec_user_type_array_value_index(name) {
        None => Seq::empty(),
        Some(vi) => if !is_user_type_array_type(type_at(arg_types, 0)) || vi >= args.len() {
            Seq::empty()
        } else {
            match type_at(arg_types, vi) {
                None => Seq::empty(),
                Some(value_type) => if value_type.kind != ValueKind::UserType {
                    seq![
                        error_view(
                            "E_CALL_ARG_TYPE"@,
                            "`"@ + name + "` argument `value` does not accept "@
                                + spec_type_debug_label(value_type) + " for UDT arrays"@,
                            args[vi].span,
                        ),
                    ]
                } else {
                    match (array_type_name, value_type_name) {
                        (Some(a), Some(v)) => if a != v {
                            seq![
                                error_view(
                                    "E_CALL_ARG_TYPE"@,
                                    "`"@ + name + "` argument `value` expects UDT `"@ + a
                                        + "`, got `"@ + v + "`"@,
                                    args[vi].span,
                                ),
                            ]
                        } else {
                            Seq::empty()
                        },
                        _ => Seq::empty(),
                    }
                },
            }
        },
    }
}

/// Checks the value an `array.*` call stores in or looks up from a
/// user-defined type array.
pub fn validate_user_type_array_value_args(
    signature: &BuiltinSignature,
    args: &[CallArg],
    arg_types: &[Option<PineType>],
    array_type_name: Option<&str>,
    value_type_name: Option<&str>,
    diagnostics: &mut Vec<Diagnostic>,
)
    ensures
        diags_view(final(diagnostics)@) == diags_view(old(diagnostics)@)
            + spec_user_type_array_value_args_diags(
            *signature,
            args@,
            arg_types@,
            opt_str_view(array_type_name),
            opt_str_view(value_type_name),
        ),
{
    reveal(spec_user_type_array_value_args_diags);
    let ghost start = diags_view(diagnostics@);
    proof {
        assert(start =~= start + Seq::<DiagView>::empty());
    }
    let value_index = match user_type_array_value_index(signature.name) {
        Some(i) => i,
        None => return ,
    };
    let array_is_udt = match type_at_index(arg_types, 0) {
        Some(t) => t.kind == ValueKind::UserTypeArray,
        None => false,
    };
    if !array_is_udt || value_index >= args.len() {
        return ;
    }
    let value_arg = &args[value_index];
    let value_type = match type_at_index(arg_types, value_index) {
        Some(t) => t,
        None => return ,
    };
    if value_type.kind != ValueKind::UserType {
        let s = String::from_str("`");
        let s = s.concat(signature.name);
        let s = s.concat("` argument `value` does not accept ");
        let s = s.concat(type_debug_label(value_type).as_str());
        let s = s.concat(" for UDT arrays");
        push_error(diagnostics, "E_CALL_ARG_TYPE", s, value_arg.span);
        return ;
    }
    if let (Some(a), Some(v)) = (array_type_name, value_type_name) {
        if !str_eq(a, v) {
            let s = String::from_str("`");
            let s = s.concat(signature.name);
            let s = s.concat("` argument `value` expects UDT `");
            let s = s.concat(a);
            let s = s.concat("`, got `");
            let s = s.concat(v);
            let s = s.concat("`");
            push_error(diagnostics, "E_CALL_ARG_TYPE", s, value_arg.span);
        }
    }
}

pub open spec fn opt_str_view(r: Option<&str>) -> Option<Seq<char>> {
    match r {
        Some(s) => Some(s@),
        None => None,
    }
}

/// What concatenating user-defined type arrays of two different types
/// reports, given the types the analysis named for the two arrays.
#[verifier::opaque]
pub open spec fn spec_user_type_array_concat_args_diags(
    signature: BuiltinSignature,
    args: Seq<CallArg>,
    arg_types: Seq<Option<PineType>>,
    first_type_name: Option<Seq<char>>,
    second_type_name: Option<Seq<char>>,
) -> Seq<DiagView> {
    if signature.name@ != "array.concat"@ || !(type_at(arg_types, 0) is Some && type_at(arg_types, 1) is Some)
        || !is_user_type_array_type(type_at(arg_types, 0)) || !is_user_type_array_type(
        type_at(arg_types, 1),
    ) || args.len() < 2 {
        Seq::empty()
    } else {
        match (first_type_name, second_type_name) {
            (Some(a), Some(b)) => if a != b {
                seq![
                    error_view(
                        "E_CALL_ARG_TYPE"@,
                        "`array.concat` argument `id2` expects UDT array `"@ + a + "`, got `"@ + b
                            + "`"@,
                        args[1].span,
                    ),
                ]
            } else {
                Seq::empty()
            },
            _ => Seq::empty(),
        }
    }
}

/// Checks that `array.concat` joins user-defined type arrays of one type.
pub fn validate_user_type_array_concat_args(
    signature: &BuiltinSignature,
    args: &[CallArg],
    arg_types: &[Option<PineType>],
    first_type_name: Option<&str>,
    second_type_name: Option<&str>,
    diagnostics: &mut Vec<Diagnostic>,
)
    ensures
        diags_view(final(diagnostics)@) == diags_view(old(diagnostics)@)
            + spec_user_type_array_concat_args_diags(
            *signature,
            args@,
            arg_types@,
            opt_str_view(first_type_name),
            opt_str_view(second_type_name),
        ),
{
    reveal(spec_user_type_array_concat_args_diags);
    let ghost start = diags_view(diagnostics@);
    proof {
        assert(start =~= start + Seq::<DiagView>::empty());
    }
    if !str_eq(signature.name, "array.concat") {
        return ;
    }
    let first = match type_at_index(arg_types, 0) {
        Some(t) => t,
        None => return ,
    };
    let second = match type_at_index(arg_types, 1) {
        Some(t) => t,
        None => return ,
    };
    if first.kind != ValueKind::UserTypeArray || second.kind != ValueKind::UserTypeArray
        || args.len() < 2 {
        return ;
    }
    if let (Some(a), Some(b)) = (first_type_name, second_type_name) {
        if !str_eq(a, b) {
            let s = String::from_str("`array.concat` argument `id2` expects UDT array `");
            let s = s.concat(a);
            let s = s.concat("`, got `");
            let s = s.concat(b);
            let s = s.concat("`");
            push_error(diagnostics, "E_CALL_ARG_TYPE", s, args[1].span);
        }
    }
}

pub open spec fn opt_inference(r: Option<UserTypeArrayElementInference>) -> Option<InferenceView> {
    match r {
        Some(i) => Some(i.view()),
        None => None,
    }
}

/// What an `array.from` call whose elements form no array reports. The
/// analysis supplies whether the element types give an array kind, and what
/// it found of user-defined type elements.
#[verifier::opaque]
pub open spec fn spec_array_from_args_diags(
    signature: BuiltinSignature,
    args: Seq<CallArg>,
    arg_types: Seq<Option<PineType>>,
    element_type_known: bool,
    inference: Option<InferenceView>,
) -> Seq<DiagView> {
    if signature.name@ != "array.from"@ || element_type_known {
        Seq::empty()
    } else {
        match inference {
            Some(InferenceView::SameScalarLocal(_)) => Seq::empty(),
            Some(InferenceView::SameScalarImported(_)) => Seq::empty(),
            Some(i) => seq![
                error_view(
                    "E_CALL_ARG_TYPE"@,
                    spec_array_from_user_type_inference_message(i),
                    first_span(args),
                ),
            ],
            None => seq![
                error_view(
                    "E_CALL_ARG_TYPE"@,
                    match spec_array_from_actual_arg_labels(arg_types) {
                        Some(actual) => "`array.from` expects one supported array element kind, got "@
                            + actual,
                        None => "`array.from` arguments must infer one supported array element kind"@,
                    },
                    first_span(args),
                ),
            ],
        }
    }
}

/// Checks that the elements of an `array.from` call form an array.
pub fn validate_array_from_args(
    signature: &BuiltinSignature,
    args: &[CallArg],
    arg_types: &[Option<PineType>],
    element_type_known: bool,
    inference: &Option<UserTypeArrayElementInference>,
    diagnostics: &mut Vec<Diagnostic>,
)
    ensures
        diags_view(final(diagnostics)@) == diags_view(old(diagnostics)@) + spec_array_from_args_diags(
            *signature,
            args@,
            arg_types@,
            element_type_known,
            opt_inference(*inference),
        ),
{
    reveal(spec_array_from_args_diags);
    let ghost start = diags_view(diagnostics@);
    proof {
        assert(start =~= start + Seq::<DiagView>::empty());
    }
    if !str_eq(signature.name, "array.from") || element_type_known {
        return ;
    }
    match inference {
        Some(UserTypeArrayElementInference::SameScalarLocal(_)) => return ,
        Some(UserTypeArrayElementInference::SameScalarImported(_)) => return ,
        Some(i) => {
            let message = array_from_user_type_inference_message(i);
            push_error(diagnostics, "E_CALL_ARG_TYPE", message, first_arg_span(args));
            return ;
        },
        None => {},
    }
    let message = match array_from_actual_arg_labels(arg_types) {
        Some(actual) => {
            let s = String::from_str("`array.from` expects one supported array element kind, got ");
            s.concat(actual.as_str())
        },
        None => String::from_str("`array.from` arguments must infer one supported array element kind"),
    };
    push_error(diagnostics, "E_CALL_ARG_TYPE", message, first_arg_span(args));
}

/// What concatenating matrices of two different kinds reports.
pub open spec fn spec_matrix_concat_args_diags(
    signature: BuiltinSignature,
    args: Seq<CallArg>,
    arg_types: Seq<Option<PineType>>,
) -> Seq<DiagView> {
    if signature.name@ != "matrix.concat"@ {
        Seq::empty()
    } else {
        match (type_at(arg_types, 0), type_at(arg_types, 1)) {
            (Some(first), Some(second)) => if spec_matrix_element_kind(first.kind) is None
                || spec_matrix_element_kind(second.kind) is None || first.kind == second.kind {
                Seq::empty()
            } else {
                seq![
                    error_view(
                        "E_CALL_ARG_TYPE"@,
                        spec_expects_message(
                            "matrix.concat"@,
                            "id2"@,
                            spec_pine_type_name(first),
                            spec_pine_type_name(second),
                        ),
                        span_at(args, 1),
                    ),
                ]
            },
            _ => Seq::empty(),
        }
    }
}

/// Checks that `matrix.concat` joins two matrices of the same kind.
pub fn validate_matrix_concat_args(
    signature: &BuiltinSignature,
    args: &[CallArg],
    arg_types: &[Option<PineType>],
    diagnostics: &mut Vec<Diagnostic>,
)
    ensures
        diags_view(final(diagnostics)@) == diags_view(old(diagnostics)@)
            + spec_matrix_concat_args_diags(*signature, args@, arg_types@),
{
    let ghost start = diags_view(diagnostics@);
    proof {
        assert(start =~= start + Seq::<DiagView>::empty());
    }
    if !str_eq(signature.name, "matrix.concat") {
        return ;
    }
    let first = match type_at_index(arg_types, 0) {
        Some(t) => t,
        None => return ,
    };
    let second = match type_at_index(arg_types, 1) {
        Some(t) => t,
        None => return ,
    };
    if matrix_element_kind(first.kind).is_none() || matrix_element_kind(second.kind).is_none()
        || first.kind == second.kind {
        return ;
    }
    let expected = pine_type_name(first);
    push_diagnostic(
        diagnostics,
        call_arg_expected_type_diagnostic(
            "matrix.concat",
            "id2",
            expected.as_str(),
            second,
            arg_span(args, 1),
        ),
    );
}

} // verus!
