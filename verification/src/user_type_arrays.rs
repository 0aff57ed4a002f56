//! Arrays of user-defined types: `array.new<T>`, the element type an
//! `array.from` of user-defined values has, and the user-defined types the
//! results of array calls carry.
use vstd::prelude::*;
use vstd::string::*;

use crate::accepts::{accepts_type, spec_accepts_type, Accepts};
use crate::call_checks::type_at;
use crate::strings::{decimal, opt_string_view, spec_decimal, str_eq};
use crate::syntax::{diags_view, error_view, push_error, CallArg, DiagView, Diagnostic, Span};
use crate::types::{spec_type_debug_label, type_debug_label, PineType, Qualifier, ValueKind};
use crate::user_types::{
    classify_user_type_array_element_names, opt_inference_view, spec_classify_user_type_array_element_names,
    InferenceView, UserTypeArrayElementInference, UserTypeInfo,
};

verus! {

/// The user-defined type name the analysis found for argument `i`.
pub open spec fn name_at(names: Seq<Option<String>>, i: int) -> Option<Seq<char>> {
    if 0 <= i < names.len() {
        opt_string_view(names[i])
    } else {
        None
    }
}

pub open spec fn is_udt_arg(arg_types: Seq<Option<PineType>>, i: int) -> bool {
    type_at(arg_types, i) matches Some(t) && t.kind == ValueKind::UserType
}

/// The user-defined type names of the user-defined arguments among the first
/// `i`, in order; `None` when one of them has no known name.
pub open spec fn spec_udt_arg_names(
    arg_types: Seq<Option<PineType>>,
    names: Seq<Option<String>>,
    i: int,
) -> Option<Seq<Seq<char>>>
    decreases i,
{
    if i <= 0 {
        Some(Seq::empty())
    } else {
        match spec_udt_arg_names(arg_types, names, i - 1) {
            None => None,
            Some(prefix) => if is_udt_arg(arg_types, i - 1) {
                match name_at(names, i - 1) {
                    Some(n) => Some(prefix.push(n)),
                    None => None,
                }
            } else {
                Some(prefix)
            },
        }
    }
}

/// What the user-defined arguments of an `array.from` call make of its
/// elements (`None` when no argument is of a user-defined type): unknown when
/// one has no known type name, else the classification of their names (or
/// unknown where it gives none). `names` holds the type name the analysis
/// found for each argument.
pub open spec fn spec_array_from_inference(
    n_args: int,
    arg_types: Seq<Option<PineType>>,
    names: Seq<Option<String>>,
    user_types: Seq<UserTypeInfo>,
) -> Option<InferenceView> {
    let n = if n_args < arg_types.len() {
        n_args
    } else {
        arg_types.len() as int
    };
    if !(exists|i: int| 0 <= i < n && #[trigger] is_udt_arg(arg_types, i)) {
        None
    } else {
        match spec_udt_arg_names(arg_types, names, n) {
            None => Some(InferenceView::UnknownUserTypeName),
            Some(found) => match spec_classify_user_type_array_element_names(user_types, found) {
                Some(v) => Some(v),
                None => Some(InferenceView::UnknownUserTypeName),
            },
        }
    }
}

/// The element type of an `array.from` call with user-defined arguments
/// (see `spec_array_from_inference`).
pub fn array_from_user_type_element_inference(
    args: &[CallArg],
    arg_types: &[Option<PineType>],
    names: &[Option<String>],
    user_types: &[UserTypeInfo],
) -> (r: Option<UserTypeArrayElementInference>)
    ensures
        opt_inference_view(r) == spec_array_from_inference(args@.len() as int, arg_types@, names@, user_types@),
{
    let n = if args.len() < arg_types.len() {
        args.len()
    } else {
        arg_types.len()
    };
    let mut found: Vec<String> = Vec::new();
    let mut saw = false;
    let mut i: usize = 0;
    while i < n
        invariant
            n <= arg_types@.len(),
            n == (if args@.len() < arg_types@.len() { args@.len() } else { arg_types@.len() }),
            i <= n,
            spec_udt_arg_names(arg_types@, names@, i as int) == Some(found@.map_values(|s: String| s@)),
            saw == exists|k: int| 0 <= k < i && #[trigger] is_udt_arg(arg_types@, k),
        decreases n - i,
    {
        let ghost before = found@.map_values(|s: String| s@);
        if let Some(t) = arg_types[i] {
            if t.kind == ValueKind::UserType {
                saw = true;
                let name = if i < names.len() {
                    match &names[i] {
                        Some(name) => name.clone(),
                        None => {
                            proof {
                                lemma_udt_names_stay_unknown(arg_types@, names@, (i + 1) as int, n as int);
                                assert(is_udt_arg(arg_types@, i as int));
                            }
                            return Some(UserTypeArrayElementInference::UnknownUserTypeName);
                        },
                    }
                } else {
                    proof {
                        lemma_udt_names_stay_unknown(arg_types@, names@, (i + 1) as int, n as int);
                        assert(is_udt_arg(arg_types@, i as int));
                    }
                    return Some(UserTypeArrayElementInference::UnknownUserTypeName);
                };
                found.push(name);
                assert(found@.map_values(|s: String| s@) =~= before.push(name@));
            }
        }
        i = i + 1;
    }
    if !saw {
        return None;
    }
    let r = classify_user_type_array_element_names(user_types, found.as_slice());
    match r {
        Some(v) => Some(v),
        None => Some(UserTypeArrayElementInference::UnknownUserTypeName),
    }
}

proof fn lemma_udt_names_stay_unknown(arg_types: Seq<Option<PineType>>, names: Seq<Option<String>>, i: int, j: int)
    requires
        0 <= i <= j,
        spec_udt_arg_names(arg_types, names, i) is None,
    ensures
        spec_udt_arg_names(arg_types, names, j) is None,
    decreases j - i,
{
    if i < j {
        lemma_udt_names_stay_unknown(arg_types, names, i, j - 1);
    }
}

pub open spec fn array_new_prefix(udt: Seq<char>) -> Seq<char> {
    "`array.new<"@ + udt + ">` argument `"@
}

/// What argument `i` (the first two are `size` and `initial_value`) of
/// `array.new<udt>` reports: a name other than its parameter's, a size that
/// is not a simple int, or an initial value that is not of the type `udt`
/// (`value_udt`: the type name the analysis found for it).
pub open spec fn spec_array_new_arg_diags(
    udt: Seq<char>,
    args: Seq<CallArg>,
    arg_types: Seq<Option<PineType>>,
    value_udt: Option<Seq<char>>,
    i: int,
) -> Seq<DiagView> {
    let expected: Seq<char> = if i == 0 {
        "size"@
    } else {
        "initial_value"@
    };
    match args[i].name {
        Some(n) => if n@ != expected {
            seq![
                error_view(
                    "E_CALL_ARG_NAME"@,
                    "`array.new<"@ + udt + ">` has no argument named `"@ + n@ + "` at this position"@,
                    args[i].span,
                ),
            ]
        } else {
            spec_array_new_type_diags(udt, args, arg_types, value_udt, i)
        },
        None => spec_array_new_type_diags(udt, args, arg_types, value_udt, i),
    }
}

pub open spec fn spec_array_new_type_diags(
    udt: Seq<char>,
    args: Seq<CallArg>,
    arg_types: Seq<Option<PineType>>,
    value_udt: Option<Seq<char>>,
    i: int,
) -> Seq<DiagView> {
    match type_at(arg_types, i) {
        None => Seq::empty(),
        Some(t) => if i == 0 {
            if !spec_accepts_type(Accepts::SimpleInt, t) {
                seq![
                    error_view(
                        "E_CALL_ARG_TYPE"@,
                        array_new_prefix(udt) + "size` does not accept "@ + spec_type_debug_label(t),
                        args[i].span,
                    ),
                ]
            } else {
                Seq::empty()
            }
        } else if t.kind != ValueKind::UserType {
            seq![
                error_view(
                    "E_CALL_ARG_TYPE"@,
                    array_new_prefix(udt) + "initial_value` does not accept "@ + spec_type_debug_label(t),
                    args[i].span,
                ),
            ]
        } else {
            match value_udt {
                Some(v) => if v != udt {
                    seq![
                        error_view(
                            "E_CALL_ARG_TYPE"@,
                            array_new_prefix(udt) + "initial_value` expects UDT `"@ + udt + "`, got `"@ + v
                                + "`"@,
                            args[i].span,
                        ),
                    ]
                } else {
                    Seq::empty()
                },
                None => Seq::empty(),
            }
        },
    }
}

/// What `name` (an `array.new<udt>` call) reports: more than two arguments;
/// an element type that is not a local type with scalar fields; then each of
/// the first two arguments (see `spec_array_new_arg_diags`).
pub open spec fn spec_array_new_diags(
    name: Seq<char>,
    udt: Seq<char>,
    span: Span,
    args: Seq<CallArg>,
    arg_types: Seq<Option<PineType>>,
    value_udt: Option<Seq<char>>,
    user_types: Seq<UserTypeInfo>,
) -> Seq<DiagView> {
    (if args.len() > 2 {
        seq![
            error_view(
                "E_CALL_ARITY"@,
                "`"@ + name + "` expects at most 2 argument(s), got "@ + spec_decimal(args.len()),
                args[2].span,
            ),
        ]
    } else {
        Seq::<DiagView>::empty()
    }) + (match spec_classify_user_type_array_element_names(user_types, seq![udt]) {
        Some(InferenceView::SameScalarLocal(_)) => Seq::<DiagView>::empty(),
        Some(InferenceView::UnsupportedFieldType(_)) => seq![
            error_view("E_CALL_ARG_TYPE"@, "`"@ + name + "` does not support UDT arrays with non-scalar fields"@, span),
        ],
        _ => seq![error_view("E_CALL_ARG_TYPE"@, "`"@ + name + "` requires a local scalar-field UDT"@, span)],
    }) + (if args.len() > 0 {
        spec_array_new_arg_diags(udt, args, arg_types, value_udt, 0)
    } else {
        Seq::<DiagView>::empty()
    }) + (if args.len() > 1 {
        spec_array_new_arg_diags(udt, args, arg_types, value_udt, 1)
    } else {
        Seq::<DiagView>::empty()
    })
}

fn arg_type_at(arg_types: &[Option<PineType>], i: usize) -> (r: Option<PineType>)
    ensures
        r == type_at(arg_types@, i as int),
{
    if i < arg_types.len() {
        arg_types[i]
    } else {
        None
    }
}

fn check_array_new_arg(
    udt: &str,
    args: &[CallArg],
    arg_types: &[Option<PineType>],
    value_udt: Option<&str>,
    i: usize,
    diagnostics: &mut Vec<Diagnostic>,
)
    requires
        i < 2,
        i < args@.len(),
    ensures
        diags_view(final(diagnostics)@) == diags_view(old(diagnostics)@) + spec_array_new_arg_diags(
            udt@,
            args@,
            arg_types@,
            crate::arg_facts::opt_str_view(value_udt),
            i as int,
        ),
{
    let ghost d0 = diags_view(diagnostics@);
    let expected = if i == 0 {
        "size"
    } else {
        "initial_value"
    };
    let arg = &args[i];
    if let Some(n) = &arg.name {
        if !str_eq(n.as_str(), expected) {
            let s = String::from_str("`array.new<");
            let s = s.concat(udt);
            let s = s.concat(">` has no argument named `");
            let s = s.concat(n.as_str());
            let s = s.concat("` at this position");
            push_error(diagnostics, "E_CALL_ARG_NAME", s, arg.span);
            return;
        }
    }
    let t = match arg_type_at(arg_types, i) {
        Some(t) => t,
        None => {
            assert(d0 =~= d0 + Seq::<DiagView>::empty());
            return;
        },
    };
    let prefix = String::from_str("`array.new<");
    let prefix = prefix.concat(udt);
    let prefix = prefix.concat(">` argument `");
    if i == 0 {
        if !accepts_type(Accepts::SimpleInt, t) {
            let s = prefix.concat("size` does not accept ");
            let s = s.concat(type_debug_label(t).as_str());
            push_error(diagnostics, "E_CALL_ARG_TYPE", s, arg.span);
        } else {
            assert(d0 =~= d0 + Seq::<DiagView>::empty());
        }
    } else if t.kind != ValueKind::UserType {
        let s = prefix.concat("initial_value` does not accept ");
        let s = s.concat(type_debug_label(t).as_str());
        push_error(diagnostics, "E_CALL_ARG_TYPE", s, arg.span);
    } else {
        match value_udt {
            Some(v) => {
                if !str_eq(v, udt) {
                    let s = prefix.concat("initial_value` expects UDT `");
                    let s = s.concat(udt);
                    let s = s.concat("`, got `");
                    let s = s.concat(v);
                    let s = s.concat("`");
                    push_error(diagnostics, "E_CALL_ARG_TYPE", s, arg.span);
                } else {
                    assert(d0 =~= d0 + Seq::<DiagView>::empty());
                }
            },
            None => {
                assert(d0 =~= d0 + Seq::<DiagView>::empty());
            },
        }
    }
}

/// Analyzes `name`, an `array.new<udt>` call, where `value_udt` is the
/// user-defined type the analysis found for its initial value: reports what
/// `spec_array_new_diags` says, gives a simple user-defined type array, and
/// gives its expression the element type `udt` (`expr_array_udt`).
pub fn analyze_user_type_array_new_call(
    name: &str,
    udt: &str,
    span: Span,
    args: &[CallArg],
    arg_types: &[Option<PineType>],
    value_udt: Option<&str>,
    user_types: &[UserTypeInfo],
    diagnostics: &mut Vec<Diagnostic>,
    expr_array_udt: &mut Option<String>,
) -> (r: Option<PineType>)
    ensures
        r == Some(PineType { qualifier: Qualifier::Simple, kind: ValueKind::UserTypeArray }),
        opt_string_view(*final(expr_array_udt)) == Some(udt@),
        diags_view(final(diagnostics)@) == diags_view(old(diagnostics)@) + spec_array_new_diags(
            name@,
            udt@,
            span,
            args@,
            arg_types@,
            crate::arg_facts::opt_str_view(value_udt),
            user_types@,
        ),
{
    let ghost d0 = diags_view(diagnostics@);
    if args.len() > 2 {
        let s = String::from_str("`");
        let s = s.concat(name);
        let s = s.concat("` expects at most 2 argument(s), got ");
        let s = s.concat(decimal(args.len()).as_str());
        push_error(diagnostics, "E_CALL_ARITY", s, args[2].span);
    }
    let ghost d1 = diags_view(diagnostics@);
    let names = vec![String::from_str(udt)];
    assert(names@.map_values(|s: String| s@) =~= seq![udt@]);
    match classify_user_type_array_element_names(user_types, names.as_slice()) {
        Some(UserTypeArrayElementInference::SameScalarLocal(_)) => {},
        Some(UserTypeArrayElementInference::UnsupportedFieldType(_)) => {
            let s = String::from_str("`");
            let s = s.concat(name);
            let s = s.concat("` does not support UDT arrays with non-scalar fields");
            push_error(diagnostics, "E_CALL_ARG_TYPE", s, span);
        },
        _ => {
            let s = String::from_str("`");
            let s = s.concat(name);
            let s = s.concat("` requires a local scalar-field UDT");
            push_error(diagnostics, "E_CALL_ARG_TYPE", s, span);
        },
    }
    let ghost d2 = diags_view(diagnostics@);
    if args.len() > 0 {
        check_array_new_arg(udt, args, arg_types, value_udt, 0, diagnostics);
    }
    let ghost d3 = diags_view(diagnostics@);
    if args.len() > 1 {
        check_array_new_arg(udt, args, arg_types, value_udt, 1, diagnostics);
    }
    assert(diags_view(diagnostics@) =~= d0 + spec_array_new_diags(
        name@,
        udt@,
        span,
        args@,
        arg_types@,
        crate::arg_facts::opt_str_view(value_udt),
        user_types@,
    ));
    *expr_array_udt = Some(String::from_str(udt));
    Some(PineType::new(Qualifier::Simple, ValueKind::UserTypeArray))
}

pub open spec fn spec_is_element_result_call(name: Seq<char>) -> bool {
    name == "array.get"@ || name == "array.pop"@ || name == "array.remove"@ || name == "array.shift"@
        || name == "array.first"@ || name == "array.last"@
}

pub open spec fn spec_is_array_result_call(name: Seq<char>) -> bool {
    name == "array.copy"@ || name == "array.concat"@ || name == "array.slice"@
}

/// Whether a call's array argument is a user-defined type array whose
/// element type the analysis knows (`array_udt`).
pub open spec fn spec_known_udt_array_arg(
    args: Seq<CallArg>,
    arg_types: Seq<Option<PineType>>,
    array_udt: Option<Seq<char>>,
) -> bool {
    &&& type_at(arg_types, 0) matches Some(t) && t.kind == ValueKind::UserTypeArray
    &&& args.len() > 0
    &&& array_udt is Some
}

fn known_udt_array_arg(args: &[CallArg], arg_types: &[Option<PineType>], array_udt: Option<&str>) -> (r: bool)
    ensures
        r == spec_known_udt_array_arg(args@, arg_types@, crate::arg_facts::opt_str_view(array_udt)),
{
    let array_type = match arg_type_at(arg_types, 0) {
        Some(t) => t,
        None => return false,
    };
    array_type.kind == ValueKind::UserTypeArray && args.len() > 0 && array_udt.is_some()
}

/// An element taken from a user-defined type array (`array.get`, `pop`,
/// `remove`, `shift`, `first`, `last`) has the array's element type, which
/// `expr_udt` receives.
pub fn mark_user_type_array_element_result(
    signature_name: &str,
    args: &[CallArg],
    arg_types: &[Option<PineType>],
    array_udt: Option<&str>,
    expr_udt: &mut Option<String>,
)
    ensures
        opt_string_view(*final(expr_udt)) == if spec_is_element_result_call(signature_name@)
            && spec_known_udt_array_arg(args@, arg_types@, crate::arg_facts::opt_str_view(array_udt)) {
            crate::arg_facts::opt_str_view(array_udt)
        } else {
            opt_string_view(*old(expr_udt))
        },
{
    if !(str_eq(signature_name, "array.get") || str_eq(signature_name, "array.pop") || str_eq(
        signature_name,
        "array.remove",
    ) || str_eq(signature_name, "array.shift") || str_eq(signature_name, "array.first") || str_eq(
        signature_name,
        "array.last",
    )) {
        return;
    }
    if known_udt_array_arg(args, arg_types, array_udt) {
        if let Some(u) = array_udt {
            *expr_udt = Some(String::from_str(u));
        }
    }
}

/// A copy, concatenation or slice of a user-defined type array is an array
/// of the same element type, which `expr_array_udt` receives.
pub fn mark_user_type_array_result(
    signature_name: &str,
    args: &[CallArg],
    arg_types: &[Option<PineType>],
    array_udt: Option<&str>,
    expr_array_udt: &mut Option<String>,
)
    ensures
        opt_string_view(*final(expr_array_udt)) == if spec_is_array_result_call(signature_name@)
            && spec_known_udt_array_arg(args@, arg_types@, crate::arg_facts::opt_str_view(array_udt)) {
            crate::arg_facts::opt_str_view(array_udt)
        } else {
            opt_string_view(*old(expr_array_udt))
        },
{
    if !(str_eq(signature_name, "array.copy") || str_eq(signature_name, "array.concat") || str_eq(
        signature_name,
        "array.slice",
    )) {
        return;
    }
    if known_udt_array_arg(args, arg_types, array_udt) {
        if let Some(u) = array_udt {
            *expr_array_udt = Some(String::from_str(u));
        }
    }
}

} // verus!
