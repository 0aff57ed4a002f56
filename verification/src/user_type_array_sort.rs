//! Sorting arrays of user-defined types.
use vstd::prelude::*;
use vstd::string::*;

use crate::strings::{
    decimal, opt_string_view, spec_decimal, spec_ends_with, spec_starts_with, str_eq, strip_prefix,
    strip_suffix,
};
use crate::syntax::{
    diags_view, error_view, push_diagnostic, push_error, CallArg, DiagView, Diagnostic, Span,
};
use crate::accepts::{spec_accepts_type, Accepts};
use crate::call_helpers::{
    call_arg_accepts_type_expected_diagnostic, call_requirement_diagnostic, spec_refusal_message,
};
use crate::types::{pine_type_name, spec_pine_type_name, PineType, Qualifier, ValueKind};
use crate::arg_facts::{fact_known_int, fact_known_string, known_int_at, known_string_at, ArgFacts};
use crate::user_type_fields::{spec_user_type_field, user_type_field};
use crate::user_types::{find_user_type, spec_find_user_type, ImportedFieldInfo, UserTypeInfo};

verus! {

/// The element type of an `array.new<T>` call, unless `T` is `chart.point`.
pub open spec fn spec_array_new_user_type_name(name: Seq<char>) -> Option<Seq<char>> {
    if spec_starts_with(name, "array.new<"@) && spec_ends_with(name.skip(10), ">"@) {
        let inner = name.skip(10).take(name.skip(10).len() - 1);
        if inner != "chart.point"@ {
            Some(inner)
        } else {
            None
        }
    } else {
        None
    }
}

pub fn array_new_user_type_name(name: &str) -> (r: Option<&str>)
    ensures
        crate::call_helpers::opt_str_view(r) == spec_array_new_user_type_name(name@),
{
    proof {
        reveal_strlit("array.new<");
        reveal_strlit(">");
    }
    let rest = strip_prefix(name, "array.new<")?;
    let inner = strip_suffix(rest, ">")?;
    if str_eq(inner, "chart.point") {
        None
    } else {
        Some(inner)
    }
}

pub open spec fn spec_sort_param_name(param_index: int) -> Option<Seq<char>> {
    if param_index == 0 {
        Some("id"@)
    } else if param_index == 1 {
        Some("order"@)
    } else if param_index == 2 {
        Some("sort_field"@)
    } else {
        None
    }
}

fn sort_param_name(param_index: usize) -> (r: Option<&'static str>)
    ensures
        crate::call_helpers::opt_str_view(r) == spec_sort_param_name(param_index as int),
{
    if param_index == 0 {
        Some("id")
    } else if param_index == 1 {
        Some("order")
    } else if param_index == 2 {
        Some("sort_field")
    } else {
        None
    }
}

/// Whether argument `i` supplies the sort parameter named `param_name` at `param_index`.
pub open spec fn supplies_sort_param(args: Seq<CallArg>, i: int, param_name: Seq<char>, param_index: int) -> bool {
    opt_string_view(args[i].name) == Some(param_name) || (args[i].name is None && i == param_index)
}

/// The first argument that supplies sort parameter `param_index` (`id`,
/// `order`, `sort_field`), by name or by position.
pub open spec fn spec_user_type_array_sort_arg_from(args: Seq<CallArg>, param_index: int, i: int) -> Option<
    int,
>
    decreases args.len() - i,
{
    match spec_sort_param_name(param_index) {
        None => None,
        Some(param_name) => if i < 0 || i >= args.len() {
            None
        } else if supplies_sort_param(args, i, param_name, param_index) {
            Some(i)
        } else {
            spec_user_type_array_sort_arg_from(args, param_index, i + 1)
        },
    }
}

pub fn user_type_array_sort_arg(args: &[CallArg], param_index: usize) -> (r: Option<(usize, &CallArg)>)
    ensures
        match r {
            Some((i, arg)) => spec_user_type_array_sort_arg_from(args@, param_index as int, 0)
                == Some(i as int) && i < args@.len() && *arg == args@[i as int],
            None => spec_user_type_array_sort_arg_from(args@, param_index as int, 0) is None,
        },
{
    let param_name = sort_param_name(param_index)?;
    let n = args.len();
    let mut i: usize = 0;
    while i < n
        invariant
            n == args@.len(),
            i <= n,
            spec_sort_param_name(param_index as int) == Some(param_name@),
            spec_user_type_array_sort_arg_from(args@, param_index as int, 0)
                == spec_user_type_array_sort_arg_from(args@, param_index as int, i as int),
        decreases n - i,
    {
        let arg = &args[i];
        let by_name = match &arg.name {
            Some(arg_name) => str_eq(arg_name.as_str(), param_name),
            None => false,
        };
        if by_name || (arg.name.is_none() && i == param_index) {
            return Some((i, arg));
        }
        i = i + 1;
    }
    None
}

/// `array.sort` or `array.sort_indices` on an array of user-defined type values.
pub open spec fn spec_is_user_type_array_ordering_call(
    name: Seq<char>,
    args: Seq<CallArg>,
    arg_types: Seq<Option<PineType>>,
) -> bool {
    (name == "array.sort"@ || name == "array.sort_indices"@) && match spec_user_type_array_sort_arg_from(
        args,
        0,
        0,
    ) {
        Some(i) => i < arg_types.len() && arg_types[i] is Some && arg_types[i].unwrap().kind
            == ValueKind::UserTypeArray,
        None => false,
    }
}

pub fn is_user_type_array_ordering_call(
    name: &str,
    args: &[CallArg],
    arg_types: &[Option<PineType>],
) -> (r: bool)
    ensures
        r == spec_is_user_type_array_ordering_call(name@, args@, arg_types@),
{
    if !(str_eq(name, "array.sort") || str_eq(name, "array.sort_indices")) {
        return false;
    }
    match user_type_array_sort_arg(args, 0) {
        Some((index, _)) => {
            if index < arg_types.len() {
                match arg_types[index] {
                    Some(t) => t.kind == ValueKind::UserTypeArray,
                    None => false,
                }
            } else {
                false
            }
        },
        None => false,
    }
}

/// The position of a sort parameter named `name`.
pub open spec fn spec_sort_param_position(name: Seq<char>) -> Option<int> {
    if name == "id"@ {
        Some(0)
    } else if name == "order"@ {
        Some(1)
    } else if name == "sort_field"@ {
        Some(2)
    } else {
        None
    }
}

fn sort_param_position(name: &str) -> (r: Option<usize>)
    ensures
        match r {
            Some(p) => spec_sort_param_position(name@) == Some(p as int),
            None => spec_sort_param_position(name@) is None,
        },
{
    if str_eq(name, "id") {
        Some(0)
    } else if str_eq(name, "order") {
        Some(1)
    } else if str_eq(name, "sort_field") {
        Some(2)
    } else {
        None
    }
}

/// The state of a scan over a sort call's arguments: which parameters are
/// bound, whether a named argument was seen, and what was reported.
pub struct SortScan {
    pub bound: Seq<bool>,
    pub saw_named: bool,
    pub diags: Seq<DiagView>,
}

/// The scan after binding the parameter at `p` for argument `i`.
pub open spec fn bind_sort_param(name: Seq<char>, args: Seq<CallArg>, i: int, p: int, s: SortScan) -> SortScan {
    if s.bound[p] {
        SortScan {
            diags: s.diags + seq![
                error_view(
                    "E_CALL_ARG_DUPLICATE"@,
                    "`"@ + name + "` argument `"@ + spec_sort_param_name(p).unwrap()
                        + "` is provided more than once"@,
                    args[i].span,
                ),
            ],
            ..s
        }
    } else {
        SortScan { bound: s.bound.update(p, true), ..s }
    }
}

/// The scan of the first `n` of the (at most three) arguments a sort call binds.
pub open spec fn spec_sort_scan(name: Seq<char>, args: Seq<CallArg>, n: int) -> SortScan
    decreases n,
{
    if n <= 0 {
        SortScan { bound: seq![false, false, false], saw_named: false, diags: Seq::empty() }
    } else {
        let s = spec_sort_scan(name, args, n - 1);
        let i = n - 1;
        match args[i].name {
            Some(arg_name) => {
                let s = SortScan { saw_named: true, ..s };
                match spec_sort_param_position(arg_name@) {
                    None => SortScan {
                        diags: s.diags + seq![
                            error_view(
                                "E_CALL_ARG_NAME"@,
                                "`"@ + name + "` has no argument named `"@ + arg_name@ + "`"@,
                                args[i].span,
                            ),
                        ],
                        ..s
                    },
                    Some(p) => bind_sort_param(name, args, i, p, s),
                }
            },
            None => if s.saw_named {
                SortScan {
                    diags: s.diags + seq![
                        error_view(
                            "E_CALL_ARG_ORDER"@,
                            "positional arguments cannot follow named arguments in built-in calls"@,
                            args[i].span,
                        ),
                    ],
                    ..s
                }
            } else {
                bind_sort_param(name, args, i, i, s)
            },
        }
    }
}

pub open spec fn min3(n: int) -> int {
    if n < 3 {
        n
    } else {
        3
    }
}

/// What binding the arguments of a user-defined type array sort call reports.
pub open spec fn spec_sort_bindings_diags(name: Seq<char>, span: Span, args: Seq<CallArg>) -> Seq<DiagView> {
    let scan = spec_sort_scan(name, args, min3(args.len() as int));
    (if args.len() > 3 {
        seq![
            error_view(
                "E_CALL_ARITY"@,
                "`"@ + name + "` expects at most 3 argument(s), got "@ + spec_decimal(args.len()),
                args[3].span,
            ),
        ]
    } else {
        Seq::empty()
    }) + scan.diags + if !scan.bound[0] {
        seq![
            error_view(
                "E_CALL_ARITY"@,
                "`"@ + name + "` is missing argument `id`"@,
                if args.len() > 0 {
                    args[0].span
                } else {
                    span
                },
            ),
        ]
    } else {
        Seq::empty()
    }
}

/// Binds the arguments of `array.sort` or `array.sort_indices` on a
/// user-defined type array to `id`, `order` and `sort_field`.
pub fn validate_user_type_array_sort_bindings(
    name: &str,
    span: Span,
    args: &[CallArg],
    diagnostics: &mut Vec<Diagnostic>,
)
    ensures
        diags_view(final(diagnostics)@) == diags_view(old(diagnostics)@) + spec_sort_bindings_diags(
            name@,
            span,
            args@,
        ),
{
    let ghost start = diags_view(diagnostics@);
    if args.len() > 3 {
        let s = String::from_str("`");
        let s = s.concat(name);
        let s = s.concat("` expects at most 3 argument(s), got ");
        let s = s.concat(decimal(args.len()).as_str());
        push_error(diagnostics, "E_CALL_ARITY", s, args[3].span);
    }
    let ghost after_arity = diags_view(diagnostics@);
    let mut bound: Vec<bool> = vec![false, false, false];
    let mut saw_named = false;
    let n = if args.len() < 3 {
        args.len()
    } else {
        3
    };
    let mut arg_index: usize = 0;
    while arg_index < n
        invariant
            n == min3(args@.len() as int),
            n <= args@.len(),
            arg_index <= n,
            bound@.len() == 3,
            bound@ == spec_sort_scan(name@, args@, arg_index as int).bound,
            saw_named == spec_sort_scan(name@, args@, arg_index as int).saw_named,
            diags_view(diagnostics@) == after_arity + spec_sort_scan(name@, args@, arg_index as int).diags,
        decreases n - arg_index,
    {
        let arg = &args[arg_index];
        let param_index = match &arg.name {
            Some(arg_name) => {
                saw_named = true;
                match sort_param_position(arg_name.as_str()) {
                    Some(p) => p,
                    None => {
                        let s = String::from_str("`");
                        let s = s.concat(name);
                        let s = s.concat("` has no argument named `");
                        let s = s.concat(arg_name.as_str());
                        let s = s.concat("`");
                        push_error(diagnostics, "E_CALL_ARG_NAME", s, arg.span);
                        arg_index = arg_index + 1;
                        continue ;
                    },
                }
            },
            None => {
                if saw_named {
                    push_error(
                        diagnostics,
                        "E_CALL_ARG_ORDER",
                        String::from_str(
                            "positional arguments cannot follow named arguments in built-in calls",
                        ),
                        arg.span,
                    );
                    arg_index = arg_index + 1;
                    continue ;
                }
                arg_index
            },
        };
        if bound[param_index] {
            let s = String::from_str("`");
            let s = s.concat(name);
            let s = s.concat("` argument `");
            let s = s.concat(sort_param_name(param_index).unwrap());
            let s = s.concat("` is provided more than once");
            push_error(diagnostics, "E_CALL_ARG_DUPLICATE", s, arg.span);
        } else {
            bound.set(param_index, true);
        }
        arg_index = arg_index + 1;
    }
    if !bound[0] {
        let s = String::from_str("`");
        let s = s.concat(name);
        let s = s.concat("` is missing argument `id`");
        let at = if args.len() > 0 {
            args[0].span
        } else {
            span
        };
        push_error(diagnostics, "E_CALL_ARITY", s, at);
    }
    assert(diags_view(diagnostics@) =~= start + spec_sort_bindings_diags(name@, span, args@));
}

/// The type argument `i` of a call has, where known.
pub open spec fn known_type(arg_types: Seq<Option<PineType>>, i: int) -> Option<PineType> {
    if 0 <= i < arg_types.len() {
        arg_types[i]
    } else {
        None
    }
}

/// What the `order` argument of a sort call reports: a type no const string takes.
pub open spec fn spec_sort_order_diags(name: Seq<char>, args: Seq<CallArg>, arg_types: Seq<Option<PineType>>) -> Seq<
    DiagView,
> {
    match spec_user_type_array_sort_arg_from(args, 1, 0) {
        Some(i) => match known_type(arg_types, i) {
            Some(t) => if !spec_accepts_type(Accepts::ConstString, t) {
                seq![
                    error_view(
                        "E_CALL_ARG_TYPE"@,
                        spec_refusal_message(name, "order"@, Accepts::ConstString, t),
                        args[i].span,
                    ),
                ]
            } else {
                Seq::empty()
            },
            None => Seq::empty(),
        },
        None => Seq::empty(),
    }
}

/// What the `sort_field` argument of a sort call reports: a type that is no
/// const int or string.
pub open spec fn spec_sort_field_type_diags(name: Seq<char>, args: Seq<CallArg>, arg_types: Seq<Option<PineType>>) -> Seq<
    DiagView,
> {
    match spec_user_type_array_sort_arg_from(args, 2, 0) {
        Some(i) => match known_type(arg_types, i) {
            Some(t) => if t.qualifier != Qualifier::Const || !(t.kind == ValueKind::Int || t.kind
                == ValueKind::String) {
                seq![
                    error_view(
                        "E_CALL_ARG_TYPE"@,
                        "`"@ + name + "` argument `sort_field` expects const int or string, got "@
                            + spec_pine_type_name(t),
                        args[i].span,
                    ),
                ]
            } else {
                Seq::empty()
            },
            None => Seq::empty(),
        },
        None => Seq::empty(),
    }
}

pub open spec fn sort_field_requirement() -> Seq<char> {
    "a scalar-tree UDT array and a root int, float, or string `sort_field`"@
}

/// What analyzing a sort call on a user-defined type array reports, given
/// the index of the field it sorts by (as the analysis resolved it).
pub open spec fn spec_user_type_array_sort_call_diags(
    name: Seq<char>,
    span: Span,
    args: Seq<CallArg>,
    arg_types: Seq<Option<PineType>>,
    sort_field_index: Option<usize>,
) -> Seq<DiagView> {
    spec_sort_bindings_diags(name, span, args) + spec_sort_order_diags(name, args, arg_types)
        + spec_sort_field_type_diags(name, args, arg_types) + if sort_field_index is None {
        seq![
            error_view(
                "E_CALL_ARG_TYPE"@,
                "`"@ + name + "` requires "@ + sort_field_requirement(),
                match spec_user_type_array_sort_arg_from(args, 2, 0) {
                    Some(i) => args[i].span,
                    None => span,
                },
            ),
        ]
    } else {
        Seq::empty()
    }
}

/// Checks `array.sort` or `array.sort_indices` on a user-defined type array
/// and gives its result type; `sort_field_index` is the field the analysis
/// resolved the sort to, if any.
pub fn analyze_user_type_array_sort_call(
    name: &str,
    span: Span,
    args: &[CallArg],
    arg_types: &[Option<PineType>],
    sort_field_index: Option<usize>,
    diagnostics: &mut Vec<Diagnostic>,
) -> (r: Option<PineType>)
    ensures
        diags_view(final(diagnostics)@) == diags_view(old(diagnostics)@)
            + spec_user_type_array_sort_call_diags(name@, span, args@, arg_types@, sort_field_index),
        r == Some(
            if name@ == "array.sort_indices"@ {
                PineType { qualifier: Qualifier::Simple, kind: ValueKind::IntArray }
            } else {
                PineType { qualifier: Qualifier::Const, kind: ValueKind::Void }
            },
        ),
{
    let ghost start = diags_view(diagnostics@);
    validate_user_type_array_sort_bindings(name, span, args, diagnostics);
    let ghost d1 = diags_view(diagnostics@);
    if let Some((index, arg)) = user_type_array_sort_arg(args, 1) {
        if index < arg_types.len() {
            if let Some(order_type) = arg_types[index] {
                if let Some(diagnostic) = call_arg_accepts_type_expected_diagnostic(
                    name,
                    "order",
                    Accepts::ConstString,
                    order_type,
                    arg.span,
                ) {
                    diagnostics.push(diagnostic);
                }
            }
        }
    }
    let ghost d2 = diags_view(diagnostics@);
    assert(d2 =~= d1 + spec_sort_order_diags(name@, args@, arg_types@));
    if let Some((index, arg)) = user_type_array_sort_arg(args, 2) {
        if index < arg_types.len() {
            if let Some(field_type) = arg_types[index] {
                if field_type.qualifier != Qualifier::Const || !(field_type.kind == ValueKind::Int
                    || field_type.kind == ValueKind::String) {
                    let s = String::from_str("`");
                    let s = s.concat(name);
                    let s = s.concat("` argument `sort_field` expects const int or string, got ");
                    let s = s.concat(pine_type_name(field_type).as_str());
                    push_error(diagnostics, "E_CALL_ARG_TYPE", s, arg.span);
                }
            }
        }
    }
    let ghost d3 = diags_view(diagnostics@);
    assert(d3 =~= d2 + spec_sort_field_type_diags(name@, args@, arg_types@));
    if sort_field_index.is_none() {
        let at = match user_type_array_sort_arg(args, 2) {
            Some((_, arg)) => arg.span,
            None => span,
        };
        push_diagnostic(
            diagnostics,
            call_requirement_diagnostic(
                name,
                "a scalar-tree UDT array and a root int, float, or string `sort_field`",
                at,
            ),
        );
    }
    assert(diags_view(diagnostics@) =~= start + spec_user_type_array_sort_call_diags(
        name@,
        span,
        args@,
        arg_types@,
        sort_field_index,
    ));
    if str_eq(name, "array.sort_indices") {
        Some(PineType::new(Qualifier::Simple, ValueKind::IntArray))
    } else {
        Some(PineType::new(Qualifier::Const, ValueKind::Void))
    }
}

/// The kind of field `index` of the type `udt_name`: a local type's field,
/// or else, where `imported` gives the type's fields, an imported field with
/// a builtin type.
pub open spec fn spec_sort_field_kind_at(
    types: Seq<UserTypeInfo>,
    imported: Option<Seq<ImportedFieldInfo>>,
    udt_name: Seq<char>,
    index: int,
) -> Option<ValueKind> {
    match spec_find_user_type(types, udt_name) {
        Some(k) => if 0 <= index < types[k].fields@.len() {
            Some(types[k].fields@[index].pine_type.kind)
        } else {
            None
        },
        None => match imported {
            Some(fs) => if 0 <= index < fs.len() {
                match fs[index].pine_type {
                    Some(t) => Some(t.kind),
                    None => None,
                }
            } else {
                None
            },
            None => None,
        },
    }
}

/// The position of the first imported field named `name`.
pub open spec fn spec_imported_field_index(fs: Seq<ImportedFieldInfo>, name: Seq<char>, i: int) -> Option<int>
    decreases fs.len() - i,
{
    if i < 0 || i >= fs.len() {
        None
    } else if fs[i].name@ == name {
        Some(i)
    } else {
        spec_imported_field_index(fs, name, i + 1)
    }
}

/// The position and kind of the field named `field_name` of the type
/// `udt_name`: a local type's field, or else an imported field with a
/// builtin type.
pub open spec fn spec_sort_field_named(
    types: Seq<UserTypeInfo>,
    imported: Option<Seq<ImportedFieldInfo>>,
    udt_name: Seq<char>,
    field_name: Seq<char>,
) -> Option<(int, ValueKind)> {
    match spec_user_type_field(types, udt_name, field_name) {
        Some((i, f)) => Some((i, f.pine_type.kind)),
        None => match imported {
            Some(fs) => match spec_imported_field_index(fs, field_name, 0) {
                Some(i) => match fs[i].pine_type {
                    Some(t) => Some((i, t.kind)),
                    None => None,
                },
                None => None,
            },
            None => None,
        },
    }
}

/// The field a sort of a user-defined type array sorts by: `sort_field`
/// (by default the first field) given as a known index or a known field
/// name, where that field is an int, float or string. `array_type_name` is
/// the element type the analysis found for the array argument; `imported`
/// the fields of that type where it is imported.
pub open spec fn spec_sort_field_index(
    args: Seq<CallArg>,
    facts: Seq<ArgFacts>,
    array_type_name: Option<Seq<char>>,
    types: Seq<UserTypeInfo>,
    imported: Option<Seq<ImportedFieldInfo>>,
) -> Option<usize> {
    match (spec_user_type_array_sort_arg_from(args, 0, 0), array_type_name) {
        (Some(_), Some(t)) => {
            let found: Option<(int, ValueKind)> = match spec_user_type_array_sort_arg_from(args, 2, 0) {
                None => match spec_sort_field_kind_at(types, imported, t, 0) {
                    Some(k) => Some((0, k)),
                    None => None,
                },
                Some(i) => match fact_known_int(facts, i) {
                    Some(v) => if 0 <= v && v <= usize::MAX {
                        match spec_sort_field_kind_at(types, imported, t, v as int) {
                            Some(k) => Some((v as int, k)),
                            None => None,
                        }
                    } else {
                        None
                    },
                    None => match fact_known_string(facts, i) {
                        Some(name) => spec_sort_field_named(types, imported, t, name),
                        None => None,
                    },
                },
            };
            match found {
                Some((index, k)) => if k == ValueKind::Int || k == ValueKind::Float || k == ValueKind::String {
                    Some(index as usize)
                } else {
                    None
                },
                None => None,
            }
        },
        _ => None,
    }
}

pub open spec fn opt_fields_view(o: Option<&[ImportedFieldInfo]>) -> Option<Seq<ImportedFieldInfo>> {
    match o {
        Some(fs) => Some(fs@),
        None => None,
    }
}

fn sort_field_kind_at(
    user_types: &[UserTypeInfo],
    imported: Option<&[ImportedFieldInfo]>,
    udt_name: &str,
    index: usize,
) -> (r: Option<ValueKind>)
    ensures
        r == spec_sort_field_kind_at(user_types@, opt_fields_view(imported), udt_name@, index as int),
{
    if let Some(info) = find_user_type(user_types, udt_name) {
        return if index < info.fields.len() {
            Some(info.fields[index].pine_type.kind)
        } else {
            None
        };
    }
    match imported {
        Some(fs) => {
            if index < fs.len() {
                match fs[index].pine_type {
                    Some(t) => Some(t.kind),
                    None => None,
                }
            } else {
                None
            }
        },
        None => None,
    }
}

fn sort_field_named(
    user_types: &[UserTypeInfo],
    imported: Option<&[ImportedFieldInfo]>,
    udt_name: &str,
    field_name: &str,
) -> (r: Option<(usize, ValueKind)>)
    ensures
        match r {
            Some((i, k)) => spec_sort_field_named(user_types@, opt_fields_view(imported), udt_name@, field_name@)
                == Some((i as int, k)),
            None => spec_sort_field_named(user_types@, opt_fields_view(imported), udt_name@, field_name@) is None,
        },
{
    if let Some((index, field)) = user_type_field(user_types, udt_name, field_name) {
        return Some((index, field.pine_type.kind));
    }
    let fs = match imported {
        Some(fs) => fs,
        None => return None,
    };
    let n = fs.len();
    let mut i: usize = 0;
    while i < n
        invariant
            n == fs@.len(),
            i <= n,
            spec_user_type_field(user_types@, udt_name@, field_name@) is None,
            opt_fields_view(imported) == Some(fs@),
            spec_imported_field_index(fs@, field_name@, 0) == spec_imported_field_index(fs@, field_name@, i as int),
        decreases n - i,
    {
        if str_eq(fs[i].name.as_str(), field_name) {
            assert(spec_imported_field_index(fs@, field_name@, i as int) == Some(i as int));
            return match fs[i].pine_type {
                Some(t) => Some((i, t.kind)),
                None => None,
            };
        }
        i = i + 1;
    }
    None
}

/// The index of the field a sort of a user-defined type array sorts by
/// (see `spec_sort_field_index`).
pub fn user_type_array_sort_field_index(
    args: &[CallArg],
    facts: &[ArgFacts],
    array_type_name: Option<&str>,
    user_types: &[UserTypeInfo],
    imported: Option<&[ImportedFieldInfo]>,
) -> (r: Option<usize>)
    ensures
        r == spec_sort_field_index(
            args@,
            facts@,
            crate::arg_facts::opt_str_view(array_type_name),
            user_types@,
            opt_fields_view(imported),
        ),
{
    if user_type_array_sort_arg(args, 0).is_none() {
        return None;
    }
    let t = match array_type_name {
        Some(t) => t,
        None => return None,
    };
    let found: Option<(usize, ValueKind)> = match user_type_array_sort_arg(args, 2) {
        None => match sort_field_kind_at(user_types, imported, t, 0) {
            Some(k) => Some((0, k)),
            None => None,
        },
        Some((i, _)) => match known_int_at(facts, i) {
            Some(v) => {
                if v < 0 || (v as u64) > (usize::MAX as u64) {
                    None
                } else {
                    let index = v as usize;
                    match sort_field_kind_at(user_types, imported, t, index) {
                        Some(k) => Some((index, k)),
                        None => None,
                    }
                }
            },
            None => match known_string_at(facts, i) {
                Some(name) => sort_field_named(user_types, imported, t, name),
                None => None,
            },
        },
    };
    match found {
        Some((index, k)) => {
            if k == ValueKind::Int || k == ValueKind::Float || k == ValueKind::String {
                Some(index)
            } else {
                None
            }
        },
        None => None,
    }
}

} // verus!
