//! The analysis of `map.new<K, V>()` and of the `map.*` operations: their
//! arity, receiver and argument templates, and the type each gives.
use vstd::prelude::*;
use vstd::string::*;

use crate::call_checks::type_at;
use crate::compatibility::{
    feature_uses_view, push_feature_use, unsupported, unsupported_diag, unsupported_view, FeatureUse,
    UnsupportedFeature, UnsupportedView,
};
use crate::maps::{
    accepts_map_scalar_kind, map_kind_from_template_name, spec_accepts_map_scalar_kind,
    spec_map_kind_from_template_name, MapTypeInfo,
};
use crate::strings::{
    decimal, pair_view, spec_decimal, spec_split_once_char, spec_starts_with, split_once_char,
    spec_ends_with, str_eq, strip_prefix, strip_suffix,
};
use crate::syntax::{diags_view, error_view, push_error, CallArg, DiagView, Diagnostic, Span};
use crate::types::{
    spec_array_element_kind, spec_type_debug_label, spec_value_kind_debug_name, type_debug_label,
    value_kind_debug_name, PineType, Qualifier, ValueKind,
};

verus! {

/// The key and value template names of `map.new<K,V>`: the text between
/// `map.new<` and a final `>`, split at its first comma.
pub open spec fn spec_map_new_template_types(name: Seq<char>) -> Option<(Seq<char>, Seq<char>)> {
    if spec_starts_with(name, "map.new<"@) && spec_ends_with(name.skip(8), ">"@) {
        let inner = name.skip(8);
        spec_split_once_char(inner.take(inner.len() - 1), ',')
    } else {
        None
    }
}

pub fn map_new_template_types(name: &str) -> (r: Option<(&str, &str)>)
    ensures
        pair_view(r) == spec_map_new_template_types(name@),
{
    proof {
        reveal_strlit("map.new<");
        reveal_strlit(">");
    }
    let rest = match strip_prefix(name, "map.new<") {
        Some(rest) => rest,
        None => return None,
    };
    let inner = match strip_suffix(rest, ">") {
        Some(inner) => inner,
        None => return None,
    };
    split_once_char(inner, ',')
}

pub open spec fn spec_is_supported_map_scalar_type(name: Seq<char>) -> bool {
    spec_map_kind_from_template_name(name) is Some
}

/// The template names a map key or value may have: int, float, bool,
/// string and color.
pub fn is_supported_map_scalar_type(name: &str) -> (r: bool)
    ensures
        r == spec_is_supported_map_scalar_type(name@),
{
    map_kind_from_template_name(name).is_some()
}

pub open spec fn spec_collection_mutation_udf_reason(operation: Seq<char>) -> Seq<char> {
    "collection mutation via `"@ + operation + "` is not supported inside user-defined functions"@
}

/// Why collection mutation `operation` is refused inside a function.
pub fn unsupported_collection_mutation_udf_reason(operation: &str) -> (r: String)
    ensures
        r@ == spec_collection_mutation_udf_reason(operation@),
{
    let s = String::from_str("collection mutation via `");
    let s = s.concat(operation);
    s.concat("` is not supported inside user-defined functions")
}

pub open spec fn map_new_template_reason() -> Seq<char> {
    "map.new currently supports only int, float, bool, string, or color key/value templates"@
}

/// What a `map.new<K,V>` call gives: with arguments an arity error; with a
/// template other than the map scalars a refusal; else a simple map, recorded
/// as a supported feature, whose expression has the template.
pub open spec fn spec_map_new_result(key_type: Seq<char>, value_type: Seq<char>, n_args: nat) -> Option<PineType> {
    if n_args == 0 && spec_is_supported_map_scalar_type(key_type) && spec_is_supported_map_scalar_type(value_type) {
        Some(PineType { qualifier: Qualifier::Simple, kind: ValueKind::MapValue })
    } else {
        None
    }
}

/// Analyzes `name` (a `map.new<key_type, value_type>` call) with `args`;
/// `expr_map` receives the template of the new map's expression.
pub fn analyze_map_new_call(
    name: &str,
    key_type: &str,
    value_type: &str,
    span: Span,
    args: &[CallArg],
    supported: &mut Vec<FeatureUse>,
    report: &mut Vec<UnsupportedFeature>,
    diagnostics: &mut Vec<Diagnostic>,
    expr_map: &mut Option<MapTypeInfo>,
) -> (r: Option<PineType>)
    ensures
        r == spec_map_new_result(key_type@, value_type@, args@.len()),
        ({
            let templates_ok = spec_is_supported_map_scalar_type(key_type@)
                && spec_is_supported_map_scalar_type(value_type@);
            &&& diags_view(final(diagnostics)@) == diags_view(old(diagnostics)@) + if args@.len() > 0 {
                seq![error_view("E_CALL_ARITY"@, "map.new does not accept arguments in the current subset"@, span)]
            } else if !templates_ok {
                seq![unsupported_diag(name@, map_new_template_reason(), span)]
            } else {
                Seq::<DiagView>::empty()
            }
            &&& unsupported_view(final(report)@) == unsupported_view(old(report)@) + if args@.len() == 0
                && !templates_ok {
                seq![(name@, map_new_template_reason(), span)]
            } else {
                Seq::<UnsupportedView>::empty()
            }
            &&& feature_uses_view(final(supported)@) == feature_uses_view(old(supported)@) + if r is Some {
                seq![("map.*"@, span)]
            } else {
                Seq::empty()
            }
            &&& *final(expr_map) == if r is Some {
                Some(
                    MapTypeInfo {
                        key_kind: spec_map_kind_from_template_name(key_type@).unwrap(),
                        value_kind: spec_map_kind_from_template_name(value_type@).unwrap(),
                    },
                )
            } else {
                *old(expr_map)
            }
        }),
{
    let ghost s0 = feature_uses_view(supported@);
    let ghost r0 = unsupported_view(report@);
    let ghost d0 = diags_view(diagnostics@);
    if args.len() > 0 {
        assert(s0 =~= s0 + Seq::<(Seq<char>, Span)>::empty());
        assert(r0 =~= r0 + Seq::<UnsupportedView>::empty());
        push_error(
            diagnostics,
            "E_CALL_ARITY",
            String::from_str("map.new does not accept arguments in the current subset"),
            span,
        );
        return None;
    }
    let key_kind = map_kind_from_template_name(key_type);
    let value_kind = map_kind_from_template_name(value_type);
    match (key_kind, value_kind) {
        (Some(k), Some(v)) => {
            assert(r0 =~= r0 + Seq::<UnsupportedView>::empty());
            assert(d0 =~= d0 + Seq::<DiagView>::empty());
            push_feature_use(supported, "map.*", span);
            *expr_map = Some(MapTypeInfo { key_kind: k, value_kind: v });
            Some(PineType::new(Qualifier::Simple, ValueKind::MapValue))
        },
        _ => {
            assert(s0 =~= s0 + Seq::<(Seq<char>, Span)>::empty());
            unsupported(
                name,
                "map.new currently supports only int, float, bool, string, or color key/value templates",
                span,
                report,
                diagnostics,
            );
            None
        },
    }
}

/// The number of arguments a `map.*` operation takes, for the operations
/// this analysis knows.
pub open spec fn spec_map_operation_arity(name: Seq<char>) -> Option<nat> {
    if name == "map.put"@ {
        Some(3)
    } else if name == "map.get"@ || name == "map.contains"@ || name == "map.remove"@ || name
        == "map.put_all"@ {
        Some(2)
    } else if name == "map.clear"@ || name == "map.copy"@ || name == "map.size"@ || name
        == "map.keys"@ || name == "map.values"@ {
        Some(1)
    } else {
        None
    }
}

pub open spec fn spec_is_map_mutation(name: Seq<char>) -> bool {
    name == "map.put"@ || name == "map.clear"@ || name == "map.remove"@ || name == "map.put_all"@
}

/// A template whose key and value kinds are map scalars.
pub open spec fn spec_is_map_template(info: MapTypeInfo) -> bool {
    let scalar = |k: ValueKind|
        k == ValueKind::Int || k == ValueKind::Float || k == ValueKind::Bool || k == ValueKind::String
            || k == ValueKind::Color;
    scalar(info.key_kind) && scalar(info.value_kind)
}

/// Whether some array kind has elements of kind `k`.
pub open spec fn has_array_kind(k: ValueKind) -> bool {
    exists|a: ValueKind| spec_array_element_kind(a) == Some(k)
}

/// The keys (values) of a map with template `info` have an array kind,
/// where `name` lists them.
pub open spec fn map_result_has_array_kind(name: Seq<char>, info: MapTypeInfo) -> bool {
    &&& name == "map.keys"@ ==> has_array_kind(info.key_kind)
    &&& name == "map.values"@ ==> has_array_kind(info.value_kind)
}

/// The array kind of elements of kind `k`.
pub open spec fn array_of(k: ValueKind) -> ValueKind {
    choose|a: ValueKind| spec_array_element_kind(a) == Some(k)
}

/// The type a valid map operation gives on a map with template `info`.
pub open spec fn spec_map_operation_type(name: Seq<char>, info: MapTypeInfo) -> PineType {
    if name == "map.get"@ {
        PineType { qualifier: Qualifier::Series, kind: info.value_kind }
    } else if name == "map.contains"@ {
        PineType { qualifier: Qualifier::Series, kind: ValueKind::Bool }
    } else if name == "map.copy"@ {
        PineType { qualifier: Qualifier::Simple, kind: ValueKind::MapValue }
    } else if name == "map.size"@ {
        PineType { qualifier: Qualifier::Series, kind: ValueKind::Int }
    } else if name == "map.keys"@ {
        PineType { qualifier: Qualifier::Simple, kind: array_of(info.key_kind) }
    } else if name == "map.values"@ {
        PineType { qualifier: Qualifier::Simple, kind: array_of(info.value_kind) }
    } else {
        PineType { qualifier: Qualifier::Series, kind: ValueKind::Void }
    }
}

/// What a map operation call comes to: its result (`None` when the name is
/// no map operation, `Some(None)` when the call is rejected), what it
/// reports and refuses, whether it records `map.*` as used, and the
/// template its expression gets.
pub struct MapCallOutcome {
    pub result: Option<Option<PineType>>,
    pub diags: Seq<DiagView>,
    pub refusals: Seq<UnsupportedView>,
    pub records_use: bool,
    pub marked: Option<MapTypeInfo>,
}

pub open spec fn rejected(diags: Seq<DiagView>) -> MapCallOutcome {
    MapCallOutcome { result: Some(None), diags, refusals: Seq::empty(), records_use: false, marked: None }
}

pub open spec fn arg_type_error(name: Seq<char>, param: Seq<char>, t: PineType, span: Span) -> DiagView {
    error_view(
        "E_CALL_ARG_TYPE"@,
        "`"@ + name + "` argument `"@ + param + "` does not accept "@ + spec_type_debug_label(t),
        span,
    )
}

pub open spec fn template_mismatch_error(name: Seq<char>, source: MapTypeInfo, target: MapTypeInfo, span: Span) -> DiagView {
    error_view(
        "E_CALL_ARG_TYPE"@,
        "`"@ + name + "` source map template "@ + spec_value_kind_debug_name(source.key_kind) + "/"@
            + spec_value_kind_debug_name(source.value_kind) + " does not match target "@
            + spec_value_kind_debug_name(target.key_kind) + "/"@ + spec_value_kind_debug_name(
            target.value_kind,
        ),
        span,
    )
}

/// Why a `map.put_all` source is rejected, if it is: a source typed other
/// than a map, one of unknown template, or one whose template differs.
pub open spec fn spec_put_all_source_error(
    name: Seq<char>,
    args: Seq<CallArg>,
    arg_types: Seq<Option<PineType>>,
    info: MapTypeInfo,
    source_info: Option<MapTypeInfo>,
) -> Option<Seq<DiagView>> {
    match type_at(arg_types, 1) {
        None => Some(Seq::empty()),
        Some(st) => if st.kind != ValueKind::MapValue {
            Some(seq![arg_type_error(name, "source"@, st, args[1].span)])
        } else {
            match source_info {
                None => Some(
                    seq![
                        error_view(
                            "E_CALL_ARG_TYPE"@,
                            "`"@ + name + "` source map template is not known"@,
                            args[1].span,
                        ),
                    ],
                ),
                Some(si) => if si != info {
                    Some(seq![template_mismatch_error(name, si, info, args[1].span)])
                } else {
                    None
                },
            }
        },
    }
}

/// The key and value checks of a map operation on a map with template `info`.
pub open spec fn spec_key_value_diags(
    name: Seq<char>,
    args: Seq<CallArg>,
    arg_types: Seq<Option<PineType>>,
    info: MapTypeInfo,
) -> Seq<DiagView> {
    (if name == "map.put"@ || name == "map.get"@ || name == "map.contains"@ || name == "map.remove"@ {
        match type_at(arg_types, 1) {
            Some(kt) => if !spec_accepts_map_scalar_kind(info.key_kind, kt) {
                seq![arg_type_error(name, "key"@, kt, args[1].span)]
            } else {
                Seq::empty()
            },
            None => Seq::empty(),
        }
    } else {
        Seq::empty()
    }) + (if name == "map.put"@ {
        match type_at(arg_types, 2) {
            Some(vt) => if !spec_accepts_map_scalar_kind(info.value_kind, vt) {
                seq![arg_type_error(name, "value"@, vt, args[2].span)]
            } else {
                Seq::empty()
            },
            None => Seq::empty(),
        }
    } else {
        Seq::empty()
    })
}

pub open spec fn arity_error(name: Seq<char>, expected: nat, got: nat, span: Span) -> DiagView {
    error_view(
        "E_CALL_ARITY"@,
        "`"@ + name + "` expects "@ + spec_decimal(expected) + " argument(s), got "@ + spec_decimal(got),
        span,
    )
}

/// What a call of map operation `name` comes to, where `receiver_info` and
/// `source_info` are the templates the analysis knows of the first two
/// arguments and `function_depth` how deep in user-defined functions the
/// call stands.
pub open spec fn spec_map_operation_outcome(
    name: Seq<char>,
    span: Span,
    args: Seq<CallArg>,
    arg_types: Seq<Option<PineType>>,
    function_depth: nat,
    receiver_info: Option<MapTypeInfo>,
    source_info: Option<MapTypeInfo>,
) -> MapCallOutcome {
    match spec_map_operation_arity(name) {
        None => MapCallOutcome {
            result: None,
            diags: Seq::empty(),
            refusals: Seq::empty(),
            records_use: false,
            marked: None,
        },
        Some(n) => if args.len() != n {
            rejected(
                seq![arity_error(name, n, args.len(), if args.len() > n { args[n as int].span } else { span })],
            )
        } else if spec_is_map_mutation(name) && function_depth > 0 {
            MapCallOutcome {
                result: Some(None),
                diags: seq![
                    unsupported_diag("function_side_effect"@, spec_collection_mutation_udf_reason(name), span),
                ],
                refusals: seq![("function_side_effect"@, spec_collection_mutation_udf_reason(name), span)],
                records_use: false,
                marked: None,
            }
        } else {
            match type_at(arg_types, 0) {
                None => rejected(Seq::empty()),
                Some(rt) => if rt.kind != ValueKind::MapValue {
                    rejected(seq![arg_type_error(name, "id"@, rt, args[0].span)])
                } else {
                    match receiver_info {
                        None => rejected(
                            seq![
                                error_view(
                                    "E_CALL_ARG_TYPE"@,
                                    "`"@ + name + "` receiver map template is not known"@,
                                    args[0].span,
                                ),
                            ],
                        ),
                        Some(info) => match (if name == "map.put_all"@ {
                            spec_put_all_source_error(name, args, arg_types, info, source_info)
                        } else {
                            None
                        }) {
                            Some(diags) => rejected(diags),
                            None => MapCallOutcome {
                                result: Some(Some(spec_map_operation_type(name, info))),
                                diags: spec_key_value_diags(name, args, arg_types, info),
                                refusals: Seq::empty(),
                                records_use: true,
                                marked: if name == "map.copy"@ {
                                    Some(info)
                                } else {
                                    None
                                },
                            },
                        },
                    }
                },
            }
        },
    }
}

fn map_operation_arity(name: &str) -> (r: Option<usize>)
    ensures
        match r {
            Some(n) => spec_map_operation_arity(name@) == Some(n as nat),
            None => spec_map_operation_arity(name@) is None,
        },
{
    if str_eq(name, "map.put") {
        Some(3)
    } else if str_eq(name, "map.get") || str_eq(name, "map.contains") || str_eq(name, "map.remove")
        || str_eq(name, "map.put_all") {
        Some(2)
    } else if str_eq(name, "map.clear") || str_eq(name, "map.copy") || str_eq(name, "map.size")
        || str_eq(name, "map.keys") || str_eq(name, "map.values") {
        Some(1)
    } else {
        None
    }
}

fn arg_type_at(arg_types: &[Option<PineType>], i: usize) -> (r: Option<PineType>)
    ensures
        r == type_at(arg_types@, i as int),
{
    if i < arg_types.len() {
        arg_types[i]
    } else {
        None
    }
}

fn push_arg_type_error(diagnostics: &mut Vec<Diagnostic>, name: &str, param: &str, t: PineType, span: Span)
    ensures
        diags_view(final(diagnostics)@) == diags_view(old(diagnostics)@) + seq![
            arg_type_error(name@, param@, t, span),
        ],
{
    let s = String::from_str("`");
    let s = s.concat(name);
    let s = s.concat("` argument `");
    let s = s.concat(param);
    let s = s.concat("` does not accept ");
    let s = s.concat(type_debug_label(t).as_str());
    push_error(diagnostics, "E_CALL_ARG_TYPE", s, span);
}

fn push_template_error(diagnostics: &mut Vec<Diagnostic>, name: &str, what: &str, span: Span)
    ensures
        diags_view(final(diagnostics)@) == diags_view(old(diagnostics)@) + seq![
            error_view("E_CALL_ARG_TYPE"@, "`"@ + name@ + what@, span),
        ],
{
    let s = String::from_str("`");
    let s = s.concat(name);
    let s = s.concat(what);
    push_error(diagnostics, "E_CALL_ARG_TYPE", s, span);
}

/// Checks the source of `map.put_all`; `false` when it is rejected.
fn check_put_all_source(
    name: &str,
    args: &[CallArg],
    arg_types: &[Option<PineType>],
    info: MapTypeInfo,
    source_info: Option<MapTypeInfo>,
    diagnostics: &mut Vec<Diagnostic>,
) -> (r: bool)
    requires
        args@.len() == 2,
    ensures
        r == spec_put_all_source_error(name@, args@, arg_types@, info, source_info) is None,
        diags_view(final(diagnostics)@) == diags_view(old(diagnostics)@) + match spec_put_all_source_error(
            name@,
            args@,
            arg_types@,
            info,
            source_info,
        ) {
            Some(d) => d,
            None => Seq::<DiagView>::empty(),
        },
{
    let ghost d0 = diags_view(diagnostics@);
    proof {
        reveal_strlit("` source map template is not known");
    }
    let st = match arg_type_at(arg_types, 1) {
        Some(st) => st,
        None => {
            assert(d0 =~= d0 + Seq::<DiagView>::empty());
            return false;
        },
    };
    if st.kind != ValueKind::MapValue {
        push_arg_type_error(diagnostics, name, "source", st, args[1].span);
        return false;
    }
    let si = match source_info {
        Some(si) => si,
        None => {
            push_template_error(diagnostics, name, "` source map template is not known", args[1].span);
            return false;
        },
    };
    if si != info {
        let s = String::from_str("`");
        let s = s.concat(name);
        let s = s.concat("` source map template ");
        let s = s.concat(value_kind_debug_name(si.key_kind));
        let s = s.concat("/");
        let s = s.concat(value_kind_debug_name(si.value_kind));
        let s = s.concat(" does not match target ");
        let s = s.concat(value_kind_debug_name(info.key_kind));
        let s = s.concat("/");
        let s = s.concat(value_kind_debug_name(info.value_kind));
        push_error(diagnostics, "E_CALL_ARG_TYPE", s, args[1].span);
        return false;
    }
    assert(d0 =~= d0 + Seq::<DiagView>::empty());
    true
}

fn check_key_value(
    name: &str,
    args: &[CallArg],
    arg_types: &[Option<PineType>],
    info: MapTypeInfo,
    diagnostics: &mut Vec<Diagnostic>,
)
    requires
        spec_map_operation_arity(name@) == Some(args@.len()),
    ensures
        diags_view(final(diagnostics)@) == diags_view(old(diagnostics)@) + spec_key_value_diags(
            name@,
            args@,
            arg_types@,
            info,
        ),
{
    let ghost d0 = diags_view(diagnostics@);
    if str_eq(name, "map.put") || str_eq(name, "map.get") || str_eq(name, "map.contains") || str_eq(
        name,
        "map.remove",
    ) {
        match arg_type_at(arg_types, 1) {
            Some(kt) => {
                if !accepts_map_scalar_kind(info.key_kind, kt) {
                    push_arg_type_error(diagnostics, name, "key", kt, args[1].span);
                }
            },
            None => {},
        }
    }
    let ghost d1 = diags_view(diagnostics@);
    if str_eq(name, "map.put") {
        match arg_type_at(arg_types, 2) {
            Some(vt) => {
                if !accepts_map_scalar_kind(info.value_kind, vt) {
                    push_arg_type_error(diagnostics, name, "value", vt, args[2].span);
                }
            },
            None => {},
        }
    }
    assert(diags_view(diagnostics@) =~= d0 + spec_key_value_diags(name@, args@, arg_types@, info));
}

fn map_operation_type(name: &str, info: MapTypeInfo) -> (r: PineType)
    requires
        map_result_has_array_kind(name@, info),
    ensures
        r == spec_map_operation_type(name@, info),
{
    if str_eq(name, "map.get") {
        PineType::new(Qualifier::Series, info.value_kind)
    } else if str_eq(name, "map.contains") {
        PineType::new(Qualifier::Series, ValueKind::Bool)
    } else if str_eq(name, "map.copy") {
        PineType::new(Qualifier::Simple, ValueKind::MapValue)
    } else if str_eq(name, "map.size") {
        PineType::new(Qualifier::Series, ValueKind::Int)
    } else if str_eq(name, "map.keys") {
        let a = info.key_kind.array_kind_from_element_kind();
        let a = match a {
            Some(a) => a,
            None => {
                assert(spec_array_element_kind(ValueKind::IntArray) == Some(ValueKind::Int));
                assert(spec_array_element_kind(ValueKind::FloatArray) == Some(ValueKind::Float));
                assert(spec_array_element_kind(ValueKind::BoolArray) == Some(ValueKind::Bool));
                assert(spec_array_element_kind(ValueKind::StringArray) == Some(ValueKind::String));
                assert(spec_array_element_kind(ValueKind::ColorArray) == Some(ValueKind::Color));
                ValueKind::Void
            },
        };
        proof {
            lemma_array_of_unique(info.key_kind, a);
        }
        PineType::new(Qualifier::Simple, a)
    } else if str_eq(name, "map.values") {
        let a = info.value_kind.array_kind_from_element_kind();
        let a = match a {
            Some(a) => a,
            None => {
                assert(spec_array_element_kind(ValueKind::IntArray) == Some(ValueKind::Int));
                assert(spec_array_element_kind(ValueKind::FloatArray) == Some(ValueKind::Float));
                assert(spec_array_element_kind(ValueKind::BoolArray) == Some(ValueKind::Bool));
                assert(spec_array_element_kind(ValueKind::StringArray) == Some(ValueKind::String));
                assert(spec_array_element_kind(ValueKind::ColorArray) == Some(ValueKind::Color));
                ValueKind::Void
            },
        };
        proof {
            lemma_array_of_unique(info.value_kind, a);
        }
        PineType::new(Qualifier::Simple, a)
    } else {
        PineType::new(Qualifier::Series, ValueKind::Void)
    }
}

/// An array kind is determined by its element kind.
proof fn lemma_array_of_unique(k: ValueKind, a: ValueKind)
    requires
        spec_array_element_kind(a) == Some(k),
    ensures
        array_of(k) == a,
{
    let c = array_of(k);
    assert(spec_array_element_kind(c) == Some(k));
}

/// Analyzes a call of map operation `name`; `None` when `name` is none
/// (see `spec_map_operation_outcome`). `receiver_info` and `source_info`
/// are the templates the analysis knows of the first two arguments;
/// `expr_map` receives the template of the call's expression where the
/// call gives a map.
pub fn analyze_map_operation_call(
    name: &str,
    span: Span,
    args: &[CallArg],
    arg_types: &[Option<PineType>],
    function_depth: usize,
    receiver_info: Option<MapTypeInfo>,
    source_info: Option<MapTypeInfo>,
    supported: &mut Vec<FeatureUse>,
    report: &mut Vec<UnsupportedFeature>,
    diagnostics: &mut Vec<Diagnostic>,
    expr_map: &mut Option<MapTypeInfo>,
) -> (r: Option<Option<PineType>>)
    requires
        receiver_info matches Some(info) ==> map_result_has_array_kind(name@, info),
    ensures
        ({
            let o = spec_map_operation_outcome(
                name@,
                span,
                args@,
                arg_types@,
                function_depth as nat,
                receiver_info,
                source_info,
            );
            &&& r == o.result
            &&& diags_view(final(diagnostics)@) == diags_view(old(diagnostics)@) + o.diags
            &&& unsupported_view(final(report)@) == unsupported_view(old(report)@) + o.refusals
            &&& feature_uses_view(final(supported)@) == feature_uses_view(old(supported)@) + if o.records_use {
                seq![("map.*"@, span)]
            } else {
                Seq::empty()
            }
            &&& *final(expr_map) == match o.marked {
                Some(info) => Some(info),
                None => *old(expr_map),
            }
        }),
{
    let ghost s0 = feature_uses_view(supported@);
    let ghost r0 = unsupported_view(report@);
    let ghost d0 = diags_view(diagnostics@);
    proof {
        assert(s0 =~= s0 + Seq::<(Seq<char>, Span)>::empty());
        assert(r0 =~= r0 + Seq::<UnsupportedView>::empty());
        assert(d0 =~= d0 + Seq::<DiagView>::empty());
        reveal_strlit("` receiver map template is not known");
    }
    let expected = match map_operation_arity(name) {
        Some(n) => n,
        None => return None,
    };
    if args.len() != expected {
        let at = if args.len() > expected {
            args[expected].span
        } else {
            span
        };
        let s = String::from_str("`");
        let s = s.concat(name);
        let s = s.concat("` expects ");
        let s = s.concat(decimal(expected).as_str());
        let s = s.concat(" argument(s), got ");
        let s = s.concat(decimal(args.len()).as_str());
        push_error(diagnostics, "E_CALL_ARITY", s, at);
        return Some(None);
    }
    if (str_eq(name, "map.put") || str_eq(name, "map.clear") || str_eq(name, "map.remove") || str_eq(
        name,
        "map.put_all",
    )) && function_depth > 0 {
        let reason = unsupported_collection_mutation_udf_reason(name);
        unsupported("function_side_effect", reason.as_str(), span, report, diagnostics);
        return Some(None);
    }
    let receiver_type = match arg_type_at(arg_types, 0) {
        Some(t) => t,
        None => return Some(None),
    };
    if receiver_type.kind != ValueKind::MapValue {
        push_arg_type_error(diagnostics, name, "id", receiver_type, args[0].span);
        return Some(None);
    }
    let info = match receiver_info {
        Some(info) => info,
        None => {
            push_template_error(diagnostics, name, "` receiver map template is not known", args[0].span);
            return Some(None);
        },
    };
    if str_eq(name, "map.put_all") {
        proof {
            reveal_strlit("map.put");
            reveal_strlit("map.put_all");
        }
        if !check_put_all_source(name, args, arg_types, info, source_info, diagnostics) {
            return Some(None);
        }
    }
    check_key_value(name, args, arg_types, info, diagnostics);
    push_feature_use(supported, "map.*", span);
    if str_eq(name, "map.copy") {
        *expr_map = Some(info);
    }
    Some(Some(map_operation_type(name, info)))
}

} // verus!
