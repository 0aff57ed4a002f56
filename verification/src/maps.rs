//! Map key/value kinds and `na` literals.
use vstd::prelude::*;

use crate::accepts::Accepts;
use crate::strings::str_eq;
use crate::syntax::{Expr, ExprKind};
use crate::types::{qualifier_at_most, spec_qualifier_at_most, PineType, Qualifier, ValueKind};

verus! {

/// An expression that is the bare name `na`.
pub open spec fn spec_is_na_expr(e: Expr) -> bool {
    match e.kind {
        ExprKind::Identifier(name) => name@ == "na"@,
        ExprKind::QualifiedName(parts) => parts@.len() == 1 && parts@[0]@ == "na"@,
        _ => false,
    }
}

pub fn is_na_expr(expr: &Expr) -> (r: bool)
    ensures
        r == spec_is_na_expr(*expr),
{
    match &expr.kind {
        ExprKind::Identifier(name) => str_eq(name.as_str(), "na"),
        ExprKind::QualifiedName(parts) => parts.len() == 1 && str_eq(parts[0].as_str(), "na"),
        _ => false,
    }
}

pub open spec fn spec_map_kind_from_template_name(name: Seq<char>) -> Option<ValueKind> {
    if name == "int"@ {
        Some(ValueKind::Int)
    } else if name == "float"@ {
        Some(ValueKind::Float)
    } else if name == "bool"@ {
        Some(ValueKind::Bool)
    } else if name == "string"@ {
        Some(ValueKind::String)
    } else if name == "color"@ {
        Some(ValueKind::Color)
    } else {
        None
    }
}

/// The value kind a map template argument names.
pub fn map_kind_from_template_name(name: &str) -> (r: Option<ValueKind>)
    ensures
        r == spec_map_kind_from_template_name(name@),
{
    if str_eq(name, "int") {
        Some(ValueKind::Int)
    } else if str_eq(name, "float") {
        Some(ValueKind::Float)
    } else if str_eq(name, "bool") {
        Some(ValueKind::Bool)
    } else if str_eq(name, "string") {
        Some(ValueKind::String)
    } else if str_eq(name, "color") {
        Some(ValueKind::Color)
    } else {
        None
    }
}

/// A map of `expected` keys or values takes a value of that kind or `na`
/// (an `int` for `float`), of any qualifier up to series.
pub open spec fn spec_accepts_map_scalar_kind(expected: ValueKind, actual: PineType) -> bool {
    let k = actual.kind;
    let kind_matches = match expected {
        ValueKind::Float => k == ValueKind::Float || k == ValueKind::Int || k == ValueKind::Na,
        ValueKind::Int => k == ValueKind::Int || k == ValueKind::Na,
        ValueKind::Bool => k == ValueKind::Bool || k == ValueKind::Na,
        ValueKind::String => k == ValueKind::String || k == ValueKind::Na,
        ValueKind::Color => k == ValueKind::Color || k == ValueKind::Na,
        _ => false,
    };
    kind_matches && spec_qualifier_at_most(actual.qualifier, Qualifier::Series)
}

pub fn accepts_map_scalar_kind(expected: ValueKind, actual: PineType) -> (r: bool)
    ensures
        r == spec_accepts_map_scalar_kind(expected, actual),
{
    let k = actual.kind;
    let kind_matches = match expected {
        ValueKind::Float => k == ValueKind::Float || k == ValueKind::Int || k == ValueKind::Na,
        ValueKind::Int => k == ValueKind::Int || k == ValueKind::Na,
        ValueKind::Bool => k == ValueKind::Bool || k == ValueKind::Na,
        ValueKind::String => k == ValueKind::String || k == ValueKind::Na,
        ValueKind::Color => k == ValueKind::Color || k == ValueKind::Na,
        _ => false,
    };
    kind_matches && qualifier_at_most(actual.qualifier, Qualifier::Series)
}

pub open spec fn spec_map_scalar_kind_accepts(expected: ValueKind) -> Option<Accepts> {
    match expected {
        ValueKind::Float => Some(Accepts::NumericCompatible),
        ValueKind::Int => Some(Accepts::IntCompatible),
        ValueKind::Bool => Some(Accepts::BoolCompatible),
        ValueKind::String => Some(Accepts::StringCompatible),
        ValueKind::Color => Some(Accepts::ColorCompatible),
        _ => None,
    }
}

/// The parameter acceptor for a map key or value of kind `expected`.
pub fn map_scalar_kind_accepts(expected: ValueKind) -> (r: Option<Accepts>)
    ensures
        r == spec_map_scalar_kind_accepts(expected),
{
    match expected {
        ValueKind::Float => Some(Accepts::NumericCompatible),
        ValueKind::Int => Some(Accepts::IntCompatible),
        ValueKind::Bool => Some(Accepts::BoolCompatible),
        ValueKind::String => Some(Accepts::StringCompatible),
        ValueKind::Color => Some(Accepts::ColorCompatible),
        _ => None,
    }
}

/// The key and value kinds of a map template.
#[derive(Clone, Copy, Debug, PartialEq, Eq, Structural)]
pub struct MapTypeInfo {
    pub key_kind: ValueKind,
    pub value_kind: ValueKind,
}

pub open spec fn spec_declared_map_type_info(key_type: Seq<char>, value_type: Seq<char>) -> Option<MapTypeInfo> {
    match (spec_map_kind_from_template_name(key_type), spec_map_kind_from_template_name(value_type)) {
        (Some(key_kind), Some(value_kind)) => Some(MapTypeInfo { key_kind, value_kind }),
        _ => None,
    }
}

/// The template of a declared `map<key_type, value_type>`, where both
/// names are map template kinds.
pub fn declared_map_type_info(key_type: &str, value_type: &str) -> (r: Option<MapTypeInfo>)
    ensures
        r == spec_declared_map_type_info(key_type@, value_type@),
{
    let key_kind = match map_kind_from_template_name(key_type) {
        Some(k) => k,
        None => return None,
    };
    let value_kind = match map_kind_from_template_name(value_type) {
        Some(k) => k,
        None => return None,
    };
    Some(MapTypeInfo { key_kind, value_kind })
}

/// What the analysis knows of the map an expression gives: its template,
/// that it is `na`, or nothing.
#[derive(Clone, Copy, Debug, PartialEq, Eq, Structural)]
pub enum MapResultInfo {
    Known(MapTypeInfo),
    Na,
    Unknown,
}

pub open spec fn has_unknown(results: Seq<MapResultInfo>) -> bool {
    exists|i: int| 0 <= i < results.len() && (#[trigger] results[i]) is Unknown
}

/// Two results that give different templates.
pub open spec fn known_differ(x: MapResultInfo, y: MapResultInfo) -> bool {
    match (x, y) {
        (MapResultInfo::Known(a), MapResultInfo::Known(b)) => a != b,
        _ => false,
    }
}

pub open spec fn has_conflict(results: Seq<MapResultInfo>) -> bool {
    exists|i: int, j: int|
        0 <= i < results.len() && 0 <= j < results.len() && known_differ(#[trigger] results[i], #[trigger] results[j])
}

/// Every known result has template `info`.
pub open spec fn all_known_are(results: Seq<MapResultInfo>, info: MapTypeInfo) -> bool {
    forall|i: int| 0 <= i < results.len() && (#[trigger] results[i]) is Known ==> results[i] == MapResultInfo::Known(info)
}

pub open spec fn has_known(results: Seq<MapResultInfo>) -> bool {
    exists|i: int| 0 <= i < results.len() && (#[trigger] results[i]) is Known
}

/// The map several branches give together: unknown when some branch is
/// unknown or two branches give different templates; else the one template
/// the branches give; else `na`.
pub open spec fn is_merged_map_result(results: Seq<MapResultInfo>, r: MapResultInfo) -> bool {
    match r {
        MapResultInfo::Unknown => has_unknown(results) || has_conflict(results),
        MapResultInfo::Na => !has_unknown(results) && !has_known(results),
        MapResultInfo::Known(info) => !has_unknown(results) && has_known(results) && all_known_are(results, info),
    }
}

/// Merges what the branches of a conditional give (see `is_merged_map_result`).
pub fn merge_map_results(results: &[MapResultInfo]) -> (r: MapResultInfo)
    ensures
        is_merged_map_result(results@, r),
{
    let mut resolved: Option<MapTypeInfo> = None;
    let n = results.len();
    let mut i: usize = 0;
    while i < n
        invariant
            n == results@.len(),
            i <= n,
            forall|k: int| 0 <= k < i ==> !((#[trigger] results@[k]) is Unknown),
            match resolved {
                Some(info) => (exists|k: int| 0 <= k < i && (#[trigger] results@[k]) == MapResultInfo::Known(info))
                    && forall|k: int| 0 <= k < i && (#[trigger] results@[k]) is Known ==> results@[k] == MapResultInfo::Known(info),
                None => forall|k: int| 0 <= k < i ==> !((#[trigger] results@[k]) is Known),
            },
        decreases n - i,
    {
        match results[i] {
            MapResultInfo::Known(info) => {
                match resolved {
                    Some(current) => {
                        if current != info {
                            proof {
                                let k = choose|k: int| 0 <= k < i && (#[trigger] results@[k]) == MapResultInfo::Known(current);
                                assert(known_differ(results@[k], results@[i as int]));
                            }
                            return MapResultInfo::Unknown;
                        }
                    },
                    None => {
                        resolved = Some(info);
                    },
                }
            },
            MapResultInfo::Na => {},
            MapResultInfo::Unknown => {
                return MapResultInfo::Unknown;
            },
        }
        i = i + 1;
    }
    match resolved {
        Some(info) => MapResultInfo::Known(info),
        None => MapResultInfo::Na,
    }
}

/// Gives the expression whose branches give `results` their merged template
/// (`expr_map`), where the merge gives one; `true` when it did.
pub fn mark_map_results(results: &[MapResultInfo], expr_map: &mut Option<MapTypeInfo>) -> (r: bool)
    ensures
        exists|m: MapResultInfo| #[trigger] is_merged_map_result(results@, m) && match m {
            MapResultInfo::Known(info) => r && *final(expr_map) == Some(info),
            _ => !r && *final(expr_map) == *old(expr_map),
        },
{
    let merged = merge_map_results(results);
    match merged {
        MapResultInfo::Known(info) => {
            *expr_map = Some(info);
            true
        },
        _ => false,
    }
}

/// The merge of branch results is a function of them: at most one result
/// meets `is_merged_map_result`.
pub proof fn lemma_merged_map_result_is_unique(results: Seq<MapResultInfo>, a: MapResultInfo, b: MapResultInfo)
    requires
        is_merged_map_result(results, a),
        is_merged_map_result(results, b),
    ensures
        a == b,
{
    match (a, b) {
        (MapResultInfo::Known(x), MapResultInfo::Known(y)) => {
            let i = choose|i: int| 0 <= i < results.len() && (#[trigger] results[i]) is Known;
            assert(results[i] == MapResultInfo::Known(x));
            assert(results[i] == MapResultInfo::Known(y));
        },
        (MapResultInfo::Known(x), MapResultInfo::Unknown) => {
            if has_conflict(results) {
                let (i, j) = choose|i: int, j: int|
                    0 <= i < results.len() && 0 <= j < results.len() && known_differ(#[trigger] results[i], #[trigger] results[j]);
                assert(results[i] == MapResultInfo::Known(x));
                assert(results[j] == MapResultInfo::Known(x));
            }
        },
        (MapResultInfo::Unknown, MapResultInfo::Known(y)) => {
            if has_conflict(results) {
                let (i, j) = choose|i: int, j: int|
                    0 <= i < results.len() && 0 <= j < results.len() && known_differ(#[trigger] results[i], #[trigger] results[j]);
                assert(results[i] == MapResultInfo::Known(y));
                assert(results[j] == MapResultInfo::Known(y));
            }
        },
        (MapResultInfo::Na, MapResultInfo::Unknown) => {
            if has_conflict(results) {
                let (i, j) = choose|i: int, j: int|
                    0 <= i < results.len() && 0 <= j < results.len() && known_differ(#[trigger] results[i], #[trigger] results[j]);
                assert(results[i] is Known);
            }
        },
        (MapResultInfo::Unknown, MapResultInfo::Na) => {
            if has_conflict(results) {
                let (i, j) = choose|i: int, j: int|
                    0 <= i < results.len() && 0 <= j < results.len() && known_differ(#[trigger] results[i], #[trigger] results[j]);
                assert(results[i] is Known);
            }
        },
        _ => {},
    }
}

/// Merging decides the same whatever order the branches come in.
pub proof fn lemma_merged_map_result_is_order_independent(
    results: Seq<MapResultInfo>,
    other: Seq<MapResultInfo>,
    r: MapResultInfo,
)
    requires
        results.to_multiset() == other.to_multiset(),
        is_merged_map_result(results, r),
    ensures
        is_merged_map_result(other, r),
{
    results.to_multiset_ensures();
    other.to_multiset_ensures();
    assert forall|x: MapResultInfo| results.contains(x) == other.contains(x) by {
        assert(results.contains(x) <==> results.to_multiset().count(x) > 0);
        assert(other.contains(x) <==> other.to_multiset().count(x) > 0);
    }
    if has_unknown(results) {
        let i = choose|i: int| 0 <= i < results.len() && (#[trigger] results[i]) is Unknown;
        assert(results.contains(results[i]));
        let j = choose|j: int| 0 <= j < other.len() && other[j] == results[i];
        assert(other[j] is Unknown);
    }
    if has_unknown(other) {
        let i = choose|i: int| 0 <= i < other.len() && (#[trigger] other[i]) is Unknown;
        assert(other.contains(other[i]));
        let j = choose|j: int| 0 <= j < results.len() && results[j] == other[i];
        assert(results[j] is Unknown);
    }
    if has_conflict(results) {
        let (i, j) = choose|i: int, j: int|
            0 <= i < results.len() && 0 <= j < results.len() && known_differ(#[trigger] results[i], #[trigger] results[j]);
        assert(results.contains(results[i]));
        assert(results.contains(results[j]));
        let i2 = choose|i2: int| 0 <= i2 < other.len() && other[i2] == results[i];
        let j2 = choose|j2: int| 0 <= j2 < other.len() && other[j2] == results[j];
        assert(known_differ(other[i2], other[j2]));
    }
    if has_known(results) {
        let i = choose|i: int| 0 <= i < results.len() && (#[trigger] results[i]) is Known;
        assert(results.contains(results[i]));
        let j = choose|j: int| 0 <= j < other.len() && other[j] == results[i];
        assert(other[j] is Known);
    }
    if has_known(other) {
        let i = choose|i: int| 0 <= i < other.len() && (#[trigger] other[i]) is Known;
        assert(other.contains(other[i]));
        let j = choose|j: int| 0 <= j < results.len() && results[j] == other[i];
        assert(results[j] is Known);
    }
    match r {
        MapResultInfo::Known(info) => {
            assert forall|i: int| 0 <= i < other.len() && (#[trigger] other[i]) is Known implies other[i]
                == MapResultInfo::Known(info) by {
                assert(other.contains(other[i]));
                let j = choose|j: int| 0 <= j < results.len() && results[j] == other[i];
                assert(results[j] is Known);
            }
        },
        _ => {},
    }
}

} // verus!
