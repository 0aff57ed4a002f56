//! Typed declarations, `varip` support and reassignment result types.
use vstd::prelude::*;
use vstd::string::*;

use crate::types::{
    common_kind, is_scalar_array_kind, spec_array_element_kind, spec_common_kind,
    spec_is_scalar_array_kind, spec_strongest_qualifier, strongest_qualifier, PineType, ValueKind,
};
use crate::unsupported::{
    VARIP_UDT_ARRAY_UNSUPPORTED_REASON, VARIP_UDT_UNSUPPORTED_REASON, VARIP_VALUE_UNSUPPORTED_REASON,
};

verus! {

pub open spec fn spec_is_supported_varip_array(kind: ValueKind) -> bool {
    spec_is_scalar_array_kind(kind) || kind == ValueKind::ChartPointArray || kind
        == ValueKind::UserTypeArray
}

/// The array kinds a `varip` declaration may hold.
pub fn is_supported_varip_array(kind: ValueKind) -> (r: bool)
    ensures
        r == spec_is_supported_varip_array(kind),
{
    is_scalar_array_kind(kind) || matches!(kind, ValueKind::ChartPointArray | ValueKind::UserTypeArray)
}

pub open spec fn spec_is_supported_varip_value(kind: ValueKind) -> bool {
    kind == ValueKind::Int || kind == ValueKind::Float || kind == ValueKind::Bool || kind
        == ValueKind::String || kind == ValueKind::Color || kind == ValueKind::ChartPoint || kind
        == ValueKind::MapValue || kind == ValueKind::FloatMatrix || kind == ValueKind::IntMatrix
        || kind == ValueKind::BoolMatrix || kind == ValueKind::StringMatrix || kind
        == ValueKind::ColorMatrix || kind == ValueKind::Na || spec_is_supported_varip_array(kind)
}

/// The value kinds a `varip` declaration may hold.
pub fn is_supported_varip_value(kind: ValueKind) -> (r: bool)
    ensures
        r == spec_is_supported_varip_value(kind),
{
    matches!(
        kind,
        ValueKind::Int | ValueKind::Float | ValueKind::Bool | ValueKind::String | ValueKind::Color
            | ValueKind::ChartPoint | ValueKind::MapValue | ValueKind::FloatMatrix
            | ValueKind::IntMatrix | ValueKind::BoolMatrix | ValueKind::StringMatrix
            | ValueKind::ColorMatrix | ValueKind::Na
    ) || is_supported_varip_array(kind)
}

pub open spec fn spec_unsupported_varip_value_reason(kind: ValueKind) -> Seq<char> {
    match kind {
        ValueKind::UserType => VARIP_UDT_UNSUPPORTED_REASON@,
        ValueKind::UserTypeArray => VARIP_UDT_ARRAY_UNSUPPORTED_REASON@,
        _ => VARIP_VALUE_UNSUPPORTED_REASON@,
    }
}

/// Why a `varip` value of this kind is refused.
pub fn unsupported_varip_value_reason(kind: ValueKind) -> (r: &'static str)
    ensures
        r@ == spec_unsupported_varip_value_reason(kind),
{
    match kind {
        ValueKind::UserType => VARIP_UDT_UNSUPPORTED_REASON,
        ValueKind::UserTypeArray => VARIP_UDT_ARRAY_UNSUPPORTED_REASON,
        _ => VARIP_VALUE_UNSUPPORTED_REASON,
    }
}

pub open spec fn spec_typed_value_kind_name(kind: ValueKind) -> Option<Seq<char>> {
    match kind {
        ValueKind::Int => Some("int"@),
        ValueKind::Float => Some("float"@),
        ValueKind::Bool => Some("bool"@),
        ValueKind::String => Some("string"@),
        ValueKind::Color => Some("color"@),
        ValueKind::Label => Some("label"@),
        ValueKind::Line => Some("line"@),
        ValueKind::LineFill => Some("linefill"@),
        ValueKind::Polyline => Some("polyline"@),
        ValueKind::Box => Some("box"@),
        ValueKind::Table => Some("table"@),
        ValueKind::ChartPoint => Some("chart.point"@),
        ValueKind::FloatMatrix => Some("matrix<float>"@),
        ValueKind::IntMatrix => Some("matrix<int>"@),
        ValueKind::BoolMatrix => Some("matrix<bool>"@),
        ValueKind::StringMatrix => Some("matrix<string>"@),
        ValueKind::ColorMatrix => Some("matrix<color>"@),
        _ => None,
    }
}

pub open spec fn opt_static_view(r: Option<&'static str>) -> Option<Seq<char>> {
    match r {
        Some(s) => Some(s@),
        None => None,
    }
}

/// The type keyword a declaration of this kind is written with.
pub fn typed_value_kind_name(kind: ValueKind) -> (r: Option<&'static str>)
    ensures
        opt_static_view(r) == spec_typed_value_kind_name(kind),
{
    match kind {
        ValueKind::Int => Some("int"),
        ValueKind::Float => Some("float"),
        ValueKind::Bool => Some("bool"),
        ValueKind::String => Some("string"),
        ValueKind::Color => Some("color"),
        ValueKind::Label => Some("label"),
        ValueKind::Line => Some("line"),
        ValueKind::LineFill => Some("linefill"),
        ValueKind::Polyline => Some("polyline"),
        ValueKind::Box => Some("box"),
        ValueKind::Table => Some("table"),
        ValueKind::ChartPoint => Some("chart.point"),
        ValueKind::FloatMatrix => Some("matrix<float>"),
        ValueKind::IntMatrix => Some("matrix<int>"),
        ValueKind::BoolMatrix => Some("matrix<bool>"),
        ValueKind::StringMatrix => Some("matrix<string>"),
        ValueKind::ColorMatrix => Some("matrix<color>"),
        _ => None,
    }
}

/// `array<T>` for arrays of a named element type, the type keyword for other
/// named kinds, `typed` otherwise.
pub open spec fn spec_typed_declaration_name(kind: ValueKind) -> Seq<char> {
    match spec_array_element_kind(kind) {
        Some(e) if spec_typed_value_kind_name(e) is Some => "array<"@ + spec_typed_value_kind_name(
            e,
        ).unwrap() + ">"@,
        _ => match spec_typed_value_kind_name(kind) {
            Some(n) => n,
            None => "typed"@,
        },
    }
}

pub fn typed_declaration_name(kind: ValueKind) -> (r: String)
    ensures
        r@ == spec_typed_declaration_name(kind),
{
    if let Some(element_kind) = kind.array_element_kind() {
        if let Some(element_name) = typed_value_kind_name(element_kind) {
            let s = String::from_str("array<");
            let s = s.concat(element_name);
            return s.concat(">");
        }
    }
    match typed_value_kind_name(kind) {
        Some(n) => String::from_str(n),
        None => String::from_str("typed"),
    }
}

pub open spec fn spec_is_drawing_id_value(kind: ValueKind) -> bool {
    kind == ValueKind::Label || kind == ValueKind::Line || kind == ValueKind::LineFill || kind
        == ValueKind::Polyline || kind == ValueKind::Box || kind == ValueKind::Table
}

/// Drawing object ids: label, line, linefill, polyline, box and table.
pub fn is_drawing_id_value(kind: ValueKind) -> (r: bool)
    ensures
        r == spec_is_drawing_id_value(kind),
{
    matches!(
        kind,
        ValueKind::Label | ValueKind::Line | ValueKind::LineFill | ValueKind::Polyline
            | ValueKind::Box | ValueKind::Table
    )
}

/// The type a variable has after `target := value`: the more dynamic
/// qualifier, and the common kind, or the target's kind when there is none.
pub open spec fn spec_reassigned_symbol_type(target: PineType, value: PineType) -> PineType {
    PineType {
        qualifier: spec_strongest_qualifier(target.qualifier, value.qualifier),
        kind: match spec_common_kind(target.kind, value.kind) {
            Some(k) => k,
            None => target.kind,
        },
    }
}

pub fn reassigned_symbol_type(target_type: PineType, value_type: PineType) -> (r: PineType)
    ensures
        r == spec_reassigned_symbol_type(target_type, value_type),
{
    let kind = match common_kind(target_type.kind, value_type.kind) {
        Some(k) => k,
        None => target_type.kind,
    };
    PineType::new(strongest_qualifier(target_type.qualifier, value_type.qualifier), kind)
}

} // verus!
