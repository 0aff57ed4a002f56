//! Iterables of `for...in` loops.
use vstd::prelude::*;

use crate::types::ValueKind;

verus! {

pub open spec fn spec_supports_index_value_for_in(kind: ValueKind) -> bool {
    kind == ValueKind::IntArray || kind == ValueKind::FloatArray || kind == ValueKind::BoolArray
        || kind == ValueKind::StringArray || kind == ValueKind::ColorArray || kind
        == ValueKind::LabelArray || kind == ValueKind::LineArray || kind == ValueKind::LineFillArray
        || kind == ValueKind::PolylineArray || kind == ValueKind::BoxArray || kind
        == ValueKind::TableArray || kind == ValueKind::ChartPointArray || kind
        == ValueKind::UserTypeArray || kind == ValueKind::FloatMatrix || kind == ValueKind::IntMatrix
        || kind == ValueKind::BoolMatrix || kind == ValueKind::StringMatrix || kind
        == ValueKind::ColorMatrix
}

/// The iterables an index/value `for [i, x] in` loop may walk.
pub fn supports_index_value_for_in(iterable_kind: ValueKind) -> (r: bool)
    ensures
        r == spec_supports_index_value_for_in(iterable_kind),
{
    matches!(
        iterable_kind,
        ValueKind::IntArray | ValueKind::FloatArray | ValueKind::BoolArray | ValueKind::StringArray
            | ValueKind::ColorArray | ValueKind::LabelArray | ValueKind::LineArray
            | ValueKind::LineFillArray | ValueKind::PolylineArray | ValueKind::BoxArray
            | ValueKind::TableArray | ValueKind::ChartPointArray | ValueKind::UserTypeArray
            | ValueKind::FloatMatrix | ValueKind::IntMatrix | ValueKind::BoolMatrix
            | ValueKind::StringMatrix | ValueKind::ColorMatrix
    )
}

/// The kind of the loop variable: an array's element, a matrix's row, or a
/// user-defined type element when the array's element type name is known.
pub open spec fn spec_for_in_loop_value_kind(
    iterable_kind: ValueKind,
    user_type_array_name: Option<Seq<char>>,
) -> Option<(ValueKind, Option<Seq<char>>)> {
    match iterable_kind {
        ValueKind::IntArray => Some((ValueKind::Int, None)),
        ValueKind::FloatArray => Some((ValueKind::Float, None)),
        ValueKind::BoolArray => Some((ValueKind::Bool, None)),
        ValueKind::StringArray => Some((ValueKind::String, None)),
        ValueKind::ColorArray => Some((ValueKind::Color, None)),
        ValueKind::LabelArray => Some((ValueKind::Label, None)),
        ValueKind::LineArray => Some((ValueKind::Line, None)),
        ValueKind::LineFillArray => Some((ValueKind::LineFill, None)),
        ValueKind::PolylineArray => Some((ValueKind::Polyline, None)),
        ValueKind::BoxArray => Some((ValueKind::Box, None)),
        ValueKind::TableArray => Some((ValueKind::Table, None)),
        ValueKind::ChartPointArray => Some((ValueKind::ChartPoint, None)),
        ValueKind::FloatMatrix => Some((ValueKind::FloatArray, None)),
        ValueKind::IntMatrix => Some((ValueKind::IntArray, None)),
        ValueKind::BoolMatrix => Some((ValueKind::BoolArray, None)),
        ValueKind::StringMatrix => Some((ValueKind::StringArray, None)),
        ValueKind::ColorMatrix => Some((ValueKind::ColorArray, None)),
        ValueKind::UserTypeArray => match user_type_array_name {
            Some(n) => Some((ValueKind::UserType, Some(n))),
            None => None,
        },
        _ => None,
    }
}

pub open spec fn loop_value_view(r: Option<(ValueKind, Option<String>)>) -> Option<
    (ValueKind, Option<Seq<char>>),
> {
    match r {
        Some((k, n)) => Some((k, crate::strings::opt_string_view(n))),
        None => None,
    }
}

/// `user_type_array_name` is the element type name recorded for the iterable
/// expression, when it is a user-defined type array.
pub fn for_in_loop_value_kind(iterable_kind: ValueKind, user_type_array_name: Option<String>) -> (r:
    Option<(ValueKind, Option<String>)>)
    ensures
        loop_value_view(r) == spec_for_in_loop_value_kind(
            iterable_kind,
            crate::strings::opt_string_view(user_type_array_name),
        ),
{
    match iterable_kind {
        ValueKind::IntArray => Some((ValueKind::Int, None)),
        ValueKind::FloatArray => Some((ValueKind::Float, None)),
        ValueKind::BoolArray => Some((ValueKind::Bool, None)),
        ValueKind::StringArray => Some((ValueKind::String, None)),
        ValueKind::ColorArray => Some((ValueKind::Color, None)),
        ValueKind::LabelArray => Some((ValueKind::Label, None)),
        ValueKind::LineArray => Some((ValueKind::Line, None)),
        ValueKind::LineFillArray => Some((ValueKind::LineFill, None)),
        ValueKind::PolylineArray => Some((ValueKind::Polyline, None)),
        ValueKind::BoxArray => Some((ValueKind::Box, None)),
        ValueKind::TableArray => Some((ValueKind::Table, None)),
        ValueKind::ChartPointArray => Some((ValueKind::ChartPoint, None)),
        ValueKind::FloatMatrix => Some((ValueKind::FloatArray, None)),
        ValueKind::IntMatrix => Some((ValueKind::IntArray, None)),
        ValueKind::BoolMatrix => Some((ValueKind::BoolArray, None)),
        ValueKind::StringMatrix => Some((ValueKind::StringArray, None)),
        ValueKind::ColorMatrix => Some((ValueKind::ColorArray, None)),
        ValueKind::UserTypeArray => match user_type_array_name {
            Some(n) => Some((ValueKind::UserType, Some(n))),
            None => None,
        },
        _ => None,
    }
}

} // verus!
