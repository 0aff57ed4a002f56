//! Fields of `chart.point` values.
use vstd::prelude::*;

use vstd::string::*;

use crate::strings::str_eq;
use crate::syntax::{diags_view, error_view, push_error, DiagView, Diagnostic, Span};
use crate::types::{PineType, ValueKind};

verus! {

/// `time` and `index` are ints and `price` is a float, qualified like the point.
pub open spec fn spec_chart_point_field_type(receiver: PineType, field: Seq<char>) -> Option<PineType> {
    if field == "time"@ || field == "index"@ {
        Some(PineType { qualifier: receiver.qualifier, kind: ValueKind::Int })
    } else if field == "price"@ {
        Some(PineType { qualifier: receiver.qualifier, kind: ValueKind::Float })
    } else {
        None
    }
}

pub fn chart_point_field_type(receiver_type: PineType, field_name: &str) -> (r: Option<PineType>)
    ensures
        r == spec_chart_point_field_type(receiver_type, field_name@),
{
    let kind = if str_eq(field_name, "time") || str_eq(field_name, "index") {
        ValueKind::Int
    } else if str_eq(field_name, "price") {
        ValueKind::Float
    } else {
        return None;
    };
    Some(PineType::new(receiver_type.qualifier, kind))
}

pub open spec fn spec_chart_point_field_index(field: Seq<char>) -> Option<usize> {
    if field == "time"@ {
        Some(0)
    } else if field == "index"@ {
        Some(1)
    } else if field == "price"@ {
        Some(2)
    } else {
        None
    }
}

/// The storage slot of a `chart.point` field.
pub fn chart_point_field_index(field_name: &str) -> (r: Option<usize>)
    ensures
        r == spec_chart_point_field_index(field_name@),
{
    if str_eq(field_name, "time") {
        Some(0)
    } else if str_eq(field_name, "index") {
        Some(1)
    } else if str_eq(field_name, "price") {
        Some(2)
    } else {
        None
    }
}

/// The type of the field access `parts` (`point.field`) on a receiver of
/// type `receiver_type` (as the analysis resolved `parts[0]`): a field of a
/// `chart.point`, or `None`.
pub open spec fn spec_chart_point_access_type(parts: Seq<Seq<char>>, receiver_type: Option<PineType>) -> Option<PineType> {
    if parts.len() != 2 {
        None
    } else {
        match receiver_type {
            Some(t) => if t.kind == ValueKind::ChartPoint {
                spec_chart_point_field_type(t, parts[1])
            } else {
                None
            },
            None => None,
        }
    }
}

/// The type of a `chart.point` field access (see `spec_chart_point_access_type`).
pub fn type_of_chart_point_field_access(parts: &[String], receiver_type: Option<PineType>) -> (r: Option<PineType>)
    ensures
        r == spec_chart_point_access_type(parts@.map_values(|p: String| p@), receiver_type),
{
    if parts.len() != 2 {
        return None;
    }
    let t = match receiver_type {
        Some(t) => t,
        None => return None,
    };
    if t.kind != ValueKind::ChartPoint {
        return None;
    }
    chart_point_field_type(t, parts[1].as_str())
}

pub open spec fn is_chart_point(t: Option<PineType>) -> bool {
    match t {
        Some(t) => t.kind == ValueKind::ChartPoint,
        None => false,
    }
}

/// The receiver name and field slot of a `chart.point` field access
/// (`point.field`), for lowering.
pub fn chart_point_field_access_for_lowering(parts: &[String], receiver_type: Option<PineType>) -> (r: Option<
    (String, usize),
>)
    ensures
        match r {
            Some((receiver, index)) => parts@.len() == 2 && is_chart_point(receiver_type) && receiver@
                == parts@[0]@ && spec_chart_point_field_index(parts@[1]@) == Some(index),
            None => !(parts@.len() == 2 && is_chart_point(receiver_type) && spec_chart_point_field_index(
                parts@[1]@,
            ) is Some),
        },
{
    if parts.len() != 2 {
        return None;
    }
    let t = match receiver_type {
        Some(t) => t,
        None => return None,
    };
    if t.kind != ValueKind::ChartPoint {
        return None;
    }
    match chart_point_field_index(parts[1].as_str()) {
        Some(index) => Some((parts[0].clone(), index)),
        None => None,
    }
}

/// The type a `chart.point` field gets when assigned: the field's type on a
/// `chart.point` receiver (`receiver_type`, as the analysis resolved the
/// receiver); an unknown field is reported at `span`.
pub fn resolve_chart_point_field_mutation(
    receiver_type: Option<PineType>,
    field_name: &str,
    span: Span,
    diagnostics: &mut Vec<Diagnostic>,
) -> (r: Option<PineType>)
    ensures
        ({
            let point = is_chart_point(receiver_type);
            &&& r == if point {
                spec_chart_point_field_type(receiver_type.unwrap(), field_name@)
            } else {
                None
            }
            &&& diags_view(final(diagnostics)@) == diags_view(old(diagnostics)@) + if point
                && spec_chart_point_field_type(receiver_type.unwrap(), field_name@) is None {
                seq![
                    error_view(
                        "E_CHART_POINT_UNKNOWN_FIELD"@,
                        "unknown field `"@ + field_name@ + "` on `chart.point`"@,
                        span,
                    ),
                ]
            } else {
                Seq::<DiagView>::empty()
            }
        }),
{
    let t = match receiver_type {
        Some(t) => t,
        None => {
            assert(diags_view(diagnostics@) =~= diags_view(diagnostics@) + Seq::<DiagView>::empty());
            return None;
        },
    };
    if t.kind != ValueKind::ChartPoint {
        assert(diags_view(diagnostics@) =~= diags_view(diagnostics@) + Seq::<DiagView>::empty());
        return None;
    }
    match chart_point_field_type(t, field_name) {
        Some(field_type) => {
            assert(diags_view(diagnostics@) =~= diags_view(diagnostics@) + Seq::<DiagView>::empty());
            Some(field_type)
        },
        None => {
            let s = String::from_str("unknown field `");
            let s = s.concat(field_name);
            let s = s.concat("` on `chart.point`");
            push_error(diagnostics, "E_CHART_POINT_UNKNOWN_FIELD", s, span);
            None
        },
    }
}

} // verus!
