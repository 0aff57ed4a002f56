//! Labels and messages of `array.*` argument checks.
use vstd::prelude::*;
use vstd::string::*;

use crate::strings::{join, spec_join, strings_view};
use crate::types::{pine_type_name, spec_pine_type_name, PineType, ValueKind};
use crate::user_types::{InferenceView, UserTypeArrayElementInference};

verus! {

/// The argument types of an `array.from` call listed as `a, b and c`; `None`
/// when a type is unknown or there are no arguments.
pub open spec fn spec_array_from_actual_arg_labels(ts: Seq<Option<PineType>>) -> Option<Seq<char>> {
    if exists|i: int| 0 <= i < ts.len() && #[trigger] ts[i] is None {
        None
    } else {
        let labels = Seq::new(ts.len(), |i: int| spec_pine_type_name(ts[i].unwrap()));
        if labels.len() == 0 {
            None
        } else if labels.len() == 1 {
            Some(labels[0])
        } else {
            Some(spec_join(labels.drop_last(), ", "@) + " and "@ + labels.last())
        }
    }
}

pub fn array_from_actual_arg_labels(arg_types: &[Option<PineType>]) -> (r: Option<String>)
    ensures
        crate::strings::opt_string_view(r) == spec_array_from_actual_arg_labels(arg_types@),
{
    let ghost ts = arg_types@;
    let ghost all = Seq::new(ts.len(), |i: int| spec_pine_type_name(ts[i].unwrap()));
    let n = arg_types.len();
    let mut labels: Vec<String> = Vec::new();
    let mut i: usize = 0;
    while i < n
        invariant
            n == ts.len(),
            ts == arg_types@,
            all == Seq::new(ts.len(), |i: int| spec_pine_type_name(ts[i].unwrap())),
            i <= n,
            labels@.len() == i,
            forall|j: int| 0 <= j < i ==> ts[j] is Some,
            forall|j: int| 0 <= j < i ==> #[trigger] labels@[j]@ == all[j],
        decreases n - i,
    {
        match arg_types[i] {
            Some(t) => labels.push(pine_type_name(t)),
            None => {
                assert(ts[i as int] is None);
                return None;
            },
        }
        i = i + 1;
    }
    if n == 0 {
        return None;
    }
    if n == 1 {
        let only = labels.pop().unwrap();
        return Some(only);
    }
    let tail = labels.pop().unwrap();
    assert(strings_view(labels@) =~= all.drop_last());
    let head = join(&labels, ", ");
    let s = head.concat(" and ");
    Some(s.concat(tail.as_str()))
}

pub open spec fn spec_array_from_user_type_inference_message(inference: InferenceView) -> Seq<char> {
    match inference {
        InferenceView::MixedLocal => "`array.from` expects one scalar-tree UDT identity, got mixed UDT identities"@,
        InferenceView::UnsupportedFieldType(udt_name) => "`array.from` does not support UDT array `"@
            + udt_name + "` with non-scalar fields"@,
        _ => "`array.from` expects supported scalar-tree UDT values"@,
    }
}

/// The diagnostic message for an `array.from` call whose user-defined type
/// elements cannot form an array; supported inferences have no message.
pub fn array_from_user_type_inference_message(inference: &UserTypeArrayElementInference) -> (r:
    String)
    requires
        !(inference.view() is SameScalarLocal),
        !(inference.view() is SameScalarImported),
    ensures
        r@ == spec_array_from_user_type_inference_message(inference.view()),
{
    match inference {
        UserTypeArrayElementInference::MixedLocal => String::from_str(
            "`array.from` expects one scalar-tree UDT identity, got mixed UDT identities",
        ),
        UserTypeArrayElementInference::UnsupportedFieldType(udt_name) => {
            let s = String::from_str("`array.from` does not support UDT array `");
            let s = s.concat(udt_name.as_str());
            s.concat("` with non-scalar fields")
        },
        _ => String::from_str("`array.from` expects supported scalar-tree UDT values"),
    }
}

pub open spec fn spec_array_element_expected_label(kind: ValueKind) -> Option<Seq<char>> {
    match kind {
        ValueKind::Float => Some("numeric-compatible"@),
        ValueKind::Int => Some("integer-compatible"@),
        ValueKind::Bool => Some("bool-compatible"@),
        ValueKind::String => Some("string-compatible"@),
        ValueKind::Color => Some("color-compatible"@),
        ValueKind::Label => Some("label-compatible"@),
        ValueKind::Line => Some("line-compatible"@),
        ValueKind::LineFill => Some("linefill-compatible"@),
        ValueKind::Polyline => Some("polyline-compatible"@),
        ValueKind::Box => Some("box-compatible"@),
        ValueKind::Table => Some("table-compatible"@),
        ValueKind::ChartPoint => Some("chart.point-compatible"@),
        _ => None,
    }
}

/// What an element of an array of `element_kind` must be compatible with.
pub fn array_element_expected_label(element_kind: ValueKind) -> (r: Option<&'static str>)
    ensures
        crate::declarations::opt_static_view(r) == spec_array_element_expected_label(element_kind),
{
    match element_kind {
        ValueKind::Float => Some("numeric-compatible"),
        ValueKind::Int => Some("integer-compatible"),
        ValueKind::Bool => Some("bool-compatible"),
        ValueKind::String => Some("string-compatible"),
        ValueKind::Color => Some("color-compatible"),
        ValueKind::Label => Some("label-compatible"),
        ValueKind::Line => Some("line-compatible"),
        ValueKind::LineFill => Some("linefill-compatible"),
        ValueKind::Polyline => Some("polyline-compatible"),
        ValueKind::Box => Some("box-compatible"),
        ValueKind::Table => Some("table-compatible"),
        ValueKind::ChartPoint => Some("chart.point-compatible"),
        _ => None,
    }
}

} // verus!
