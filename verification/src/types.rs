//! Value kinds, qualifiers and the acceptance rules that decide which argument
//! types a builtin parameter takes.
use vstd::prelude::*;
use vstd::string::*;

verus! {

/// How far a value is known ahead of execution, from the most static
/// (`Const`) to the most dynamic (`Series`).
#[derive(Clone, Copy, Debug, PartialEq, Eq, Structural, Hash)]
pub enum Qualifier {
    Const,
    Input,
    Simple,
    Series,
}

/// The shape of a value, independent of its qualifier.
#[derive(Clone, Copy, Debug, PartialEq, Eq, Structural, Hash)]
pub enum ValueKind {
    Int,
    Float,
    Bool,
    String,
    Color,
    Na,
    Void,
    Label,
    Line,
    LineFill,
    Polyline,
    Box,
    Table,
    ChartPoint,
    Plot,
    HLine,
    Tuple,
    MapValue,
    UserType,
    UserTypeArray,
    IntArray,
    FloatArray,
    BoolArray,
    StringArray,
    ColorArray,
    LabelArray,
    LineArray,
    LineFillArray,
    PolylineArray,
    BoxArray,
    TableArray,
    ChartPointArray,
    IntMatrix,
    FloatMatrix,
    BoolMatrix,
    StringMatrix,
    ColorMatrix,
}

/// A qualified value type, such as `series float` or `const int`.
#[derive(Clone, Copy, Debug, PartialEq, Eq, Structural, Hash)]
pub struct PineType {
    pub qualifier: Qualifier,
    pub kind: ValueKind,
}

impl PineType {
    pub fn new(qualifier: Qualifier, kind: ValueKind) -> (r: PineType)
        ensures
            r.qualifier == qualifier,
            r.kind == kind,
    {
        PineType { qualifier, kind }
    }
}

/// The rank of a qualifier: `Const` < `Input` < `Simple` < `Series`.
pub open spec fn qualifier_rank(q: Qualifier) -> int {
    match q {
        Qualifier::Const => 0,
        Qualifier::Input => 1,
        Qualifier::Simple => 2,
        Qualifier::Series => 3,
    }
}

pub fn qualifier_rank_exec(q: Qualifier) -> (r: u8)
    ensures
        r == qualifier_rank(q),
{
    match q {
        Qualifier::Const => 0,
        Qualifier::Input => 1,
        Qualifier::Simple => 2,
        Qualifier::Series => 3,
    }
}

pub open spec fn spec_qualifier_at_most(q: Qualifier, bound: Qualifier) -> bool {
    qualifier_rank(q) <= qualifier_rank(bound)
}

/// Whether `q` is no more dynamic than `bound`.
pub fn qualifier_at_most(q: Qualifier, bound: Qualifier) -> (r: bool)
    ensures
        r == spec_qualifier_at_most(q, bound),
{
    qualifier_rank_exec(q) <= qualifier_rank_exec(bound)
}

pub open spec fn spec_strongest_qualifier(a: Qualifier, b: Qualifier) -> Qualifier {
    if qualifier_rank(a) >= qualifier_rank(b) {
        a
    } else {
        b
    }
}

/// The more dynamic of two qualifiers.
pub fn strongest_qualifier(a: Qualifier, b: Qualifier) -> (r: Qualifier)
    ensures
        r == spec_strongest_qualifier(a, b),
{
    if qualifier_rank_exec(a) >= qualifier_rank_exec(b) {
        a
    } else {
        b
    }
}

pub open spec fn spec_qualifier_name(q: Qualifier) -> Seq<char> {
    match q {
        Qualifier::Const => "const"@,
        Qualifier::Input => "input"@,
        Qualifier::Simple => "simple"@,
        Qualifier::Series => "series"@,
    }
}

pub fn qualifier_name(q: Qualifier) -> (r: &'static str)
    ensures
        r@ == spec_qualifier_name(q),
{
    match q {
        Qualifier::Const => "const",
        Qualifier::Input => "input",
        Qualifier::Simple => "simple",
        Qualifier::Series => "series",
    }
}

pub open spec fn spec_value_kind_name(kind: ValueKind) -> Seq<char> {
    match kind {
        ValueKind::Int => "int"@,
        ValueKind::Float => "float"@,
        ValueKind::Bool => "bool"@,
        ValueKind::String => "string"@,
        ValueKind::Color => "color"@,
        ValueKind::Na => "na"@,
        ValueKind::Void => "void"@,
        ValueKind::Label => "label"@,
        ValueKind::Line => "line"@,
        ValueKind::LineFill => "linefill"@,
        ValueKind::Polyline => "polyline"@,
        ValueKind::Box => "box"@,
        ValueKind::Table => "table"@,
        ValueKind::ChartPoint => "chart.point"@,
        ValueKind::Plot => "plot"@,
        ValueKind::HLine => "hline"@,
        ValueKind::Tuple => "tuple"@,
        ValueKind::MapValue => "map"@,
        ValueKind::UserType => "user-defined type"@,
        ValueKind::UserTypeArray => "array<user-defined type>"@,
        ValueKind::IntArray => "array<int>"@,
        ValueKind::FloatArray => "array<float>"@,
        ValueKind::BoolArray => "array<bool>"@,
        ValueKind::StringArray => "array<string>"@,
        ValueKind::ColorArray => "array<color>"@,
        ValueKind::LabelArray => "array<label>"@,
        ValueKind::LineArray => "array<line>"@,
        ValueKind::LineFillArray => "array<linefill>"@,
        ValueKind::PolylineArray => "array<polyline>"@,
        ValueKind::BoxArray => "array<box>"@,
        ValueKind::TableArray => "array<table>"@,
        ValueKind::ChartPointArray => "array<chart.point>"@,
        ValueKind::IntMatrix => "matrix<int>"@,
        ValueKind::FloatMatrix => "matrix<float>"@,
        ValueKind::BoolMatrix => "matrix<bool>"@,
        ValueKind::StringMatrix => "matrix<string>"@,
        ValueKind::ColorMatrix => "matrix<color>"@,
    }
}

/// The surface name of a value kind, as it appears in diagnostics.
pub fn value_kind_name(kind: ValueKind) -> (r: &'static str)
    ensures
        r@ == spec_value_kind_name(kind),
{
    match kind {
        ValueKind::Int => "int",
        ValueKind::Float => "float",
        ValueKind::Bool => "bool",
        ValueKind::String => "string",
        ValueKind::Color => "color",
        ValueKind::Na => "na",
        ValueKind::Void => "void",
        ValueKind::Label => "label",
        ValueKind::Line => "line",
        ValueKind::LineFill => "linefill",
        ValueKind::Polyline => "polyline",
        ValueKind::Box => "box",
        ValueKind::Table => "table",
        ValueKind::ChartPoint => "chart.point",
        ValueKind::Plot => "plot",
        ValueKind::HLine => "hline",
        ValueKind::Tuple => "tuple",
        ValueKind::MapValue => "map",
        ValueKind::UserType => "user-defined type",
        ValueKind::UserTypeArray => "array<user-defined type>",
        ValueKind::IntArray => "array<int>",
        ValueKind::FloatArray => "array<float>",
        ValueKind::BoolArray => "array<bool>",
        ValueKind::StringArray => "array<string>",
        ValueKind::ColorArray => "array<color>",
        ValueKind::LabelArray => "array<label>",
        ValueKind::LineArray => "array<line>",
        ValueKind::LineFillArray => "array<linefill>",
        ValueKind::PolylineArray => "array<polyline>",
        ValueKind::BoxArray => "array<box>",
        ValueKind::TableArray => "array<table>",
        ValueKind::ChartPointArray => "array<chart.point>",
        ValueKind::IntMatrix => "matrix<int>",
        ValueKind::FloatMatrix => "matrix<float>",
        ValueKind::BoolMatrix => "matrix<bool>",
        ValueKind::StringMatrix => "matrix<string>",
        ValueKind::ColorMatrix => "matrix<color>",
    }
}

pub open spec fn spec_pine_type_name(t: PineType) -> Seq<char> {
    spec_qualifier_name(t.qualifier) + " "@ + spec_value_kind_name(t.kind)
}

/// The qualified name of a type, such as `series float`.
pub fn pine_type_name(t: PineType) -> (r: String)
    ensures
        r@ == spec_pine_type_name(t),
{
    let s = String::from_str(qualifier_name(t.qualifier));
    let s = s.concat(" ");
    s.concat(value_kind_name(t.kind))
}

pub open spec fn spec_array_element_kind(kind: ValueKind) -> Option<ValueKind> {
    match kind {
        ValueKind::IntArray => Some(ValueKind::Int),
        ValueKind::FloatArray => Some(ValueKind::Float),
        ValueKind::BoolArray => Some(ValueKind::Bool),
        ValueKind::StringArray => Some(ValueKind::String),
        ValueKind::ColorArray => Some(ValueKind::Color),
        ValueKind::LabelArray => Some(ValueKind::Label),
        ValueKind::LineArray => Some(ValueKind::Line),
        ValueKind::LineFillArray => Some(ValueKind::LineFill),
        ValueKind::PolylineArray => Some(ValueKind::Polyline),
        ValueKind::BoxArray => Some(ValueKind::Box),
        ValueKind::TableArray => Some(ValueKind::Table),
        ValueKind::ChartPointArray => Some(ValueKind::ChartPoint),
        ValueKind::UserTypeArray => Some(ValueKind::UserType),
        _ => None,
    }
}

impl ValueKind {
    /// The element kind of an array kind; `None` for every other kind.
    pub fn array_element_kind(self) -> (r: Option<ValueKind>)
        ensures
            r == spec_array_element_kind(self),
    {
        match self {
            ValueKind::IntArray => Some(ValueKind::Int),
            ValueKind::FloatArray => Some(ValueKind::Float),
            ValueKind::BoolArray => Some(ValueKind::Bool),
            ValueKind::StringArray => Some(ValueKind::String),
            ValueKind::ColorArray => Some(ValueKind::Color),
            ValueKind::LabelArray => Some(ValueKind::Label),
            ValueKind::LineArray => Some(ValueKind::Line),
            ValueKind::LineFillArray => Some(ValueKind::LineFill),
            ValueKind::PolylineArray => Some(ValueKind::Polyline),
            ValueKind::BoxArray => Some(ValueKind::Box),
            ValueKind::TableArray => Some(ValueKind::Table),
            ValueKind::ChartPointArray => Some(ValueKind::ChartPoint),
            ValueKind::UserTypeArray => Some(ValueKind::UserType),
            _ => None,
        }
    }
}

impl ValueKind {
    /// The array kind whose elements are of this kind, if there is one.
    pub fn array_kind_from_element_kind(self) -> (r: Option<ValueKind>)
        ensures
            match r {
                Some(a) => spec_array_element_kind(a) == Some(self),
                None => forall|a: ValueKind| spec_array_element_kind(a) != Some(self),
            },
    {
        match self {
            ValueKind::Int => Some(ValueKind::IntArray),
            ValueKind::Float => Some(ValueKind::FloatArray),
            ValueKind::Bool => Some(ValueKind::BoolArray),
            ValueKind::String => Some(ValueKind::StringArray),
            ValueKind::Color => Some(ValueKind::ColorArray),
            ValueKind::Label => Some(ValueKind::LabelArray),
            ValueKind::Line => Some(ValueKind::LineArray),
            ValueKind::LineFill => Some(ValueKind::LineFillArray),
            ValueKind::Polyline => Some(ValueKind::PolylineArray),
            ValueKind::Box => Some(ValueKind::BoxArray),
            ValueKind::Table => Some(ValueKind::TableArray),
            ValueKind::ChartPoint => Some(ValueKind::ChartPointArray),
            ValueKind::UserType => Some(ValueKind::UserTypeArray),
            _ => None,
        }
    }
}

pub open spec fn spec_is_array_kind(kind: ValueKind) -> bool {
    spec_array_element_kind(kind) is Some
}

pub open spec fn spec_is_scalar_array_kind(kind: ValueKind) -> bool {
    kind == ValueKind::IntArray || kind == ValueKind::FloatArray || kind == ValueKind::BoolArray
        || kind == ValueKind::StringArray || kind == ValueKind::ColorArray
}

/// Arrays whose elements are int, float, bool, string or color.
pub fn is_scalar_array_kind(kind: ValueKind) -> (r: bool)
    ensures
        r == spec_is_scalar_array_kind(kind),
{
    matches!(
        kind,
        ValueKind::IntArray | ValueKind::FloatArray | ValueKind::BoolArray | ValueKind::StringArray
            | ValueKind::ColorArray
    )
}

pub open spec fn spec_matrix_element_kind(kind: ValueKind) -> Option<ValueKind> {
    match kind {
        ValueKind::IntMatrix => Some(ValueKind::Int),
        ValueKind::FloatMatrix => Some(ValueKind::Float),
        ValueKind::BoolMatrix => Some(ValueKind::Bool),
        ValueKind::StringMatrix => Some(ValueKind::String),
        ValueKind::ColorMatrix => Some(ValueKind::Color),
        _ => None,
    }
}

/// The element kind of a matrix kind; `None` for every other kind.
pub fn matrix_element_kind(kind: ValueKind) -> (r: Option<ValueKind>)
    ensures
        r == spec_matrix_element_kind(kind),
{
    match kind {
        ValueKind::IntMatrix => Some(ValueKind::Int),
        ValueKind::FloatMatrix => Some(ValueKind::Float),
        ValueKind::BoolMatrix => Some(ValueKind::Bool),
        ValueKind::StringMatrix => Some(ValueKind::String),
        ValueKind::ColorMatrix => Some(ValueKind::Color),
        _ => None,
    }
}

pub open spec fn spec_is_numeric_matrix_kind(kind: ValueKind) -> bool {
    kind == ValueKind::IntMatrix || kind == ValueKind::FloatMatrix
}

/// `matrix<int>` and `matrix<float>`.
pub fn is_numeric_matrix_kind(kind: ValueKind) -> (r: bool)
    ensures
        r == spec_is_numeric_matrix_kind(kind),
{
    matches!(kind, ValueKind::IntMatrix | ValueKind::FloatMatrix)
}

pub open spec fn spec_common_kind(a: ValueKind, b: ValueKind) -> Option<ValueKind> {
    if a == b {
        Some(a)
    } else if a == ValueKind::Na {
        Some(b)
    } else if b == ValueKind::Na {
        Some(a)
    } else if (a == ValueKind::Int && b == ValueKind::Float) || (a == ValueKind::Float && b
        == ValueKind::Int) {
        Some(ValueKind::Float)
    } else {
        None
    }
}

/// The kind both branches of a conditional can be read as: equal kinds stay,
/// `na` takes the other kind, and `int` widens to `float`.
pub fn common_kind(a: ValueKind, b: ValueKind) -> (r: Option<ValueKind>)
    ensures
        r == spec_common_kind(a, b),
{
    if a == b {
        Some(a)
    } else if a == ValueKind::Na {
        Some(b)
    } else if b == ValueKind::Na {
        Some(a)
    } else if (a == ValueKind::Int && b == ValueKind::Float) || (a == ValueKind::Float && b
        == ValueKind::Int) {
        Some(ValueKind::Float)
    } else {
        None
    }
}

pub open spec fn spec_merge_result_types(current: Option<PineType>, next: PineType) -> Option<
    PineType,
> {
    match current {
        None => Some(next),
        Some(c) => match spec_common_kind(c.kind, next.kind) {
            Some(k) => Some(PineType { qualifier: spec_strongest_qualifier(c.qualifier, next.qualifier), kind: k }),
            None => None,
        },
    }
}

/// Folds one more branch result type into the type accumulated so far.
pub fn merge_result_types(current: Option<PineType>, next: PineType) -> (r: Option<PineType>)
    ensures
        r == spec_merge_result_types(current, next),
{
    match current {
        None => Some(next),
        Some(c) => match common_kind(c.kind, next.kind) {
            Some(k) => Some(PineType::new(strongest_qualifier(c.qualifier, next.qualifier), k)),
            None => None,
        },
    }
}

/// The name diagnostics print for a qualifier in a type error.
pub open spec fn spec_qualifier_debug_name(q: Qualifier) -> Seq<char> {
    match q {
        Qualifier::Const => "Const"@,
        Qualifier::Input => "Input"@,
        Qualifier::Simple => "Simple"@,
        Qualifier::Series => "Series"@,
    }
}

pub fn qualifier_debug_name(q: Qualifier) -> (r: &'static str)
    ensures
        r@ == spec_qualifier_debug_name(q),
{
    match q {
        Qualifier::Const => "Const",
        Qualifier::Input => "Input",
        Qualifier::Simple => "Simple",
        Qualifier::Series => "Series",
    }
}

/// The name diagnostics print for a value kind in a type error.
pub open spec fn spec_value_kind_debug_name(kind: ValueKind) -> Seq<char> {
    match kind {
        ValueKind::Int => "Int"@,
        ValueKind::Float => "Float"@,
        ValueKind::Bool => "Bool"@,
        ValueKind::String => "String"@,
        ValueKind::Color => "Color"@,
        ValueKind::Na => "Na"@,
        ValueKind::Void => "Void"@,
        ValueKind::Label => "Label"@,
        ValueKind::Line => "Line"@,
        ValueKind::LineFill => "LineFill"@,
        ValueKind::Polyline => "Polyline"@,
        ValueKind::Box => "Box"@,
        ValueKind::Table => "Table"@,
        ValueKind::ChartPoint => "ChartPoint"@,
        ValueKind::Plot => "Plot"@,
        ValueKind::HLine => "HLine"@,
        ValueKind::Tuple => "Tuple"@,
        ValueKind::MapValue => "Map"@,
        ValueKind::UserType => "UserType"@,
        ValueKind::UserTypeArray => "UserTypeArray"@,
        ValueKind::IntArray => "IntArray"@,
        ValueKind::FloatArray => "FloatArray"@,
        ValueKind::BoolArray => "BoolArray"@,
        ValueKind::StringArray => "StringArray"@,
        ValueKind::ColorArray => "ColorArray"@,
        ValueKind::LabelArray => "LabelArray"@,
        ValueKind::LineArray => "LineArray"@,
        ValueKind::LineFillArray => "LineFillArray"@,
        ValueKind::PolylineArray => "PolylineArray"@,
        ValueKind::BoxArray => "BoxArray"@,
        ValueKind::TableArray => "TableArray"@,
        ValueKind::ChartPointArray => "ChartPointArray"@,
        ValueKind::IntMatrix => "IntMatrix"@,
        ValueKind::FloatMatrix => "FloatMatrix"@,
        ValueKind::BoolMatrix => "BoolMatrix"@,
        ValueKind::StringMatrix => "StringMatrix"@,
        ValueKind::ColorMatrix => "ColorMatrix"@,
    }
}

pub fn value_kind_debug_name(kind: ValueKind) -> (r: &'static str)
    ensures
        r@ == spec_value_kind_debug_name(kind),
{
    match kind {
        ValueKind::Int => "Int",
        ValueKind::Float => "Float",
        ValueKind::Bool => "Bool",
        ValueKind::String => "String",
        ValueKind::Color => "Color",
        ValueKind::Na => "Na",
        ValueKind::Void => "Void",
        ValueKind::Label => "Label",
        ValueKind::Line => "Line",
        ValueKind::LineFill => "LineFill",
        ValueKind::Polyline => "Polyline",
        ValueKind::Box => "Box",
        ValueKind::Table => "Table",
        ValueKind::ChartPoint => "ChartPoint",
        ValueKind::Plot => "Plot",
        ValueKind::HLine => "HLine",
        ValueKind::Tuple => "Tuple",
        ValueKind::MapValue => "Map",
        ValueKind::UserType => "UserType",
        ValueKind::UserTypeArray => "UserTypeArray",
        ValueKind::IntArray => "IntArray",
        ValueKind::FloatArray => "FloatArray",
        ValueKind::BoolArray => "BoolArray",
        ValueKind::StringArray => "StringArray",
        ValueKind::ColorArray => "ColorArray",
        ValueKind::LabelArray => "LabelArray",
        ValueKind::LineArray => "LineArray",
        ValueKind::LineFillArray => "LineFillArray",
        ValueKind::PolylineArray => "PolylineArray",
        ValueKind::BoxArray => "BoxArray",
        ValueKind::TableArray => "TableArray",
        ValueKind::ChartPointArray => "ChartPointArray",
        ValueKind::IntMatrix => "IntMatrix",
        ValueKind::FloatMatrix => "FloatMatrix",
        ValueKind::BoolMatrix => "BoolMatrix",
        ValueKind::StringMatrix => "StringMatrix",
        ValueKind::ColorMatrix => "ColorMatrix",
    }
}

/// A type as type errors print it: the qualifier's and the kind's names.
pub open spec fn spec_type_debug_label(t: PineType) -> Seq<char> {
    spec_qualifier_debug_name(t.qualifier) + " "@ + spec_value_kind_debug_name(t.kind)
}

pub fn type_debug_label(t: PineType) -> (r: String)
    ensures
        r@ == spec_type_debug_label(t),
{
    let s = String::from_str(qualifier_debug_name(t.qualifier));
    let s = s.concat(" ");
    s.concat(value_kind_debug_name(t.kind))
}

/// Qualifiers are totally ordered from const to series: the order is
/// reflexive, transitive, antisymmetric and total.
pub proof fn lemma_qualifier_order_is_total(a: Qualifier, b: Qualifier, c: Qualifier)
    ensures
        spec_qualifier_at_most(a, a),
        spec_qualifier_at_most(a, b) && spec_qualifier_at_most(b, c) ==> spec_qualifier_at_most(a, c),
        spec_qualifier_at_most(a, b) && spec_qualifier_at_most(b, a) ==> a == b,
        spec_qualifier_at_most(a, b) || spec_qualifier_at_most(b, a),
{
}

/// The strongest of two qualifiers is their least upper bound: it is at
/// least as dynamic as both, no more dynamic than any common bound, and the
/// choice is commutative, associative and idempotent.
pub proof fn lemma_strongest_qualifier_is_least_upper_bound(a: Qualifier, b: Qualifier, c: Qualifier)
    ensures
        spec_qualifier_at_most(a, spec_strongest_qualifier(a, b)),
        spec_qualifier_at_most(b, spec_strongest_qualifier(a, b)),
        spec_qualifier_at_most(a, c) && spec_qualifier_at_most(b, c) ==> spec_qualifier_at_most(
            spec_strongest_qualifier(a, b),
            c,
        ),
        spec_strongest_qualifier(a, b) == spec_strongest_qualifier(b, a),
        spec_strongest_qualifier(spec_strongest_qualifier(a, b), c) == spec_strongest_qualifier(
            a,
            spec_strongest_qualifier(b, c),
        ),
        spec_strongest_qualifier(a, a) == a,
{
}

/// The common kind of two branches does not depend on their order.
pub proof fn lemma_common_kind_is_symmetric(a: ValueKind, b: ValueKind)
    ensures
        spec_common_kind(a, b) == spec_common_kind(b, a),
{
}

/// Merging two branch types gives the same result in either order, and a
/// type merged with itself is unchanged.
pub proof fn lemma_merge_result_types_is_order_independent(a: PineType, b: PineType)
    ensures
        spec_merge_result_types(Some(a), b) == spec_merge_result_types(Some(b), a),
        spec_merge_result_types(Some(a), a) == Some(a),
{
}

/// Where two branch types merge, the merged type is at least as dynamic as
/// each branch.
pub proof fn lemma_merged_type_bounds_each_branch(a: PineType, b: PineType)
    ensures
        spec_merge_result_types(Some(a), b) matches Some(m) ==> spec_qualifier_at_most(
            a.qualifier,
            m.qualifier,
        ) && spec_qualifier_at_most(b.qualifier, m.qualifier),
{
}

} // verus!
