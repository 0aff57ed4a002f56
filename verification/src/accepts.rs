//! Parameter acceptors: which argument types a builtin parameter takes, and
//! the label a diagnostic uses for what was expected.
use vstd::prelude::*;
use vstd::string::*;

use crate::types::{
    is_numeric_matrix_kind, is_scalar_array_kind, matrix_element_kind, qualifier_at_most,
    qualifier_name, qualifier_rank, qualifier_rank_exec, spec_array_element_kind, spec_is_array_kind,
    spec_is_numeric_matrix_kind, spec_is_scalar_array_kind, spec_matrix_element_kind,
    spec_qualifier_at_most, spec_qualifier_name, PineType, Qualifier, ValueKind,
};

verus! {

/// The scalar families that a qualifier-bound acceptor ranges over.
#[derive(Clone, Copy, Debug, PartialEq, Eq, Structural, Hash)]
pub enum ScalarKind {
    Int,
    Float,
    Numeric,
    Bool,
    String,
    Color,
}

/// Whether an argument's qualifier must equal the bound or may be below it.
#[derive(Clone, Copy, Debug, PartialEq, Eq, Structural, Hash)]
pub enum QualifierBound {
    Exact,
    AtMost,
}

/// An acceptor for one scalar family under a qualifier bound; `compatible`
/// also lets `na` through.
#[derive(Clone, Copy, Debug, PartialEq, Eq, Structural, Hash)]
pub struct QualifierBoundScalar {
    pub bound: QualifierBound,
    pub qualifier: Qualifier,
    pub scalar: ScalarKind,
    pub compatible: bool,
}

/// What a builtin parameter accepts.
#[derive(Clone, Copy, Debug, PartialEq, Eq, Structural, Hash)]
pub enum Accepts {
    Exact(PineType),
    Kind(ValueKind),
    SeriesFloat,
    SeriesNumeric,
    SeriesNumericOrBool,
    SeriesOrSimpleNumeric,
    SeriesOrSimpleNumericOrBool,
    Numeric,
    NumericCompatible,
    IntCompatible,
    BoolCompatible,
    StringCompatible,
    StringConvertible,
    CastScalar,
    StringCastScalar,
    ColorCompatible,
    NumericOrColorCompatible,
    LabelCompatible,
    LineCompatible,
    LineFillCompatible,
    PolylineCompatible,
    BoxCompatible,
    TableCompatible,
    ValueWhenSource,
    StringOrIntCompatible,
    ChartPointCompatible,
    PlotOrHLine,
    MapValue,
    Array,
    NumericArray,
    NumericOrBoolArray,
    NumericOrStringArray,
    ScalarArray,
    Matrix,
    NumericMatrix,
    FloatMatrix,
    QualifierBoundScalar(QualifierBoundScalar),
    Tuple,
    InputDefval,
    SimpleInt,
    SimpleIntCompatible,
    SimpleNumeric,
    SimpleBool,
    SimpleString,
    ConstString,
    ConstBool,
    ConstNumeric,
    AtMostInputNumeric,
    AtMostInputInt,
    AtMostInputString,
    AtMostInputBool,
    AtMostInputColor,
    MatrixElementCompatible(usize),
    MatrixElementArray(usize),
    MatrixOrNumericCompatibleWithMatrixCounterpart(usize),
    MatrixOrNumericOrNumericArrayCompatibleWithMatrixCounterpart(usize),
}

impl QualifierBoundScalar {
    /// An acceptor whose argument qualifier must be exactly `qualifier`.
    pub fn exact(qualifier: Qualifier, scalar: ScalarKind, compatible: bool) -> (r: Self)
        ensures
            r == (QualifierBoundScalar { bound: QualifierBound::Exact, qualifier, scalar, compatible }),
    {
        QualifierBoundScalar { bound: QualifierBound::Exact, qualifier, scalar, compatible }
    }

    /// An acceptor whose argument qualifier may be `qualifier` or anything more static.
    pub fn at_most(qualifier: Qualifier, scalar: ScalarKind, compatible: bool) -> (r: Self)
        ensures
            r == (QualifierBoundScalar { bound: QualifierBound::AtMost, qualifier, scalar, compatible }),
    {
        QualifierBoundScalar { bound: QualifierBound::AtMost, qualifier, scalar, compatible }
    }

    /// The label of what this acceptor expects, such as `const/input numeric`.
    pub fn expected_label(self) -> (r: String)
        ensures
            r@ == spec_bound_label(self),
    {
        let q = bound_qualifier_label(self.bound, self.qualifier);
        let s = String::from_str(q);
        let s = s.concat(" ");
        s.concat(scalar_label(self.scalar, self.compatible))
    }
}

pub open spec fn spec_bound_qualifier_label(bound: QualifierBound, q: Qualifier) -> Seq<char> {
    match bound {
        QualifierBound::Exact => spec_qualifier_name(q),
        QualifierBound::AtMost => match q {
            Qualifier::Const => "const"@,
            Qualifier::Input => "const/input"@,
            Qualifier::Simple => "simple"@,
            Qualifier::Series => "series"@,
        },
    }
}

pub fn bound_qualifier_label(bound: QualifierBound, q: Qualifier) -> (r: &'static str)
    ensures
        r@ == spec_bound_qualifier_label(bound, q),
{
    match bound {
        QualifierBound::Exact => qualifier_name(q),
        QualifierBound::AtMost => match q {
            Qualifier::Const => "const",
            Qualifier::Input => "const/input",
            Qualifier::Simple => "simple",
            Qualifier::Series => "series",
        },
    }
}

pub open spec fn spec_scalar_label(scalar: ScalarKind, compatible: bool) -> Seq<char> {
    if compatible {
        match scalar {
            ScalarKind::Int => "integer-compatible"@,
            ScalarKind::Float => "float-compatible"@,
            ScalarKind::Numeric => "numeric-compatible"@,
            ScalarKind::Bool => "bool-compatible"@,
            ScalarKind::String => "string-compatible"@,
            ScalarKind::Color => "color-compatible"@,
        }
    } else {
        match scalar {
            ScalarKind::Int => "int"@,
            ScalarKind::Float => "float"@,
            ScalarKind::Numeric => "numeric"@,
            ScalarKind::Bool => "bool"@,
            ScalarKind::String => "string"@,
            ScalarKind::Color => "color"@,
        }
    }
}

pub fn scalar_label(scalar: ScalarKind, compatible: bool) -> (r: &'static str)
    ensures
        r@ == spec_scalar_label(scalar, compatible),
{
    if compatible {
        match scalar {
            ScalarKind::Int => "integer-compatible",
            ScalarKind::Float => "float-compatible",
            ScalarKind::Numeric => "numeric-compatible",
            ScalarKind::Bool => "bool-compatible",
            ScalarKind::String => "string-compatible",
            ScalarKind::Color => "color-compatible",
        }
    } else {
        match scalar {
            ScalarKind::Int => "int",
            ScalarKind::Float => "float",
            ScalarKind::Numeric => "numeric",
            ScalarKind::Bool => "bool",
            ScalarKind::String => "string",
            ScalarKind::Color => "color",
        }
    }
}

pub open spec fn spec_bound_label(b: QualifierBoundScalar) -> Seq<char> {
    spec_bound_qualifier_label(b.bound, b.qualifier) + " "@ + spec_scalar_label(b.scalar, b.compatible)
}

/// Whether a value kind belongs to a scalar family (`na` only when `compatible`).
pub open spec fn spec_scalar_accepts(scalar: ScalarKind, compatible: bool, kind: ValueKind) -> bool {
    (compatible && kind == ValueKind::Na) || match scalar {
        ScalarKind::Int => kind == ValueKind::Int,
        ScalarKind::Float => kind == ValueKind::Float || kind == ValueKind::Int,
        ScalarKind::Numeric => kind == ValueKind::Float || kind == ValueKind::Int,
        ScalarKind::Bool => kind == ValueKind::Bool,
        ScalarKind::String => kind == ValueKind::String,
        ScalarKind::Color => kind == ValueKind::Color,
    }
}

pub open spec fn spec_bound_accepts(b: QualifierBoundScalar, t: PineType) -> bool {
    &&& match b.bound {
        QualifierBound::Exact => t.qualifier == b.qualifier,
        QualifierBound::AtMost => spec_qualifier_at_most(t.qualifier, b.qualifier),
    }
    &&& spec_scalar_accepts(b.scalar, b.compatible, t.kind)
}

/// The qualifier bound behind each named bounded acceptor.
pub open spec fn spec_named_bound(a: Accepts) -> Option<QualifierBoundScalar> {
    let at_most = |q: Qualifier, s: ScalarKind, c: bool|
        QualifierBoundScalar { bound: QualifierBound::AtMost, qualifier: q, scalar: s, compatible: c };
    match a {
        Accepts::QualifierBoundScalar(b) => Some(b),
        Accepts::SimpleInt => Some(at_most(Qualifier::Simple, ScalarKind::Int, false)),
        Accepts::SimpleIntCompatible => Some(at_most(Qualifier::Simple, ScalarKind::Int, true)),
        Accepts::SimpleNumeric => Some(at_most(Qualifier::Simple, ScalarKind::Numeric, false)),
        Accepts::SimpleBool => Some(at_most(Qualifier::Simple, ScalarKind::Bool, false)),
        Accepts::SimpleString => Some(at_most(Qualifier::Simple, ScalarKind::String, false)),
        Accepts::ConstString => Some(at_most(Qualifier::Const, ScalarKind::String, false)),
        Accepts::ConstBool => Some(at_most(Qualifier::Const, ScalarKind::Bool, false)),
        Accepts::ConstNumeric => Some(at_most(Qualifier::Const, ScalarKind::Numeric, false)),
        Accepts::AtMostInputNumeric => Some(at_most(Qualifier::Input, ScalarKind::Numeric, false)),
        Accepts::AtMostInputInt => Some(at_most(Qualifier::Input, ScalarKind::Int, false)),
        Accepts::AtMostInputString => Some(at_most(Qualifier::Input, ScalarKind::String, false)),
        Accepts::AtMostInputBool => Some(at_most(Qualifier::Input, ScalarKind::Bool, false)),
        Accepts::AtMostInputColor => Some(at_most(Qualifier::Input, ScalarKind::Color, false)),
        _ => None,
    }
}

impl Accepts {
    /// The qualifier bound of a bounded acceptor; `None` for the others.
    pub fn qualifier_bound(self) -> (r: Option<QualifierBoundScalar>)
        ensures
            r == spec_named_bound(self),
    {
        match self {
            Accepts::QualifierBoundScalar(b) => Some(b),
            Accepts::SimpleInt => Some(QualifierBoundScalar::at_most(Qualifier::Simple, ScalarKind::Int, false)),
            Accepts::SimpleIntCompatible => Some(QualifierBoundScalar::at_most(Qualifier::Simple, ScalarKind::Int, true)),
            Accepts::SimpleNumeric => Some(QualifierBoundScalar::at_most(Qualifier::Simple, ScalarKind::Numeric, false)),
            Accepts::SimpleBool => Some(QualifierBoundScalar::at_most(Qualifier::Simple, ScalarKind::Bool, false)),
            Accepts::SimpleString => Some(QualifierBoundScalar::at_most(Qualifier::Simple, ScalarKind::String, false)),
            Accepts::ConstString => Some(QualifierBoundScalar::at_most(Qualifier::Const, ScalarKind::String, false)),
            Accepts::ConstBool => Some(QualifierBoundScalar::at_most(Qualifier::Const, ScalarKind::Bool, false)),
            Accepts::ConstNumeric => Some(QualifierBoundScalar::at_most(Qualifier::Const, ScalarKind::Numeric, false)),
            Accepts::AtMostInputNumeric => Some(QualifierBoundScalar::at_most(Qualifier::Input, ScalarKind::Numeric, false)),
            Accepts::AtMostInputInt => Some(QualifierBoundScalar::at_most(Qualifier::Input, ScalarKind::Int, false)),
            Accepts::AtMostInputString => Some(QualifierBoundScalar::at_most(Qualifier::Input, ScalarKind::String, false)),
            Accepts::AtMostInputBool => Some(QualifierBoundScalar::at_most(Qualifier::Input, ScalarKind::Bool, false)),
            Accepts::AtMostInputColor => Some(QualifierBoundScalar::at_most(Qualifier::Input, ScalarKind::Color, false)),
            _ => None,
        }
    }
}

pub open spec fn is_int_float(k: ValueKind) -> bool {
    k == ValueKind::Int || k == ValueKind::Float
}

pub open spec fn is_na(k: ValueKind) -> bool {
    k == ValueKind::Na
}

/// The acceptance rule of every parameter acceptor.
pub open spec fn spec_accepts_type(a: Accepts, t: PineType) -> bool {
    let k = t.kind;
    let q = t.qualifier;
    match spec_named_bound(a) {
        Some(b) => spec_bound_accepts(b, t),
        None => match a {
            Accepts::Exact(e) => k == e.kind && spec_qualifier_at_most(q, e.qualifier),
            Accepts::Kind(e) => k == e,
            Accepts::SeriesFloat => q == Qualifier::Series && (is_int_float(k) || is_na(k)),
            Accepts::SeriesNumeric => q == Qualifier::Series && (is_int_float(k) || is_na(k)),
            Accepts::SeriesNumericOrBool => q == Qualifier::Series && (is_int_float(k) || is_na(k)
                || k == ValueKind::Bool),
            Accepts::SeriesOrSimpleNumeric => qualifier_rank(q) >= 2 && (is_int_float(k) || is_na(
                k,
            )),
            Accepts::SeriesOrSimpleNumericOrBool => qualifier_rank(q) >= 2 && (is_int_float(k)
                || is_na(k) || k == ValueKind::Bool),
            Accepts::Numeric => is_int_float(k),
            Accepts::NumericCompatible => is_int_float(k) || is_na(k),
            Accepts::IntCompatible => k == ValueKind::Int || is_na(k),
            Accepts::BoolCompatible => k == ValueKind::Bool || is_na(k),
            Accepts::StringCompatible => k == ValueKind::String || is_na(k),
            Accepts::StringConvertible => is_int_float(k) || is_na(k) || k == ValueKind::Bool || k
                == ValueKind::String || k == ValueKind::IntArray || k == ValueKind::FloatArray || k
                == ValueKind::BoolArray || k == ValueKind::StringArray,
            Accepts::CastScalar => is_int_float(k) || is_na(k) || k == ValueKind::Bool,
            Accepts::StringCastScalar => is_int_float(k) || is_na(k) || k == ValueKind::Bool || k
                == ValueKind::String,
            Accepts::ColorCompatible => k == ValueKind::Color || is_na(k),
            Accepts::NumericOrColorCompatible => is_int_float(k) || is_na(k) || k
                == ValueKind::Color,
            Accepts::LabelCompatible => k == ValueKind::Label || is_na(k),
            Accepts::LineCompatible => k == ValueKind::Line || is_na(k),
            Accepts::LineFillCompatible => k == ValueKind::LineFill || is_na(k),
            Accepts::PolylineCompatible => k == ValueKind::Polyline || is_na(k),
            Accepts::BoxCompatible => k == ValueKind::Box || is_na(k),
            Accepts::TableCompatible => k == ValueKind::Table || is_na(k),
            Accepts::ValueWhenSource => is_int_float(k) || is_na(k) || k == ValueKind::Bool || k
                == ValueKind::Color,
            Accepts::StringOrIntCompatible => k == ValueKind::String || k == ValueKind::Int
                || is_na(k),
            Accepts::ChartPointCompatible => k == ValueKind::ChartPoint || is_na(k),
            Accepts::PlotOrHLine => k == ValueKind::Plot || k == ValueKind::HLine,
            Accepts::MapValue => k == ValueKind::MapValue,
            Accepts::Array => spec_is_array_kind(k),
            Accepts::NumericArray => k == ValueKind::IntArray || k == ValueKind::FloatArray,
            Accepts::NumericOrBoolArray => k == ValueKind::IntArray || k == ValueKind::FloatArray
                || k == ValueKind::BoolArray,
            Accepts::NumericOrStringArray => k == ValueKind::IntArray || k == ValueKind::FloatArray
                || k == ValueKind::StringArray,
            Accepts::ScalarArray => spec_is_scalar_array_kind(k),
            Accepts::Matrix => spec_matrix_element_kind(k) is Some,
            Accepts::NumericMatrix => spec_is_numeric_matrix_kind(k),
            Accepts::FloatMatrix => k == ValueKind::FloatMatrix,
            Accepts::Tuple => k == ValueKind::Tuple,
            Accepts::InputDefval => q == Qualifier::Const && (is_int_float(k) || k
                == ValueKind::Bool || k == ValueKind::String || k == ValueKind::Color),
            Accepts::MatrixElementCompatible(_) => true,
            Accepts::MatrixElementArray(_) => spec_is_array_kind(k),
            Accepts::MatrixOrNumericCompatibleWithMatrixCounterpart(_) => spec_is_numeric_matrix_kind(
                k,
            ) || is_int_float(k) || is_na(k),
            Accepts::MatrixOrNumericOrNumericArrayCompatibleWithMatrixCounterpart(
                _,
            ) => spec_is_numeric_matrix_kind(k) || is_int_float(k) || is_na(k) || k
                == ValueKind::IntArray || k == ValueKind::FloatArray,
            _ => false,
        },
    }
}

fn scalar_accepts(scalar: ScalarKind, compatible: bool, kind: ValueKind) -> (r: bool)
    ensures
        r == spec_scalar_accepts(scalar, compatible, kind),
{
    if compatible && kind == ValueKind::Na {
        return true;
    }
    match scalar {
        ScalarKind::Int => kind == ValueKind::Int,
        ScalarKind::Float => kind == ValueKind::Float || kind == ValueKind::Int,
        ScalarKind::Numeric => kind == ValueKind::Float || kind == ValueKind::Int,
        ScalarKind::Bool => kind == ValueKind::Bool,
        ScalarKind::String => kind == ValueKind::String,
        ScalarKind::Color => kind == ValueKind::Color,
    }
}

fn bound_accepts(b: QualifierBoundScalar, t: PineType) -> (r: bool)
    ensures
        r == spec_bound_accepts(b, t),
{
    let qualifier_ok = match b.bound {
        QualifierBound::Exact => t.qualifier == b.qualifier,
        QualifierBound::AtMost => qualifier_at_most(t.qualifier, b.qualifier),
    };
    qualifier_ok && scalar_accepts(b.scalar, b.compatible, t.kind)
}

/// Whether a parameter with acceptor `a` takes an argument of type `t`.
pub fn accepts_type(a: Accepts, t: PineType) -> (r: bool)
    ensures
        r == spec_accepts_type(a, t),
{
    if let Some(b) = a.qualifier_bound() {
        return bound_accepts(b, t);
    }
    let k = t.kind;
    let q = t.qualifier;
    let int_float = k == ValueKind::Int || k == ValueKind::Float;
    let na = k == ValueKind::Na;
    match a {
        Accepts::Exact(e) => k == e.kind && qualifier_at_most(q, e.qualifier),
        Accepts::Kind(e) => k == e,
        Accepts::SeriesFloat => q == Qualifier::Series && (int_float || na),
        Accepts::SeriesNumeric => q == Qualifier::Series && (int_float || na),
        Accepts::SeriesNumericOrBool => q == Qualifier::Series && (int_float || na || k
            == ValueKind::Bool),
        Accepts::SeriesOrSimpleNumeric => qualifier_rank_exec(q) >= 2 && (int_float || na),
        Accepts::SeriesOrSimpleNumericOrBool => qualifier_rank_exec(q) >= 2 && (int_float || na
            || k == ValueKind::Bool),
        Accepts::Numeric => int_float,
        Accepts::NumericCompatible => int_float || na,
        Accepts::IntCompatible => k == ValueKind::Int || na,
        Accepts::BoolCompatible => k == ValueKind::Bool || na,
        Accepts::StringCompatible => k == ValueKind::String || na,
        Accepts::StringConvertible => int_float || na || k == ValueKind::Bool || k
            == ValueKind::String || k == ValueKind::IntArray || k == ValueKind::FloatArray || k
            == ValueKind::BoolArray || k == ValueKind::StringArray,
        Accepts::CastScalar => int_float || na || k == ValueKind::Bool,
        Accepts::StringCastScalar => int_float || na || k == ValueKind::Bool || k
            == ValueKind::String,
        Accepts::ColorCompatible => k == ValueKind::Color || na,
        Accepts::NumericOrColorCompatible => int_float || na || k == ValueKind::Color,
        Accepts::LabelCompatible => k == ValueKind::Label || na,
        Accepts::LineCompatible => k == ValueKind::Line || na,
        Accepts::LineFillCompatible => k == ValueKind::LineFill || na,
        Accepts::PolylineCompatible => k == ValueKind::Polyline || na,
        Accepts::BoxCompatible => k == ValueKind::Box || na,
        Accepts::TableCompatible => k == ValueKind::Table || na,
        Accepts::ValueWhenSource => int_float || na || k == ValueKind::Bool || k
            == ValueKind::Color,
        Accepts::StringOrIntCompatible => k == ValueKind::String || k == ValueKind::Int || na,
        Accepts::ChartPointCompatible => k == ValueKind::ChartPoint || na,
        Accepts::PlotOrHLine => k == ValueKind::Plot || k == ValueKind::HLine,
        Accepts::MapValue => k == ValueKind::MapValue,
        Accepts::Array => k.array_element_kind().is_some(),
        Accepts::NumericArray => k == ValueKind::IntArray || k == ValueKind::FloatArray,
        Accepts::NumericOrBoolArray => k == ValueKind::IntArray || k == ValueKind::FloatArray || k
            == ValueKind::BoolArray,
        Accepts::NumericOrStringArray => k == ValueKind::IntArray || k == ValueKind::FloatArray
            || k == ValueKind::StringArray,
        Accepts::ScalarArray => is_scalar_array_kind(k),
        Accepts::Matrix => matrix_element_kind(k).is_some(),
        Accepts::NumericMatrix => is_numeric_matrix_kind(k),
        Accepts::FloatMatrix => k == ValueKind::FloatMatrix,
        Accepts::Tuple => k == ValueKind::Tuple,
        Accepts::InputDefval => q == Qualifier::Const && (int_float || k == ValueKind::Bool || k
            == ValueKind::String || k == ValueKind::Color),
        Accepts::MatrixElementCompatible(_) => true,
        Accepts::MatrixElementArray(_) => k.array_element_kind().is_some(),
        Accepts::MatrixOrNumericCompatibleWithMatrixCounterpart(_) => is_numeric_matrix_kind(k)
            || int_float || na,
        Accepts::MatrixOrNumericOrNumericArrayCompatibleWithMatrixCounterpart(
            _,
        ) => is_numeric_matrix_kind(k) || int_float || na || k == ValueKind::IntArray || k
            == ValueKind::FloatArray,
        _ => false,
    }
}

pub open spec fn spec_element_accepts(element: ValueKind, arg: ValueKind) -> bool {
    match element {
        ValueKind::Float => arg == ValueKind::Float || arg == ValueKind::Int || arg == ValueKind::Na,
        _ => arg == element || arg == ValueKind::Na,
    }
}

pub open spec fn spec_accepts_matrix_element_arg(matrix: PineType, arg: PineType) -> Option<bool> {
    match spec_matrix_element_kind(matrix.kind) {
        Some(e) => Some(spec_element_accepts(e, arg.kind)),
        None => None,
    }
}

/// Whether `arg` fits as an element of the matrix typed `matrix`; `None` when
/// `matrix` is not a matrix.
pub fn accepts_matrix_element_arg(matrix: PineType, arg: PineType) -> (r: Option<bool>)
    ensures
        r == spec_accepts_matrix_element_arg(matrix, arg),
{
    match matrix_element_kind(matrix.kind) {
        Some(e) => {
            let ok = match e {
                ValueKind::Float => arg.kind == ValueKind::Float || arg.kind == ValueKind::Int
                    || arg.kind == ValueKind::Na,
                _ => arg.kind == e || arg.kind == ValueKind::Na,
            };
            Some(ok)
        },
        None => None,
    }
}

pub open spec fn spec_accepts_matrix_element_array_arg(matrix: PineType, arg: PineType) -> Option<
    bool,
> {
    match spec_matrix_element_kind(matrix.kind) {
        Some(e) => Some(
            match spec_array_element_kind(arg.kind) {
                Some(a) => spec_element_accepts(e, a) && a != ValueKind::Na,
                None => false,
            },
        ),
        None => None,
    }
}

/// Whether `arg` is an array whose elements fit the matrix typed `matrix`;
/// `None` when `matrix` is not a matrix.
pub fn accepts_matrix_element_array_arg(matrix: PineType, arg: PineType) -> (r: Option<bool>)
    ensures
        r == spec_accepts_matrix_element_array_arg(matrix, arg),
{
    match matrix_element_kind(matrix.kind) {
        Some(e) => {
            let ok = match arg.kind.array_element_kind() {
                Some(a) => {
                    let fits = match e {
                        ValueKind::Float => a == ValueKind::Float || a == ValueKind::Int || a
                            == ValueKind::Na,
                        _ => a == e || a == ValueKind::Na,
                    };
                    fits && a != ValueKind::Na
                },
                None => false,
            };
            Some(ok)
        },
        None => None,
    }
}

/// An acceptor with an at-most qualifier bound (or an exact type, which
/// bounds the qualifier from above) takes every less dynamic argument of the
/// kind it takes: making an argument more constant never makes it refused.
pub proof fn lemma_upper_bounded_acceptors_take_less_dynamic_arguments(
    a: Accepts,
    t: PineType,
    q: Qualifier,
)
    requires
        (spec_named_bound(a) matches Some(b) && b.bound == QualifierBound::AtMost) || (
        spec_named_bound(a) is None && a is Exact),
        spec_accepts_type(a, t),
        spec_qualifier_at_most(q, t.qualifier),
    ensures
        spec_accepts_type(a, PineType { qualifier: q, kind: t.kind }),
{
}

/// `na` is taken by every compatible bounded acceptor whose qualifier bound
/// it meets.
pub proof fn lemma_compatible_bounds_take_na(b: QualifierBoundScalar, q: Qualifier)
    requires
        b.compatible,
        match b.bound {
            QualifierBound::Exact => q == b.qualifier,
            QualifierBound::AtMost => spec_qualifier_at_most(q, b.qualifier),
        },
    ensures
        spec_bound_accepts(b, PineType { qualifier: q, kind: ValueKind::Na }),
{
}

} // verus!
