//! Call-shape helpers: callee names, method-call receivers, argument type
//! diagnostics and expected-type labels.
use vstd::prelude::*;
use vstd::string::*;

use crate::accepts::{accepts_type, spec_accepts_type, spec_bound_label, spec_named_bound, Accepts};
use crate::strings::{
    join, pair_view, spec_join, spec_split_once_char, split_once_char, str_eq, strings_view,
};
use crate::syntax::{CallArg, Diagnostic, Expr, ExprKind, Severity, Span};
use crate::types::{pine_type_name, spec_pine_type_name, spec_value_kind_name, value_kind_name, PineType};

verus! {

/// The dotted name an identifier or qualified name stands for.
pub open spec fn spec_expr_name(e: Expr) -> Option<Seq<char>> {
    match e.kind {
        ExprKind::Identifier(name) => Some(name@),
        ExprKind::QualifiedName(parts) => Some(spec_join(strings_view(parts@), "."@)),
        _ => None,
    }
}

pub fn expr_name(expr: &Expr) -> (r: Option<String>)
    ensures
        match r {
            Some(s) => spec_expr_name(*expr) == Some(s@),
            None => spec_expr_name(*expr) is None,
        },
{
    match &expr.kind {
        ExprKind::Identifier(name) => Some(name.clone()),
        ExprKind::QualifiedName(parts) => Some(join(parts, ".")),
        _ => None,
    }
}

/// `a.b` split into receiver and method when the name has exactly two parts.
pub open spec fn spec_method_call_parts(e: Expr) -> Option<(Seq<char>, Seq<char>)> {
    match e.kind {
        ExprKind::QualifiedName(parts) => if parts@.len() == 2 {
            Some((parts@[0]@, parts@[1]@))
        } else {
            None
        },
        _ => None,
    }
}

pub fn method_call_parts(expr: &Expr) -> (r: Option<(&str, &str)>)
    ensures
        pair_view(r) == spec_method_call_parts(*expr),
{
    match &expr.kind {
        ExprKind::QualifiedName(parts) => {
            if parts.len() == 2 {
                Some((parts[0].as_str(), parts[1].as_str()))
            } else {
                None
            }
        },
        _ => None,
    }
}

pub open spec fn is_call_expr(e: Expr) -> bool {
    e.kind is Call
}

/// A method called on the result of a call written before it
/// (`f(x).m(...)`, parsed with the producing call as first argument).
pub open spec fn spec_postfix_call_result_method_parts(callee: Expr, args: Seq<CallArg>) -> Option<
    (Seq<char>, Seq<char>),
> {
    match spec_method_call_parts(callee) {
        None => None,
        Some(parts) => if args.len() == 0 {
            None
        } else if args[0].name is Some || !is_call_expr(args[0].value) || args[0].value.span.end
            >= callee.span.start {
            None
        } else {
            Some(parts)
        },
    }
}

pub fn postfix_call_result_method_parts<'a>(callee: &'a Expr, args: &[CallArg]) -> (r: Option<
    (&'a str, &'a str),
>)
    ensures
        pair_view(r) == spec_postfix_call_result_method_parts(*callee, args@),
{
    let parts = method_call_parts(callee)?;
    if args.len() == 0 {
        return None;
    }
    let receiver = &args[0];
    let is_call = match &receiver.value.kind {
        ExprKind::Call { .. } => true,
        _ => false,
    };
    if receiver.name.is_some() || !is_call || receiver.value.span.end >= callee.span.start {
        return None;
    }
    Some(parts)
}

pub open spec fn spec_is_matrix_producer_method(m: Seq<char>) -> bool {
    m == "copy"@ || m == "diff"@ || m == "eigenvectors"@ || m == "inv"@ || m == "kron"@ || m
        == "mult"@ || m == "pinv"@ || m == "pow"@ || m == "submatrix"@ || m == "transpose"@
}

/// The matrix methods whose result is itself a matrix.
pub fn is_matrix_producer_method(m: &str) -> (r: bool)
    ensures
        r == spec_is_matrix_producer_method(m@),
{
    str_eq(m, "copy") || str_eq(m, "diff") || str_eq(m, "eigenvectors") || str_eq(m, "inv")
        || str_eq(m, "kron") || str_eq(m, "mult") || str_eq(m, "pinv") || str_eq(m, "pow")
        || str_eq(m, "submatrix") || str_eq(m, "transpose")
}

/// A method called on the result of a user-defined function call, possibly
/// through a chain of matrix-producing methods: the function and the final method.
pub open spec fn spec_local_udf_call_result_method_parts(callee: Expr, args: Seq<CallArg>) -> Option<
    (Seq<char>, Seq<char>),
>
    decreases args,
{
    match spec_postfix_call_result_method_parts(callee, args) {
        None => None,
        Some((prefix, method_name)) => if prefix != "$call_result"@ {
            None
        } else if args.len() == 0 {
            None
        } else {
            match args[0].value.kind {
                ExprKind::Call { callee: producer, args: producer_args } => match producer.kind {
                    ExprKind::Identifier(function_name) => Some((function_name@, method_name)),
                    ExprKind::QualifiedName(_) => match spec_local_udf_call_result_method_parts(
                        *producer,
                        producer_args@,
                    ) {
                        Some((function_name, producer_method)) => if spec_is_matrix_producer_method(
                            producer_method,
                        ) {
                            Some((function_name, method_name))
                        } else {
                            None
                        },
                        None => None,
                    },
                    _ => None,
                },
                _ => None,
            }
        },
    }
}

pub fn local_udf_call_result_method_parts<'a>(callee: &'a Expr, args: &'a [CallArg]) -> (r: Option<
    (&'a str, &'a str),
>)
    ensures
        pair_view(r) == spec_local_udf_call_result_method_parts(*callee, args@),
    decreases args@,
{
    let (prefix, method_name) = postfix_call_result_method_parts(callee, args)?;
    if !str_eq(prefix, "$call_result") {
        return None;
    }
    if args.len() == 0 {
        return None;
    }
    match &args[0].value.kind {
        ExprKind::Call { callee: producer, args: producer_args } => match &producer.kind {
            ExprKind::Identifier(function_name) => Some((function_name.as_str(), method_name)),
            ExprKind::QualifiedName(_) => {
                let (function_name, producer_method) = local_udf_call_result_method_parts(
                    producer,
                    producer_args.as_slice(),
                )?;
                if is_matrix_producer_method(producer_method) {
                    Some((function_name, method_name))
                } else {
                    None
                }
            },
            _ => None,
        },
        _ => None,
    }
}

pub open spec fn spec_prefixed_method(callee: Expr, args: Seq<CallArg>, prefix: Seq<char>) -> Option<
    Seq<char>,
> {
    match spec_postfix_call_result_method_parts(callee, args) {
        Some((p, m)) => if p == prefix {
            Some(m)
        } else {
            None
        },
        None => None,
    }
}

pub open spec fn opt_str_view(r: Option<&str>) -> Option<Seq<char>> {
    match r {
        Some(s) => Some(s@),
        None => None,
    }
}

/// The method called on the result of a builtin matrix-producing call.
pub fn builtin_matrix_call_result_method_name<'a>(callee: &'a Expr, args: &[CallArg]) -> (r: Option<
    &'a str,
>)
    ensures
        opt_str_view(r) == spec_prefixed_method(*callee, args@, "$builtin_matrix_result"@),
{
    let (prefix, method_name) = postfix_call_result_method_parts(callee, args)?;
    if str_eq(prefix, "$builtin_matrix_result") {
        Some(method_name)
    } else {
        None
    }
}

/// The method called on the result of a builtin map-producing call.
pub fn builtin_map_call_result_method_name<'a>(callee: &'a Expr, args: &[CallArg]) -> (r: Option<
    &'a str,
>)
    ensures
        opt_str_view(r) == spec_prefixed_method(*callee, args@, "$builtin_map_result"@),
{
    let (prefix, method_name) = postfix_call_result_method_parts(callee, args)?;
    if str_eq(prefix, "$builtin_map_result") {
        Some(method_name)
    } else {
        None
    }
}

/// A method called on the matrix produced by a matrix method of a bound
/// receiver (`m.inv().rows()`): the receiver and the final method.
pub open spec fn spec_bound_matrix_call_result_method_parts(callee: Expr, args: Seq<CallArg>) -> Option<
    (Seq<char>, Seq<char>),
> {
    match spec_postfix_call_result_method_parts(callee, args) {
        None => None,
        Some((prefix, method_name)) => if args.len() == 0 {
            None
        } else {
            match args[0].value.kind {
                ExprKind::Call { callee: producer, .. } => match producer.kind {
                    ExprKind::QualifiedName(parts) => if parts@.len() == 2 && parts@[0]@ == prefix
                        && spec_is_matrix_producer_method(parts@[1]@) {
                        Some((parts@[0]@, method_name))
                    } else {
                        None
                    },
                    _ => None,
                },
                _ => None,
            }
        },
    }
}

pub fn bound_matrix_call_result_method_parts<'a>(callee: &'a Expr, args: &'a [CallArg]) -> (r:
    Option<(&'a str, &'a str)>)
    ensures
        pair_view(r) == spec_bound_matrix_call_result_method_parts(*callee, args@),
{
    let (prefix, method_name) = postfix_call_result_method_parts(callee, args)?;
    if args.len() == 0 {
        return None;
    }
    match &args[0].value.kind {
        ExprKind::Call { callee: producer, .. } => match &producer.kind {
            ExprKind::QualifiedName(parts) => {
                if parts.len() == 2 && str_eq(parts[0].as_str(), prefix)
                    && is_matrix_producer_method(parts[1].as_str()) {
                    Some((parts[0].as_str(), method_name))
                } else {
                    None
                }
            },
            _ => None,
        },
        _ => None,
    }
}

/// `alias.method` with a non-empty alias and a non-empty, undotted method.
pub open spec fn spec_alias_qualified_method_name(name: Seq<char>) -> Option<(Seq<char>, Seq<char>)> {
    match spec_split_once_char(name, '.') {
        Some((alias, method_name)) => if alias.len() == 0 || method_name.len() == 0
            || method_name.contains('.') {
            None
        } else {
            Some((alias, method_name))
        },
        None => None,
    }
}

pub fn alias_qualified_method_name(name: &str) -> (r: Option<(&str, &str)>)
    ensures
        pair_view(r) == spec_alias_qualified_method_name(name@),
{
    let (alias, method_name) = split_once_char(name, '.')?;
    if alias.unicode_len() == 0 || method_name.unicode_len() == 0 || crate::strings::find_char(
        method_name,
        '.',
    ).is_some() {
        proof {
            if crate::strings::spec_char_index_from(method_name@, '.', 0) is Some {
                crate::strings::lemma_char_index_from(method_name@, '.', 0);
                let k = crate::strings::spec_char_index_from(method_name@, '.', 0).unwrap();
                assert(method_name@[k] == '.');
            }
        }
        return None;
    }
    proof {
        crate::strings::lemma_char_index_from(method_name@, '.', 0);
    }
    Some((alias, method_name))
}

/// A positional argument that passes `receiver_name` as an identifier.
pub fn receiver_call_arg(receiver_name: &str, span: Span) -> (r: CallArg)
    ensures
        r.name is None,
        r.span == span,
        r.value.span == span,
        r.value.kind matches ExprKind::Identifier(n) && n@ == receiver_name@,
{
    CallArg {
        name: None,
        span,
        value: Expr { kind: ExprKind::Identifier(String::from_str(receiver_name)), span },
    }
}

pub open spec fn spec_does_not_accept_message(
    function_name: Seq<char>,
    param_name: Seq<char>,
    actual: Seq<char>,
) -> Seq<char> {
    "`"@ + function_name + "` argument `"@ + param_name + "` does not accept "@ + actual
}

pub open spec fn spec_expects_message(
    function_name: Seq<char>,
    param_name: Seq<char>,
    expected: Seq<char>,
    actual: Seq<char>,
) -> Seq<char> {
    "`"@ + function_name + "` argument `"@ + param_name + "` expects "@ + expected + ", got "@
        + actual
}

pub open spec fn is_call_arg_type_error(d: Diagnostic, message: Seq<char>, span: Span) -> bool {
    &&& d.severity == Severity::Error
    &&& d.code@ == "E_CALL_ARG_TYPE"@
    &&& d.message@ == message
    &&& d.span == span
}

fn arg_prefix(function_name: &str, param_name: &str) -> (r: String)
    ensures
        r@ == "`"@ + function_name@ + "` argument `"@ + param_name@,
{
    let s = String::from_str("`");
    let s = s.concat(function_name);
    let s = s.concat("` argument `");
    s.concat(param_name)
}

/// `f` argument `p` does not accept <type>.
pub fn call_arg_type_diagnostic(function_name: &str, param_name: &str, arg_type: PineType, span: Span) -> (r:
    Diagnostic)
    ensures
        is_call_arg_type_error(
            r,
            spec_does_not_accept_message(function_name@, param_name@, spec_pine_type_name(arg_type)),
            span,
        ),
{
    let s = arg_prefix(function_name, param_name);
    let s = s.concat("` does not accept ");
    let t = pine_type_name(arg_type);
    let s = s.concat(t.as_str());
    Diagnostic::error("E_CALL_ARG_TYPE", s, span)
}

/// `f` argument `p` expects <expected>, got <type>.
pub fn call_arg_expected_type_diagnostic(
    function_name: &str,
    param_name: &str,
    expected: &str,
    arg_type: PineType,
    span: Span,
) -> (r: Diagnostic)
    ensures
        is_call_arg_type_error(
            r,
            spec_expects_message(function_name@, param_name@, expected@, spec_pine_type_name(arg_type)),
            span,
        ),
{
    let t = pine_type_name(arg_type);
    call_arg_expected_label_diagnostic(function_name, param_name, expected, t.as_str(), span)
}

/// `f` argument `p` expects <expected>, got <actual>.
pub fn call_arg_expected_label_diagnostic(
    function_name: &str,
    param_name: &str,
    expected: &str,
    actual: &str,
    span: Span,
) -> (r: Diagnostic)
    ensures
        is_call_arg_type_error(
            r,
            spec_expects_message(function_name@, param_name@, expected@, actual@),
            span,
        ),
{
    let s = arg_prefix(function_name, param_name);
    let s = s.concat("` expects ");
    let s = s.concat(expected);
    let s = s.concat(", got ");
    let s = s.concat(actual);
    Diagnostic::error("E_CALL_ARG_TYPE", s, span)
}

/// `f` requires <requirement>.
pub fn call_requirement_diagnostic(function_name: &str, requirement: &str, span: Span) -> (r:
    Diagnostic)
    ensures
        is_call_arg_type_error(
            r,
            "`"@ + function_name@ + "` requires "@ + requirement@,
            span,
        ),
{
    let s = String::from_str("`");
    let s = s.concat(function_name);
    let s = s.concat("` requires ");
    let s = s.concat(requirement);
    Diagnostic::error("E_CALL_ARG_TYPE", s, span)
}

/// The label diagnostics use for what an acceptor expects; the acceptors
/// whose meaning depends on another argument have none.
pub open spec fn spec_accepts_expected_label(a: Accepts) -> Option<Seq<char>> {
    match spec_named_bound(a) {
        Some(b) => Some(spec_bound_label(b)),
        None => match a {
            Accepts::Exact(t) => Some(spec_pine_type_name(t)),
            Accepts::Kind(k) => Some(spec_value_kind_name(k)),
            Accepts::SeriesFloat => Some("series float"@),
            Accepts::SeriesNumeric => Some("series numeric"@),
            Accepts::SeriesNumericOrBool => Some("series numeric or bool"@),
            Accepts::SeriesOrSimpleNumeric => Some("series/simple numeric"@),
            Accepts::SeriesOrSimpleNumericOrBool => Some("series/simple numeric or bool"@),
            Accepts::Numeric => Some("numeric"@),
            Accepts::NumericCompatible => Some("numeric-compatible"@),
            Accepts::IntCompatible => Some("integer-compatible"@),
            Accepts::BoolCompatible => Some("bool-compatible"@),
            Accepts::StringCompatible => Some("string-compatible"@),
            Accepts::StringConvertible => Some("string-convertible"@),
            Accepts::CastScalar => Some("int/float/bool-compatible"@),
            Accepts::StringCastScalar => Some("int/float/bool/string-compatible"@),
            Accepts::ColorCompatible => Some("color-compatible"@),
            Accepts::NumericOrColorCompatible => Some("numeric/color-compatible"@),
            Accepts::LabelCompatible => Some("label-compatible"@),
            Accepts::LineCompatible => Some("line-compatible"@),
            Accepts::LineFillCompatible => Some("linefill-compatible"@),
            Accepts::PolylineCompatible => Some("polyline-compatible"@),
            Accepts::BoxCompatible => Some("box-compatible"@),
            Accepts::TableCompatible => Some("table-compatible"@),
            Accepts::ValueWhenSource => Some("numeric/bool/color-compatible"@),
            Accepts::StringOrIntCompatible => Some("string/int-compatible"@),
            Accepts::ChartPointCompatible => Some("chart.point-compatible"@),
            Accepts::PlotOrHLine => Some("plot/hline"@),
            Accepts::MapValue => Some("map"@),
            Accepts::Array => Some("array"@),
            Accepts::NumericArray => Some("numeric array"@),
            Accepts::NumericOrBoolArray => Some("numeric/bool array"@),
            Accepts::NumericOrStringArray => Some("numeric/string array"@),
            Accepts::ScalarArray => Some("scalar array"@),
            Accepts::Matrix => Some("matrix"@),
            Accepts::NumericMatrix => Some("numeric matrix"@),
            Accepts::FloatMatrix => Some("matrix<float>"@),
            Accepts::Tuple => Some("tuple"@),
            Accepts::InputDefval => Some("const int/float/bool/string/color"@),
            _ => None,
        },
    }
}

fn owned(s: &str) -> (r: Option<String>)
    ensures
        r matches Some(o) && o@ == s@,
{
    Some(String::from_str(s))
}

pub fn accepts_expected_label(accepts: Accepts) -> (r: Option<String>)
    ensures
        crate::strings::opt_string_view(r) == spec_accepts_expected_label(accepts),
{
    if let Some(b) = accepts.qualifier_bound() {
        return Some(b.expected_label());
    }
    match accepts {
        Accepts::Exact(t) => Some(pine_type_name(t)),
        Accepts::Kind(k) => owned(value_kind_name(k)),
        Accepts::SeriesFloat => owned("series float"),
        Accepts::SeriesNumeric => owned("series numeric"),
        Accepts::SeriesNumericOrBool => owned("series numeric or bool"),
        Accepts::SeriesOrSimpleNumeric => owned("series/simple numeric"),
        Accepts::SeriesOrSimpleNumericOrBool => owned("series/simple numeric or bool"),
        Accepts::Numeric => owned("numeric"),
        Accepts::NumericCompatible => owned("numeric-compatible"),
        Accepts::IntCompatible => owned("integer-compatible"),
        Accepts::BoolCompatible => owned("bool-compatible"),
        Accepts::StringCompatible => owned("string-compatible"),
        Accepts::StringConvertible => owned("string-convertible"),
        Accepts::CastScalar => owned("int/float/bool-compatible"),
        Accepts::StringCastScalar => owned("int/float/bool/string-compatible"),
        Accepts::ColorCompatible => owned("color-compatible"),
        Accepts::NumericOrColorCompatible => owned("numeric/color-compatible"),
        Accepts::LabelCompatible => owned("label-compatible"),
        Accepts::LineCompatible => owned("line-compatible"),
        Accepts::LineFillCompatible => owned("linefill-compatible"),
        Accepts::PolylineCompatible => owned("polyline-compatible"),
        Accepts::BoxCompatible => owned("box-compatible"),
        Accepts::TableCompatible => owned("table-compatible"),
        Accepts::ValueWhenSource => owned("numeric/bool/color-compatible"),
        Accepts::StringOrIntCompatible => owned("string/int-compatible"),
        Accepts::ChartPointCompatible => owned("chart.point-compatible"),
        Accepts::PlotOrHLine => owned("plot/hline"),
        Accepts::MapValue => owned("map"),
        Accepts::Array => owned("array"),
        Accepts::NumericArray => owned("numeric array"),
        Accepts::NumericOrBoolArray => owned("numeric/bool array"),
        Accepts::NumericOrStringArray => owned("numeric/string array"),
        Accepts::ScalarArray => owned("scalar array"),
        Accepts::Matrix => owned("matrix"),
        Accepts::NumericMatrix => owned("numeric matrix"),
        Accepts::FloatMatrix => owned("matrix<float>"),
        Accepts::Tuple => owned("tuple"),
        Accepts::InputDefval => owned("const int/float/bool/string/color"),
        _ => None,
    }
}

/// The message of the diagnostic for an argument of type `t` that `accepts` refuses.
pub open spec fn spec_refusal_message(
    function_name: Seq<char>,
    param_name: Seq<char>,
    accepts: Accepts,
    t: PineType,
) -> Seq<char> {
    match spec_accepts_expected_label(accepts) {
        Some(expected) => spec_expects_message(
            function_name,
            param_name,
            expected,
            spec_pine_type_name(t),
        ),
        None => spec_does_not_accept_message(function_name, param_name, spec_pine_type_name(t)),
    }
}

/// `None` when the parameter takes the argument; otherwise an argument type
/// error that names what was expected where the acceptor has a label.
pub fn call_arg_accepts_type_expected_diagnostic(
    function_name: &str,
    param_name: &str,
    accepts: Accepts,
    arg_type: PineType,
    span: Span,
) -> (r: Option<Diagnostic>)
    ensures
        r is None <==> spec_accepts_type(accepts, arg_type),
        r matches Some(d) ==> is_call_arg_type_error(
            d,
            spec_refusal_message(function_name@, param_name@, accepts, arg_type),
            span,
        ),
{
    if accepts_type(accepts, arg_type) {
        return None;
    }
    if let Some(expected) = accepts_expected_label(accepts) {
        return Some(
            call_arg_expected_type_diagnostic(
                function_name,
                param_name,
                expected.as_str(),
                arg_type,
                span,
            ),
        );
    }
    Some(call_arg_type_diagnostic(function_name, param_name, arg_type, span))
}

} // verus!
