//! Where a method call `receiver.method(...)` goes, by the receiver's type:
//! a user-defined method, a drawing builtin, a map operation, an array or
//! matrix builtin, or a refusal.
use vstd::prelude::*;
use vstd::string::*;

use crate::accepts::Accepts;
use crate::builtin_names::{
    array_method_builtin_name, is_array_mutation_builtin, is_output_or_declaration_builtin,
    map_method_builtin_name, spec_is_array_method, spec_is_array_mutation_builtin, spec_is_map_method,
    spec_is_output_or_declaration_builtin,
};
use crate::compatibility::{
    feature_uses_view, push_feature_use, unsupported, unsupported_diag, unsupported_view, FeatureUse,
    UnsupportedFeature, UnsupportedView,
};
use crate::map_calls::{spec_collection_mutation_udf_reason, unsupported_collection_mutation_udf_reason};
use crate::signatures::BuiltinSignature;
use crate::syntax::{diags_view, error_view, push_error, DiagView, Diagnostic, Span};
use crate::types::{spec_array_element_kind, spec_type_debug_label, type_debug_label, PineType, ValueKind};

verus! {

pub const FUNCTION_OUTPUT_SIDE_EFFECT_REASON: &'static str = "indicator, strategy, input, plot, plotchar, plotshape, plotarrow, plotbar, plotcandle, hline, fill, bgcolor, barcolor, alert, alertcondition, drawing calls, and strategy order calls are not supported inside user-defined functions";

/// The namespace of a drawing object kind's builtins.
pub open spec fn spec_drawing_namespace(kind: ValueKind) -> Option<Seq<char>> {
    match kind {
        ValueKind::Label => Some("label"@),
        ValueKind::Line => Some("line"@),
        ValueKind::LineFill => Some("linefill"@),
        ValueKind::Polyline => Some("polyline"@),
        ValueKind::Box => Some("box"@),
        ValueKind::Table => Some("table"@),
        _ => None,
    }
}

fn drawing_namespace(kind: ValueKind) -> (r: Option<&'static str>)
    ensures
        crate::arg_facts::opt_str_view(r) == spec_drawing_namespace(kind),
{
    match kind {
        ValueKind::Label => Some("label"),
        ValueKind::Line => Some("line"),
        ValueKind::LineFill => Some("linefill"),
        ValueKind::Polyline => Some("polyline"),
        ValueKind::Box => Some("box"),
        ValueKind::Table => Some("table"),
        _ => None,
    }
}

/// The acceptor a drawing builtin's first parameter has when it takes the
/// drawing object itself.
pub open spec fn spec_receiver_acceptor(kind: ValueKind) -> Option<Accepts> {
    match kind {
        ValueKind::Label => Some(Accepts::LabelCompatible),
        ValueKind::Line => Some(Accepts::LineCompatible),
        ValueKind::LineFill => Some(Accepts::LineFillCompatible),
        ValueKind::Polyline => Some(Accepts::PolylineCompatible),
        ValueKind::Box => Some(Accepts::BoxCompatible),
        ValueKind::Table => Some(Accepts::TableCompatible),
        _ => None,
    }
}

fn receiver_acceptor(kind: ValueKind) -> (r: Option<Accepts>)
    ensures
        r == spec_receiver_acceptor(kind),
{
    match kind {
        ValueKind::Label => Some(Accepts::LabelCompatible),
        ValueKind::Line => Some(Accepts::LineCompatible),
        ValueKind::LineFill => Some(Accepts::LineFillCompatible),
        ValueKind::Polyline => Some(Accepts::PolylineCompatible),
        ValueKind::Box => Some(Accepts::BoxCompatible),
        ValueKind::Table => Some(Accepts::TableCompatible),
        _ => None,
    }
}

/// The drawing builtin a method on a drawing object names: `ns.method`,
/// where the builtin registry's signature for it (`signature`) takes the
/// object as its first parameter.
pub open spec fn spec_drawing_method_builtin_name(
    kind: ValueKind,
    method: Seq<char>,
    signature: Option<BuiltinSignature>,
) -> Option<Seq<char>> {
    match (spec_drawing_namespace(kind), signature) {
        (Some(ns), Some(sig)) => if sig.params@.len() > 0 && spec_receiver_acceptor(kind) == Some(
            sig.params@[0].accepts,
        ) {
            Some(ns + "."@ + method)
        } else {
            None
        },
        _ => None,
    }
}

pub open spec fn opt_sig(s: Option<&BuiltinSignature>) -> Option<BuiltinSignature> {
    match s {
        Some(x) => Some(*x),
        None => None,
    }
}

/// The drawing builtin a method on a drawing object names, given the
/// registry's signature for `ns.method` (see
/// `spec_drawing_method_builtin_name`).
pub fn drawing_method_builtin_name(
    receiver_kind: ValueKind,
    method_name: &str,
    signature: Option<&BuiltinSignature>,
) -> (r: Option<String>)
    ensures
        crate::strings::opt_string_view(r) == spec_drawing_method_builtin_name(receiver_kind, method_name@, opt_sig(signature)),
{
    let ns = match drawing_namespace(receiver_kind) {
        Some(ns) => ns,
        None => return None,
    };
    let sig = match signature {
        Some(sig) => sig,
        None => return None,
    };
    if sig.params.len() == 0 {
        return None;
    }
    match receiver_acceptor(receiver_kind) {
        Some(a) => {
            if a != sig.params[0].accepts {
                return None;
            }
        },
        None => return None,
    }
    let name = String::from_str(ns);
    let name = name.concat(".");
    Some(name.concat(method_name))
}

/// Where a method call goes.
#[derive(Debug, PartialEq, Eq)]
pub enum MethodDispatch {
    UserMethod,
    Drawing(String),
    MapOperation(String),
    Builtin(String),
    Rejected,
}

pub enum DispatchView {
    UserMethod,
    Drawing(Seq<char>),
    MapOperation(Seq<char>),
    Builtin(Seq<char>),
    Rejected,
}

impl MethodDispatch {
    pub open spec fn view(&self) -> DispatchView {
        match self {
            MethodDispatch::UserMethod => DispatchView::UserMethod,
            MethodDispatch::Drawing(s) => DispatchView::Drawing(s@),
            MethodDispatch::MapOperation(s) => DispatchView::MapOperation(s@),
            MethodDispatch::Builtin(s) => DispatchView::Builtin(s@),
            MethodDispatch::Rejected => DispatchView::Rejected,
        }
    }
}

/// What dispatching a method call comes to: where it goes, what it reports
/// and refuses, and the supported feature it records.
pub struct MethodPlanView {
    pub dispatch: DispatchView,
    pub diags: Seq<DiagView>,
    pub refusals: Seq<UnsupportedView>,
    pub uses: Seq<(Seq<char>, Span)>,
}

pub open spec fn refused_plan(feature: Seq<char>, reason: Seq<char>, span: Span) -> MethodPlanView {
    MethodPlanView {
        dispatch: DispatchView::Rejected,
        diags: seq![unsupported_diag(feature, reason, span)],
        refusals: seq![(feature, reason, span)],
        uses: Seq::empty(),
    }
}

pub open spec fn error_plan(code: Seq<char>, message: Seq<char>, span: Span) -> MethodPlanView {
    MethodPlanView {
        dispatch: DispatchView::Rejected,
        diags: seq![error_view(code, message, span)],
        refusals: Seq::empty(),
        uses: Seq::empty(),
    }
}

/// A registered builtin that a method call goes to: recorded as a supported
/// feature, and refused as a side effect inside a user-defined function
/// where `refuse_inside_function` holds.
pub open spec fn builtin_plan(
    dispatch: DispatchView,
    name: Seq<char>,
    span: Span,
    refusal: Option<Seq<char>>,
) -> MethodPlanView {
    MethodPlanView {
        dispatch,
        diags: match refusal {
            Some(r) => seq![unsupported_diag("function_side_effect"@, r, span)],
            None => Seq::empty(),
        },
        refusals: match refusal {
            Some(r) => seq![("function_side_effect"@, r, span)],
            None => Seq::empty(),
        },
        uses: seq![(name, span)],
    }
}

/// The array or matrix builtin a method names: the matrix builtin the
/// registry gives (`matrix_builtin`), or for an array receiver `array.m`.
pub open spec fn spec_collection_builtin(kind: ValueKind, method: Seq<char>, matrix_builtin: Option<Seq<char>>) -> Option<
    Seq<char>,
> {
    match matrix_builtin {
        Some(m) => Some(m),
        None => if spec_array_element_kind(kind) is Some && spec_is_array_method(method) {
            Some("array."@ + method)
        } else {
            None
        },
    }
}

/// Where a call of method `method` on a receiver of type `receiver` (as the
/// analysis typed it) goes, inside `function_depth` user-defined functions,
/// given the registry's signature for the drawing builtin `ns.method`
/// (`drawing_signature`), the matrix builtin the method names
/// (`matrix_builtin`) and whether the array or matrix builtin it names is
/// registered (`registered`).
pub open spec fn spec_plan_method_call(
    receiver: PineType,
    method: Seq<char>,
    span: Span,
    function_depth: nat,
    drawing_signature: Option<BuiltinSignature>,
    matrix_builtin: Option<Seq<char>>,
    registered: bool,
) -> MethodPlanView {
    let kind = receiver.kind;
    if kind == ValueKind::UserType {
        MethodPlanView { dispatch: DispatchView::UserMethod, diags: Seq::empty(), refusals: Seq::empty(), uses: Seq::empty() }
    } else if let Some(b) = spec_drawing_method_builtin_name(kind, method, drawing_signature) {
        builtin_plan(
            DispatchView::Drawing(b),
            b,
            span,
            if function_depth > 0 && spec_is_output_or_declaration_builtin(b) {
                Some(FUNCTION_OUTPUT_SIDE_EFFECT_REASON@)
            } else {
                None
            },
        )
    } else if kind == ValueKind::Label || kind == ValueKind::Line || kind == ValueKind::LineFill || kind
        == ValueKind::Box || kind == ValueKind::Table {
        refused_plan(
            spec_drawing_namespace(kind).unwrap() + "."@ + method,
            "this drawing object call is not supported in the current partial drawing subset"@,
            span,
        )
    } else if kind == ValueKind::MapValue {
        if spec_is_map_method(method) {
            MethodPlanView {
                dispatch: DispatchView::MapOperation("map."@ + method),
                diags: Seq::empty(),
                refusals: Seq::empty(),
                uses: Seq::empty(),
            }
        } else {
            error_plan("E_UNKNOWN_METHOD"@, "unknown map method `"@ + method + "`"@, span)
        }
    } else {
        match spec_collection_builtin(kind, method, matrix_builtin) {
            None => if spec_array_element_kind(kind) is None {
                error_plan(
                    "E_METHOD_RECEIVER_TYPE"@,
                    "method `"@ + method + "` is not supported for "@ + spec_type_debug_label(receiver),
                    span,
                )
            } else {
                error_plan("E_UNKNOWN_METHOD"@, "unknown array method `"@ + method + "`"@, span)
            },
            Some(b) => if !registered {
                error_plan("E_UNKNOWN_METHOD"@, "unknown array method `"@ + method + "`"@, span)
            } else {
                builtin_plan(
                    DispatchView::Builtin(b),
                    b,
                    span,
                    if function_depth > 0 && spec_is_array_mutation_builtin(b) {
                        Some(spec_collection_mutation_udf_reason(b))
                    } else {
                        None
                    },
                )
            },
        }
    }
}

fn record_builtin(
    name: &str,
    span: Span,
    refusal: Option<String>,
    supported: &mut Vec<FeatureUse>,
    report: &mut Vec<UnsupportedFeature>,
    diagnostics: &mut Vec<Diagnostic>,
)
    ensures
        ({
            let p = builtin_plan(DispatchView::Rejected, name@, span, crate::strings::opt_string_view(refusal));
            &&& feature_uses_view(final(supported)@) == feature_uses_view(old(supported)@) + p.uses
            &&& unsupported_view(final(report)@) == unsupported_view(old(report)@) + p.refusals
            &&& diags_view(final(diagnostics)@) == diags_view(old(diagnostics)@) + p.diags
        }),
{
    push_feature_use(supported, name, span);
    match refusal {
        Some(reason) => unsupported("function_side_effect", reason.as_str(), span, report, diagnostics),
        None => {
            assert(unsupported_view(report@) =~= unsupported_view(report@) + Seq::<UnsupportedView>::empty());
            assert(diags_view(diagnostics@) =~= diags_view(diagnostics@) + Seq::<DiagView>::empty());
        },
    }
}

/// Dispatches a call of method `method_name` on a receiver of type
/// `receiver` at `span` (see `spec_plan_method_call`), recording the
/// builtin it goes to and reporting what refuses it.
pub fn plan_method_call(
    receiver: PineType,
    method_name: &str,
    span: Span,
    function_depth: usize,
    drawing_signature: Option<&BuiltinSignature>,
    matrix_builtin: Option<&str>,
    registered: bool,
    supported: &mut Vec<FeatureUse>,
    report: &mut Vec<UnsupportedFeature>,
    diagnostics: &mut Vec<Diagnostic>,
) -> (r: MethodDispatch)
    ensures
        ({
            let p = spec_plan_method_call(
                receiver,
                method_name@,
                span,
                function_depth as nat,
                opt_sig(drawing_signature),
                crate::arg_facts::opt_str_view(matrix_builtin),
                registered,
            );
            &&& r@ == p.dispatch
            &&& feature_uses_view(final(supported)@) == feature_uses_view(old(supported)@) + p.uses
            &&& unsupported_view(final(report)@) == unsupported_view(old(report)@) + p.refusals
            &&& diags_view(final(diagnostics)@) == diags_view(old(diagnostics)@) + p.diags
        }),
{
    let ghost s0 = feature_uses_view(supported@);
    let ghost r0 = unsupported_view(report@);
    let ghost d0 = diags_view(diagnostics@);
    proof {
        assert(s0 =~= s0 + Seq::<(Seq<char>, Span)>::empty());
        assert(r0 =~= r0 + Seq::<UnsupportedView>::empty());
        assert(d0 =~= d0 + Seq::<DiagView>::empty());
    }
    let kind = receiver.kind;
    if kind == ValueKind::UserType {
        return MethodDispatch::UserMethod;
    }
    if let Some(b) = drawing_method_builtin_name(kind, method_name, drawing_signature) {
        let refusal = if function_depth > 0 && is_output_or_declaration_builtin(b.as_str()) {
            Some(String::from_str(FUNCTION_OUTPUT_SIDE_EFFECT_REASON))
        } else {
            None
        };
        record_builtin(b.as_str(), span, refusal, supported, report, diagnostics);
        return MethodDispatch::Drawing(b);
    }
    if kind == ValueKind::Label || kind == ValueKind::Line || kind == ValueKind::LineFill || kind == ValueKind::Box
        || kind == ValueKind::Table {
        let ns = match drawing_namespace(kind) {
            Some(ns) => ns,
            None => "",
        };
        let feature = String::from_str(ns);
        let feature = feature.concat(".");
        let feature = feature.concat(method_name);
        unsupported(
            feature.as_str(),
            "this drawing object call is not supported in the current partial drawing subset",
            span,
            report,
            diagnostics,
        );
        return MethodDispatch::Rejected;
    }
    if kind == ValueKind::MapValue {
        return match map_method_builtin_name(method_name) {
            Some(b) => MethodDispatch::MapOperation(String::from_str(b)),
            None => {
                let s = String::from_str("unknown map method `");
                let s = s.concat(method_name);
                let s = s.concat("`");
                push_error(diagnostics, "E_UNKNOWN_METHOD", s, span);
                MethodDispatch::Rejected
            },
        };
    }
    let is_array = kind.array_element_kind().is_some();
    let builtin: Option<String> = match matrix_builtin {
        Some(m) => Some(String::from_str(m)),
        None => if is_array {
            match array_method_builtin_name(method_name) {
                Some(b) => Some(String::from_str(b)),
                None => None,
            }
        } else {
            None
        },
    };
    match builtin {
        None => {
            if !is_array {
                let s = String::from_str("method `");
                let s = s.concat(method_name);
                let s = s.concat("` is not supported for ");
                let s = s.concat(type_debug_label(receiver).as_str());
                push_error(diagnostics, "E_METHOD_RECEIVER_TYPE", s, span);
            } else {
                let s = String::from_str("unknown array method `");
                let s = s.concat(method_name);
                let s = s.concat("`");
                push_error(diagnostics, "E_UNKNOWN_METHOD", s, span);
            }
            MethodDispatch::Rejected
        },
        Some(b) => {
            if !registered {
                let s = String::from_str("unknown array method `");
                let s = s.concat(method_name);
                let s = s.concat("`");
                push_error(diagnostics, "E_UNKNOWN_METHOD", s, span);
                return MethodDispatch::Rejected;
            }
            let refusal = if function_depth > 0 && is_array_mutation_builtin(b.as_str()) {
                Some(unsupported_collection_mutation_udf_reason(b.as_str()))
            } else {
                None
            };
            record_builtin(b.as_str(), span, refusal, supported, report, diagnostics);
            MethodDispatch::Builtin(b)
        },
    }
}

} // verus!
