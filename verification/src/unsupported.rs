//! The reasons diagnostics give for language features outside the supported subset.
use vstd::prelude::*;

use crate::call_helpers::{expr_name, spec_expr_name};
use crate::compatibility::{
    feature_uses_view, push_feature_use, unsupported, unsupported_diag, unsupported_view, FeatureUse,
    UnsupportedFeature,
};
use crate::strings::{spec_starts_with, starts_with, str_eq};
use crate::syntax::{diags_view, DiagView, Diagnostic, Expr, Span};

verus! {

pub const VARIP_DRAWING_UNSUPPORTED_REASON: &'static str = "varip drawing object ids are not supported; retaining only an id would be unsafe while drawing object stores roll back between forming updates";

pub const VARIP_VALUE_UNSUPPORTED_REASON: &'static str = "varip currently supports scalar int, float, bool, string, color, na, scalar typed-array declarations, and chart.point typed-array declarations only; drawing ids, tuples, UDTs, and other value families are not implemented";

pub const VARIP_UDT_UNSUPPORTED_REASON: &'static str = "UDT varip supports only explicit scalar-field declarations or direct scalar-field constructors from the same local or imported identity; untyped non-constructor inference, nested-field UDTs, and non-scalar UDT fields remain unsupported";

pub const VARIP_UDT_ARRAY_UNSUPPORTED_REASON: &'static str = "varip UDT arrays are not supported yet; UDT array varip requires separate array backing-store and UDT identity handoff semantics";

pub const VARIP_MATRIX_UNSUPPORTED_REASON: &'static str = "varip matrix values are not supported yet; matrix varip requires explicit backing-store and realtime handoff semantics";

pub const LOG_UNSUPPORTED_REASON: &'static str = "Pine Logs output is not implemented; log.info, log.warning, and log.error require a host-owned log pane/output contract";

pub const MAP_UNSUPPORTED_REASON: &'static str = "map collections are not implemented; map.* requires a dedicated key/value storage model";

pub const MATRIX_UNSUPPORTED_REASON: &'static str = "this matrix function is outside the supported runtime-owned matrix<float> subset";

pub const STRATEGY_UNSUPPORTED_REASON: &'static str = "strategy order functions beyond the supported strategy.entry/strategy.order market/limit/stop/stop-limit-long and reduce-only-short subset, strategy.close/strategy.close_all/strategy.cancel/strategy.cancel_all/strategy.exit subset, broker emulation settings, and rich backtesting features are not implemented";

pub const STRATEGY_RISK_UNSUPPORTED_REASON: &'static str = "strategy.risk broker risk rules are not implemented; broker emulation must support deterministic order admission, pending-order cancellation, account thresholds, and rule state before risk directives can be accepted";

pub open spec fn spec_unsupported_strategy_reason(name: Seq<char>) -> Option<Seq<char>> {
    if spec_starts_with(name, "strategy.risk."@) {
        Some(STRATEGY_RISK_UNSUPPORTED_REASON@)
    } else if name == "strategy"@ || spec_starts_with(name, "strategy."@) {
        Some(STRATEGY_UNSUPPORTED_REASON@)
    } else {
        None
    }
}

pub open spec fn opt_static_view(r: Option<&'static str>) -> Option<Seq<char>> {
    match r {
        Some(s) => Some(s@),
        None => None,
    }
}

/// Why a strategy builtin outside the broker subset is refused.
pub fn unsupported_strategy_reason(name: &str) -> (r: Option<&'static str>)
    ensures
        opt_static_view(r) == spec_unsupported_strategy_reason(name@),
{
    if starts_with(name, "strategy.risk.") {
        return Some(STRATEGY_RISK_UNSUPPORTED_REASON);
    }
    if str_eq(name, "strategy") || starts_with(name, "strategy.") {
        Some(STRATEGY_UNSUPPORTED_REASON)
    } else {
        None
    }
}

pub open spec fn spec_unsupported_log_reason(name: Seq<char>) -> Option<Seq<char>> {
    if name == "log.info"@ || name == "log.warning"@ || name == "log.error"@ {
        Some(LOG_UNSUPPORTED_REASON@)
    } else {
        None
    }
}

/// Why a Pine Logs call is refused.
pub fn unsupported_log_reason(name: &str) -> (r: Option<&'static str>)
    ensures
        opt_static_view(r) == spec_unsupported_log_reason(name@),
{
    if str_eq(name, "log.info") || str_eq(name, "log.warning") || str_eq(name, "log.error") {
        Some(LOG_UNSUPPORTED_REASON)
    } else {
        None
    }
}

pub open spec fn spec_unsupported_collection_reason(name: Seq<char>) -> Option<Seq<char>> {
    if spec_starts_with(name, "map."@) {
        Some(MAP_UNSUPPORTED_REASON@)
    } else if spec_starts_with(name, "matrix."@) {
        Some(MATRIX_UNSUPPORTED_REASON@)
    } else {
        None
    }
}

/// Why a map or matrix builtin outside the supported collections is refused.
pub fn unsupported_collection_reason(name: &str) -> (r: Option<&'static str>)
    ensures
        opt_static_view(r) == spec_unsupported_collection_reason(name@),
{
    if starts_with(name, "map.") {
        Some(MAP_UNSUPPORTED_REASON)
    } else if starts_with(name, "matrix.") {
        Some(MATRIX_UNSUPPORTED_REASON)
    } else {
        None
    }
}

pub open spec fn spec_unsupported_syntax_reason(feature: Seq<char>) -> Seq<char> {
    if feature == "import"@ {
        "this import form is outside the supported host-provided library import subset"@
    } else if feature == "library"@ {
        "library declarations are not supported in executable scripts"@
    } else if feature == "export"@ {
        "export declarations are only supported in host-provided library sources"@
    } else if feature == "user-defined types"@ {
        "this user-defined type form is outside the supported local scalar-field UDT subset"@
    } else if feature == "user-defined methods"@ {
        "this user-defined method form is outside the supported pure local UDT method subset"@
    } else if feature == "user-defined type field mutation"@ {
        "user-defined type field mutation is not supported; UDT values are immutable in the current subset"@
    } else if feature == "nested field mutation"@ {
        "nested field mutation is not supported in the current object value subset"@
    } else if feature == "strategy state variable mutation"@ {
        "strategy state variables are read-only in the current strategy subset"@
    } else if feature == "function"@ {
        "unsupported user-defined function syntax"@
    } else if feature == "for"@ {
        "unsupported for loop syntax"@
    } else if feature == "for...in"@ {
        "for...in iteration is not supported yet; array iteration needs explicit element, aliasing, and mutation semantics"@
    } else {
        "syntax is not supported in the current language subset"@
    }
}

/// Why a syntax form outside the supported language subset is refused.
pub fn unsupported_syntax_reason(feature: &str) -> (r: &'static str)
    ensures
        r@ == spec_unsupported_syntax_reason(feature@),
{
    if str_eq(feature, "import") {
        return "this import form is outside the supported host-provided library import subset";
    }
    if str_eq(feature, "library") {
        return "library declarations are not supported in executable scripts";
    }
    if str_eq(feature, "export") {
        return "export declarations are only supported in host-provided library sources";
    }
    if str_eq(feature, "user-defined types") {
        return "this user-defined type form is outside the supported local scalar-field UDT subset";
    }
    if str_eq(feature, "user-defined methods") {
        return "this user-defined method form is outside the supported pure local UDT method subset";
    }
    if str_eq(feature, "user-defined type field mutation") {
        return "user-defined type field mutation is not supported; UDT values are immutable in the current subset";
    }
    if str_eq(feature, "nested field mutation") {
        return "nested field mutation is not supported in the current object value subset";
    }
    if str_eq(feature, "strategy state variable mutation") {
        return "strategy state variables are read-only in the current strategy subset";
    }
    if str_eq(feature, "function") {
        return "unsupported user-defined function syntax";
    }
    if str_eq(feature, "for") {
        return "unsupported for loop syntax";
    }
    if str_eq(feature, "for...in") {
        return "for...in iteration is not supported yet; array iteration needs explicit element, aliasing, and mutation semantics";
    }
    "syntax is not supported in the current language subset"
}

pub open spec fn request_subset_reason() -> Seq<char> {
    "this request function is outside the supported request.security subset"@
}

pub open spec fn array_subset_reason() -> Seq<char> {
    "this array function is not supported in the current partial array subset"@
}

pub open spec fn drawing_subset_reason() -> Seq<char> {
    "this drawing object call is not supported in the current partial drawing subset"@
}

pub open spec fn spec_is_drawing_call_name(name: Seq<char>) -> bool {
    spec_starts_with(name, "label."@) || spec_starts_with(name, "line."@) || spec_starts_with(
        name,
        "box."@,
    ) || spec_starts_with(name, "table."@) || spec_starts_with(name, "linefill."@)
        || spec_starts_with(name, "polyline."@)
}

/// Why a feature named `name` is refused, if it is: a supported builtin
/// never is; otherwise log output, unsupported collections, and the strategy,
/// request, array and drawing namespaces are, each with its reason.
pub open spec fn spec_feature_refusal(name: Seq<char>, is_supported_builtin: bool) -> Option<Seq<char>> {
    if is_supported_builtin {
        None
    } else if spec_unsupported_log_reason(name) is Some {
        spec_unsupported_log_reason(name)
    } else if spec_unsupported_collection_reason(name) is Some {
        spec_unsupported_collection_reason(name)
    } else if spec_starts_with(name, "strategy."@) {
        Some(STRATEGY_UNSUPPORTED_REASON@)
    } else if spec_starts_with(name, "request."@) {
        Some(request_subset_reason())
    } else if spec_starts_with(name, "array."@) {
        Some(array_subset_reason())
    } else if spec_is_drawing_call_name(name) {
        Some(drawing_subset_reason())
    } else {
        None
    }
}

fn is_drawing_call_name(name: &str) -> (r: bool)
    ensures
        r == spec_is_drawing_call_name(name@),
{
    starts_with(name, "label.") || starts_with(name, "line.") || starts_with(name, "box.")
        || starts_with(name, "table.") || starts_with(name, "linefill.") || starts_with(
        name,
        "polyline.",
    )
}

/// Why a feature named `name` is refused (see `spec_feature_refusal`).
pub fn feature_refusal(name: &str, is_supported_builtin: bool) -> (r: Option<&'static str>)
    ensures
        opt_static_view(r) == spec_feature_refusal(name@, is_supported_builtin),
{
    if is_supported_builtin {
        return None;
    }
    if let Some(reason) = unsupported_log_reason(name) {
        return Some(reason);
    }
    if let Some(reason) = unsupported_collection_reason(name) {
        return Some(reason);
    }
    if starts_with(name, "strategy.") {
        Some(STRATEGY_UNSUPPORTED_REASON)
    } else if starts_with(name, "request.") {
        Some("this request function is outside the supported request.security subset")
    } else if starts_with(name, "array.") {
        Some("this array function is not supported in the current partial array subset")
    } else if is_drawing_call_name(name) {
        Some("this drawing object call is not supported in the current partial drawing subset")
    } else {
        None
    }
}

/// Checks a feature named `name` used at `span`: a refused one is reported
/// as unsupported, a supported builtin (`is_supported_builtin`, as the
/// builtin registry says) is recorded as a supported feature in use.
pub fn check_feature_name(
    name: &str,
    span: Span,
    is_supported_builtin: bool,
    supported: &mut Vec<FeatureUse>,
    report: &mut Vec<UnsupportedFeature>,
    diagnostics: &mut Vec<Diagnostic>,
)
    ensures
        ({
            let refusal = spec_feature_refusal(name@, is_supported_builtin);
            &&& feature_uses_view(final(supported)@) == feature_uses_view(old(supported)@) + if refusal
                is None && is_supported_builtin {
                seq![(name@, span)]
            } else {
                Seq::empty()
            }
            &&& unsupported_view(final(report)@) == unsupported_view(old(report)@) + match refusal {
                Some(reason) => seq![(name@, reason, span)],
                None => Seq::empty(),
            }
            &&& diags_view(final(diagnostics)@) == diags_view(old(diagnostics)@) + match refusal {
                Some(reason) => seq![unsupported_diag(name@, reason, span)],
                None => Seq::<DiagView>::empty(),
            }
        }),
{
    let ghost s0 = feature_uses_view(supported@);
    let ghost r0 = unsupported_view(report@);
    let ghost d0 = diags_view(diagnostics@);
    match feature_refusal(name, is_supported_builtin) {
        Some(reason) => {
            assert(s0 =~= s0 + Seq::<(Seq<char>, Span)>::empty());
            unsupported(name, reason, span, report, diagnostics);
        },
        None => {
            assert(r0 =~= r0 + Seq::<(Seq<char>, Seq<char>, Span)>::empty());
            assert(d0 =~= d0 + Seq::<DiagView>::empty());
            if is_supported_builtin {
                push_feature_use(supported, name, span);
            } else {
                assert(s0 =~= s0 + Seq::<(Seq<char>, Span)>::empty());
            }
        },
    }
}

/// Checks the feature an identifier or qualified name `expr` names, as
/// `check_feature_name` does; other expressions name no feature.
pub fn check_feature_expr(
    expr: &Expr,
    is_supported_builtin: bool,
    supported: &mut Vec<FeatureUse>,
    report: &mut Vec<UnsupportedFeature>,
    diagnostics: &mut Vec<Diagnostic>,
)
    ensures
        ({
            let refusal = match spec_expr_name(*expr) {
                Some(name) => spec_feature_refusal(name, is_supported_builtin),
                None => None,
            };
            &&& feature_uses_view(final(supported)@) == feature_uses_view(old(supported)@) + match spec_expr_name(*expr) {
                Some(name) => if refusal is None && is_supported_builtin {
                    seq![(name, expr.span)]
                } else {
                    Seq::empty()
                },
                None => Seq::empty(),
            }
            &&& unsupported_view(final(report)@) == unsupported_view(old(report)@) + match (spec_expr_name(*expr), refusal) {
                (Some(name), Some(reason)) => seq![(name, reason, expr.span)],
                _ => Seq::empty(),
            }
            &&& diags_view(final(diagnostics)@) == diags_view(old(diagnostics)@) + match (spec_expr_name(*expr), refusal) {
                (Some(name), Some(reason)) => seq![unsupported_diag(name, reason, expr.span)],
                _ => Seq::<DiagView>::empty(),
            }
        }),
{
    match expr_name(expr) {
        Some(name) => check_feature_name(
            name.as_str(),
            expr.span,
            is_supported_builtin,
            supported,
            report,
            diagnostics,
        ),
        None => {
            assert(feature_uses_view(supported@) =~= feature_uses_view(supported@) + Seq::<(Seq<char>, Span)>::empty());
            assert(unsupported_view(report@) =~= unsupported_view(report@) + Seq::<(Seq<char>, Seq<char>, Span)>::empty());
            assert(diags_view(diagnostics@) =~= diags_view(diagnostics@) + Seq::<DiagView>::empty());
        },
    }
}

} // verus!
