//! Which `request.security` expressions and types the request runtime supports.
use vstd::prelude::*;

use crate::arg_facts::{fact_known_string, known_string_at, ArgFacts};
use crate::declaration_checks::{label_string_diags, validate_label_string_arg};
use crate::signatures::BuiltinSignature;
use crate::strings::{str_eq, strs_view};
use crate::syntax::{diags_view, CallArg, DiagView, Diagnostic};
use crate::types::{PineType, Qualifier, ValueKind};

verus! {

/// A requested value is always series-qualified.
pub fn series_request_type(pine_type: PineType) -> (r: PineType)
    ensures
        r == (PineType { qualifier: Qualifier::Series, kind: pine_type.kind }),
{
    PineType::new(Qualifier::Series, pine_type.kind)
}

pub open spec fn spec_is_request_scalar_type(t: PineType) -> bool {
    t.kind == ValueKind::Int || t.kind == ValueKind::Float || t.kind == ValueKind::Bool || t.kind
        == ValueKind::String || t.kind == ValueKind::Color || t.kind == ValueKind::Na
}

/// The scalar kinds a request may return.
pub fn is_request_scalar_type(pine_type: PineType) -> (r: bool)
    ensures
        r == spec_is_request_scalar_type(pine_type),
{
    matches!(
        pine_type.kind,
        ValueKind::Int | ValueKind::Float | ValueKind::Bool | ValueKind::String | ValueKind::Color
            | ValueKind::Na
    )
}

/// A same-context request returns a scalar or a tuple.
pub fn is_request_same_context_type(pine_type: PineType) -> (r: bool)
    ensures
        r == (spec_is_request_scalar_type(pine_type) || pine_type.kind == ValueKind::Tuple),
{
    is_request_scalar_type(pine_type) || pine_type.kind == ValueKind::Tuple
}

/// A provider-backed request returns a scalar or a tuple.
pub fn is_request_provider_type(pine_type: PineType) -> (r: bool)
    ensures
        r == (spec_is_request_scalar_type(pine_type) || pine_type.kind == ValueKind::Tuple),
{
    is_request_scalar_type(pine_type) || pine_type.kind == ValueKind::Tuple
}

pub open spec fn spec_request_tuple_call_is_supported(name: Seq<char>) -> bool {
    name == "ta.macd"@ || name == "ta.bb"@ || name == "ta.kc"@ || name == "ta.supertrend"@
        || name == "ta.dmi"@ || name == "ta.vwap"@
}

/// Tuple-returning calls a same-context request may evaluate.
pub fn request_tuple_call_is_supported(name: &str) -> (r: bool)
    ensures
        r == spec_request_tuple_call_is_supported(name@),
{
    str_eq(name, "ta.macd") || str_eq(name, "ta.bb") || str_eq(name, "ta.kc")
        || str_eq(name, "ta.supertrend") || str_eq(name, "ta.dmi") || str_eq(name, "ta.vwap")
}

pub open spec fn spec_request_provider_tuple_call_is_supported(name: Seq<char>) -> bool {
    name == "ta.macd"@ || name == "ta.bb"@ || name == "ta.kc"@ || name == "ta.supertrend"@
        || name == "ta.dmi"@ || name == "ta.vwap"@
}

/// Tuple-returning calls a provider-backed request may evaluate.
pub fn request_provider_tuple_call_is_supported(name: &str) -> (r: bool)
    ensures
        r == spec_request_provider_tuple_call_is_supported(name@),
{
    str_eq(name, "ta.macd") || str_eq(name, "ta.bb") || str_eq(name, "ta.kc")
        || str_eq(name, "ta.supertrend") || str_eq(name, "ta.dmi") || str_eq(name, "ta.vwap")
}

pub open spec fn spec_is_request_provider_scalar_name(name: Seq<char>) -> bool {
    name == "syminfo.tickerid"@ || name == "timeframe.period"@ || name == "open"@
        || name == "high"@ || name == "low"@ || name == "close"@ || name == "volume"@
        || name == "time"@ || name == "ta.accdist"@ || name == "ta.iii"@ || name == "ta.nvi"@
        || name == "ta.obv"@ || name == "ta.pvi"@ || name == "ta.pvt"@ || name == "ta.wvad"@
}

/// Names a provider-backed request can read directly.
pub fn is_request_provider_scalar_name(name: &str) -> (r: bool)
    ensures
        r == spec_is_request_provider_scalar_name(name@),
{
    str_eq(name, "syminfo.tickerid") || str_eq(name, "timeframe.period") || str_eq(name, "open")
        || str_eq(name, "high") || str_eq(name, "low") || str_eq(name, "close")
        || str_eq(name, "volume") || str_eq(name, "time") || str_eq(name, "ta.accdist")
        || str_eq(name, "ta.iii") || str_eq(name, "ta.nvi") || str_eq(name, "ta.obv")
        || str_eq(name, "ta.pvi") || str_eq(name, "ta.pvt") || str_eq(name, "ta.wvad")
}

pub open spec fn spec_request_scalar_call_is_supported(name: Seq<char>) -> bool {
    name == "na"@ || name == "nz"@ || name == "math.abs"@ || name == "math.max"@
        || name == "math.min"@ || name == "math.avg"@ || name == "math.floor"@
        || name == "math.ceil"@ || name == "math.trunc"@ || name == "math.sqrt"@
        || name == "math.cbrt"@ || name == "math.log"@ || name == "math.log10"@
        || name == "math.exp"@ || name == "math.acos"@ || name == "math.asin"@
        || name == "math.atan"@ || name == "math.sign"@ || name == "math.todegrees"@
        || name == "math.toradians"@ || name == "math.sin"@ || name == "math.cos"@
        || name == "math.tan"@ || name == "math.pow"@ || name == "math.hypot"@
        || name == "math.round"@ || name == "math.round_to_mintick"@ || name == "math.sum"@
        || name == "ta.cum"@ || name == "ta.sma"@ || name == "ta.ema"@ || name == "ta.dema"@
        || name == "ta.tema"@ || name == "ta.rma"@ || name == "ta.rsi"@ || name == "ta.tsi"@
        || name == "ta.cmo"@ || name == "ta.cci"@ || name == "ta.cog"@ || name == "ta.bop"@
        || name == "ta.ao"@ || name == "ta.max"@ || name == "ta.min"@ || name == "ta.mfi"@
        || name == "ta.stoch"@ || name == "ta.wpr"@ || name == "ta.sar"@ || name == "ta.tr"@
        || name == "ta.atr"@ || name == "ta.highest"@ || name == "ta.lowest"@
        || name == "ta.highestbars"@ || name == "ta.lowestbars"@ || name == "ta.change"@
        || name == "ta.mom"@ || name == "ta.roc"@ || name == "ta.range"@ || name == "ta.dev"@
        || name == "ta.vwap"@ || name == "ta.bbw"@ || name == "ta.kcw"@
        || name == "ta.pivothigh"@ || name == "ta.pivotlow"@ || name == "ta.correlation"@
        || name == "ta.covariance"@ || name == "ta.median"@ || name == "ta.mode"@
        || name == "ta.percentile_linear_interpolation"@
        || name == "ta.percentile_nearest_rank"@ || name == "ta.percentrank"@
        || name == "ta.stdev"@ || name == "ta.variance"@ || name == "ta.wma"@
        || name == "ta.vwma"@ || name == "ta.swma"@ || name == "ta.hma"@ || name == "ta.alma"@
        || name == "ta.linreg"@ || name == "ta.rising"@ || name == "ta.falling"@
        || name == "ta.barssince"@ || name == "ta.valuewhen"@ || name == "ta.cross"@
        || name == "ta.crossover"@ || name == "ta.crossunder"@
}

/// Scalar calls a requested expression may use.
pub fn request_scalar_call_is_supported(name: &str) -> (r: bool)
    ensures
        r == spec_request_scalar_call_is_supported(name@),
{
    str_eq(name, "na") || str_eq(name, "nz") || str_eq(name, "math.abs")
        || str_eq(name, "math.max") || str_eq(name, "math.min") || str_eq(name, "math.avg")
        || str_eq(name, "math.floor") || str_eq(name, "math.ceil") || str_eq(name, "math.trunc")
        || str_eq(name, "math.sqrt") || str_eq(name, "math.cbrt") || str_eq(name, "math.log")
        || str_eq(name, "math.log10") || str_eq(name, "math.exp") || str_eq(name, "math.acos")
        || str_eq(name, "math.asin") || str_eq(name, "math.atan") || str_eq(name, "math.sign")
        || str_eq(name, "math.todegrees") || str_eq(name, "math.toradians")
        || str_eq(name, "math.sin") || str_eq(name, "math.cos") || str_eq(name, "math.tan")
        || str_eq(name, "math.pow") || str_eq(name, "math.hypot") || str_eq(name, "math.round")
        || str_eq(name, "math.round_to_mintick") || str_eq(name, "math.sum")
        || str_eq(name, "ta.cum") || str_eq(name, "ta.sma") || str_eq(name, "ta.ema")
        || str_eq(name, "ta.dema") || str_eq(name, "ta.tema") || str_eq(name, "ta.rma")
        || str_eq(name, "ta.rsi") || str_eq(name, "ta.tsi") || str_eq(name, "ta.cmo")
        || str_eq(name, "ta.cci") || str_eq(name, "ta.cog") || str_eq(name, "ta.bop")
        || str_eq(name, "ta.ao") || str_eq(name, "ta.max") || str_eq(name, "ta.min")
        || str_eq(name, "ta.mfi") || str_eq(name, "ta.stoch") || str_eq(name, "ta.wpr")
        || str_eq(name, "ta.sar") || str_eq(name, "ta.tr") || str_eq(name, "ta.atr")
        || str_eq(name, "ta.highest") || str_eq(name, "ta.lowest")
        || str_eq(name, "ta.highestbars") || str_eq(name, "ta.lowestbars")
        || str_eq(name, "ta.change") || str_eq(name, "ta.mom") || str_eq(name, "ta.roc")
        || str_eq(name, "ta.range") || str_eq(name, "ta.dev") || str_eq(name, "ta.vwap")
        || str_eq(name, "ta.bbw") || str_eq(name, "ta.kcw") || str_eq(name, "ta.pivothigh")
        || str_eq(name, "ta.pivotlow") || str_eq(name, "ta.correlation")
        || str_eq(name, "ta.covariance") || str_eq(name, "ta.median") || str_eq(name, "ta.mode")
        || str_eq(name, "ta.percentile_linear_interpolation")
        || str_eq(name, "ta.percentile_nearest_rank") || str_eq(name, "ta.percentrank")
        || str_eq(name, "ta.stdev") || str_eq(name, "ta.variance") || str_eq(name, "ta.wma")
        || str_eq(name, "ta.vwma") || str_eq(name, "ta.swma") || str_eq(name, "ta.hma")
        || str_eq(name, "ta.alma") || str_eq(name, "ta.linreg") || str_eq(name, "ta.rising")
        || str_eq(name, "ta.falling") || str_eq(name, "ta.barssince")
        || str_eq(name, "ta.valuewhen") || str_eq(name, "ta.cross")
        || str_eq(name, "ta.crossover") || str_eq(name, "ta.crossunder")
}

/// What argument `i` (from the fourth on) of a `request.security` call
/// leaves unsupported: an argument other than `gaps` or `lookahead`, or a
/// known value other than `barmerge.gaps_off` or `barmerge.lookahead_off`.
pub open spec fn spec_merge_arg_unsupported(args: Seq<CallArg>, facts: Seq<ArgFacts>, i: int) -> bool {
    let allowed: Option<Seq<char>> = match args[i].name {
        Some(n) => if n@ == "gaps"@ || n@ == "lookahead"@ {
            Some(n@)
        } else {
            None
        },
        None => if i == 3 {
            Some("gaps"@)
        } else if i == 4 {
            Some("lookahead"@)
        } else {
            None
        },
    };
    match allowed {
        None => true,
        Some(a) => match fact_known_string(facts, i) {
            None => false,
            Some(v) => v != if a == "gaps"@ {
                "barmerge.gaps_off"@
            } else {
                "barmerge.lookahead_off"@
            },
        },
    }
}

/// What the `gaps` and `lookahead` checks of a `request.security` call report.
pub open spec fn spec_security_merge_diags(
    signature: BuiltinSignature,
    args: Seq<CallArg>,
    facts: Seq<ArgFacts>,
) -> Seq<DiagView> {
    label_string_diags(signature, args, facts, 3, "gaps"@, seq!["barmerge.gaps_off"@])
        + label_string_diags(signature, args, facts, 4, "lookahead"@, seq!["barmerge.lookahead_off"@])
}

/// Checks the merge arguments of a `request.security` call with signature
/// `signature`; `true` when every argument from the fourth on is a supported
/// `gaps` or `lookahead` setting.
pub fn validate_request_security_merge_args(
    signature: &BuiltinSignature,
    args: &[CallArg],
    facts: &[ArgFacts],
    diagnostics: &mut Vec<Diagnostic>,
) -> (r: bool)
    ensures
        r == !(exists|i: int| 3 <= i < args@.len() && #[trigger] spec_merge_arg_unsupported(args@, facts@, i)),
        diags_view(final(diagnostics)@) == diags_view(old(diagnostics)@) + spec_security_merge_diags(
            *signature,
            args@,
            facts@,
        ),
{
    let ghost start = diags_view(diagnostics@);
    let gaps = ["barmerge.gaps_off"];
    assert(strs_view(gaps@) =~= seq!["barmerge.gaps_off"@]);
    validate_label_string_arg(signature, args, facts, 3, "gaps", &gaps, diagnostics);
    let lookahead = ["barmerge.lookahead_off"];
    assert(strs_view(lookahead@) =~= seq!["barmerge.lookahead_off"@]);
    validate_label_string_arg(signature, args, facts, 4, "lookahead", &lookahead, diagnostics);
    let mut supported = true;
    let n = args.len();
    let mut index: usize = 3;
    while index < n
        invariant
            n == args@.len(),
            3 <= index,
            index <= n || n < 3,
            supported == !(exists|i: int| 3 <= i < index && i < n && #[trigger] spec_merge_arg_unsupported(args@, facts@, i)),
        decreases n - index,
    {
        let arg = &args[index];
        let allowed: Option<&str> = match &arg.name {
            Some(name) => if str_eq(name.as_str(), "gaps") {
                Some("gaps")
            } else if str_eq(name.as_str(), "lookahead") {
                Some("lookahead")
            } else {
                None
            },
            None => if index == 3 {
                Some("gaps")
            } else if index == 4 {
                Some("lookahead")
            } else {
                None
            },
        };
        let unsupported = match allowed {
            None => true,
            Some(a) => match known_string_at(facts, index) {
                None => false,
                Some(v) => {
                    let expected = if str_eq(a, "gaps") {
                        "barmerge.gaps_off"
                    } else {
                        "barmerge.lookahead_off"
                    };
                    !str_eq(v, expected)
                },
            },
        };
        proof {
            reveal_strlit("gaps");
            reveal_strlit("lookahead");
        }
        assert(unsupported == spec_merge_arg_unsupported(args@, facts@, index as int));
        if unsupported {
            supported = false;
        }
        index = index + 1;
    }
    supported
}

} // verus!
