//! The analysis of `request.security` calls and their legacy `security`
//! form: which requests the runtime supports, and the type a request gives.
use vstd::prelude::*;
use vstd::string::*;

use crate::call_checks::type_at;
use crate::call_helpers::{expr_name, spec_expr_name};
use crate::call_validation::{
    spec_call_args_diags, spec_call_args_refusals, spec_call_args_settings, validate_call_args,
    CallContext,
};
use crate::compatibility::{
    feature_uses_view, push_feature_use, unsupported, unsupported_diag, unsupported_view, FeatureUse,
    UnsupportedFeature, UnsupportedView,
};
use crate::declaration_checks::DrawingSettings;
use crate::request_expressions::{
    request_expression_is_provider_scalar, request_expression_is_provider_tuple_value,
    request_expression_is_same_context_value, spec_provider_tuple_value, spec_request_scalar,
    spec_request_value, RequestScope,
};
use crate::requests::{
    spec_merge_arg_unsupported, spec_security_merge_diags, validate_request_security_merge_args,
    is_request_provider_type, is_request_same_context_type, series_request_type,
    spec_is_request_scalar_type,
};
use crate::signatures::BuiltinSignature;
use crate::strings::str_eq;
use crate::syntax::{diags_view, error_view, push_error, CallArg, DiagView, Diagnostic, Expr, ExprKind, Literal, Span};
use crate::types::{qualifier_at_most, spec_qualifier_at_most, PineType, Qualifier, ValueKind};

verus! {

/// The characters `str::trim` removes: those with the Unicode White_Space
/// property.
pub open spec fn is_unicode_whitespace(c: char) -> bool {
    let u = c as u32;
    (0x9 <= u && u <= 0xd) || u == 0x20 || u == 0x85 || u == 0xa0 || u == 0x1680 || (0x2000 <= u
        && u <= 0x200a) || u == 0x2028 || u == 0x2029 || u == 0x202f || u == 0x205f || u == 0x3000
}

/// A string that is empty once trimmed.
pub open spec fn spec_is_blank(s: Seq<char>) -> bool {
    forall|i: int| 0 <= i < s.len() ==> is_unicode_whitespace(#[trigger] s[i])
}

fn is_whitespace_char(c: char) -> (r: bool)
    ensures
        r == is_unicode_whitespace(c),
{
    let u = c as u32;
    (0x9 <= u && u <= 0xd) || u == 0x20 || u == 0x85 || u == 0xa0 || u == 0x1680 || (0x2000 <= u
        && u <= 0x200a) || u == 0x2028 || u == 0x2029 || u == 0x202f || u == 0x205f || u == 0x3000
}

fn is_blank(s: &str) -> (r: bool)
    ensures
        r == spec_is_blank(s@),
{
    let n = s.unicode_len();
    let mut i: usize = 0;
    while i < n
        invariant
            n == s@.len(),
            i <= n,
            forall|j: int| 0 <= j < i ==> is_unicode_whitespace(#[trigger] s@[j]),
        decreases n - i,
    {
        if !is_whitespace_char(s.get_char(i)) {
            return false;
        }
        i = i + 1;
    }
    true
}

pub const REQUEST_SECURITY_UNSUPPORTED_REASON: &'static str = "only same-context request.security(syminfo.tickerid, timeframe.period, expression) scalar expressions, pure tuple literals, and selected tuple expressions, plus provider-backed same-or-higher-timeframe scalar expressions, pure tuple literals, and selected tuple expressions, are supported; optional gaps/lookahead are limited to barmerge.gaps_off and barmerge.lookahead_off, while lower-timeframe requests, provider local aliases, and side-effecting requested expressions are not implemented";

pub const LEGACY_SECURITY_UNSUPPORTED_REASON: &'static str = "legacy security supports same-context or host-provided same-or-higher-timeframe requests whose expression is in the request.security scalar/tuple subset, including immutable top-level scalar aliases and const/input/simple captures; lower-timeframe requests, block-local aliases, UDF calls, mutable captures, and side effects remain unsupported";

pub const REQUEST_SECURITY_LOWER_TF_UNSUPPORTED_REASON: &'static str = "array-returning lower-timeframe request semantics and host output shape for request.security_lower_tf are not designed in the supported request runtime";

/// What the analysis of a legacy script knows of a requested expression:
/// the canonical names its translator gave calls (by callee span), and
/// whether the legacy rules accept the requested expression as a provider
/// scalar and as a provider tuple.
pub struct RequestFacts {
    pub renames: Vec<(Span, String)>,
    pub legacy_provider_scalar: bool,
    pub legacy_provider_tuple: bool,
}

/// A name for the chart's own symbol.
pub open spec fn spec_is_chart_symbol(e: Expr, legacy: bool) -> bool {
    match spec_expr_name(e) {
        Some(n) => n == "syminfo.tickerid"@ || (legacy && n == "tickerid"@),
        None => false,
    }
}

/// A name for the chart's own timeframe.
pub open spec fn spec_is_chart_timeframe(e: Expr, legacy: bool) -> bool {
    match spec_expr_name(e) {
        Some(n) => n == "timeframe.period"@ || (legacy && n == "period"@),
        None => false,
    }
}

/// A string literal with some character that is not white space.
pub open spec fn spec_is_filled_string_literal(e: Expr) -> bool {
    match e.kind {
        ExprKind::Literal(Literal::Str(v)) => !spec_is_blank(v@),
        _ => false,
    }
}

/// A string at most simple-qualified.
pub open spec fn spec_is_simple_string(t: Option<PineType>) -> bool {
    match t {
        Some(t) => t.kind == ValueKind::String && spec_qualifier_at_most(t.qualifier, Qualifier::Simple),
        None => false,
    }
}

/// Argument `i` names the chart's symbol (`i == 0`) or timeframe (`i == 1`).
pub open spec fn spec_same_context_arg(args: Seq<CallArg>, i: int, legacy: bool) -> bool {
    i < args.len() && if i == 0 {
        spec_is_chart_symbol(args[i].value, legacy)
    } else {
        spec_is_chart_timeframe(args[i].value, legacy)
    }
}

/// Argument `i` gives a provider a symbol or timeframe: a filled string
/// literal, or in a legacy script a simple string.
pub open spec fn spec_provider_arg(
    args: Seq<CallArg>,
    arg_types: Seq<Option<PineType>>,
    i: int,
    legacy: bool,
) -> bool {
    (i < args.len() && spec_is_filled_string_literal(args[i].value)) || (legacy
        && spec_is_simple_string(type_at(arg_types, i)))
}

/// Whether the requested expression (the third argument) is one the request
/// can evaluate: in the script's context for a same-context request; else,
/// for a tuple type, a provider tuple; else, where a provider gives the
/// symbol or timeframe, a provider scalar. Legacy scripts use the legacy
/// rules' verdicts in `facts`.
pub open spec fn spec_requested_expression_supported(
    args: Seq<CallArg>,
    arg_types: Seq<Option<PineType>>,
    legacy: bool,
    facts: RequestFacts,
) -> bool {
    let same_context = spec_same_context_arg(args, 0, legacy) && spec_same_context_arg(args, 1, legacy);
    let provider = spec_provider_arg(args, arg_types, 0, legacy) || spec_provider_arg(args, arg_types, 1, legacy);
    args.len() > 2 && if same_context {
        spec_request_value(RequestScope::SameContext, facts.renames@, args[2].value)
    } else if type_at(arg_types, 2) matches Some(t) && t.kind == ValueKind::Tuple {
        if legacy {
            facts.legacy_provider_tuple
        } else {
            spec_provider_tuple_value(facts.renames@, args[2].value)
        }
    } else if provider {
        if legacy {
            facts.legacy_provider_scalar
        } else {
            spec_request_scalar(RequestScope::Provider, facts.renames@, args[2].value)
        }
    } else {
        false
    }
}

/// Whether the request is outside what the runtime supports: a symbol or a
/// timeframe that is neither the chart's nor given to a provider, a
/// requested type that is not a scalar or a tuple, or an unsupported
/// requested expression.
pub open spec fn spec_request_refused(
    args: Seq<CallArg>,
    arg_types: Seq<Option<PineType>>,
    legacy: bool,
    facts: RequestFacts,
) -> bool {
    ||| !spec_same_context_arg(args, 0, legacy) && !spec_provider_arg(args, arg_types, 0, legacy)
    ||| !spec_same_context_arg(args, 1, legacy) && !spec_provider_arg(args, arg_types, 1, legacy)
    ||| match type_at(arg_types, 2) {
        Some(t) => !(spec_is_request_scalar_type(t) || t.kind == ValueKind::Tuple),
        None => true,
    }
    ||| !spec_requested_expression_supported(args, arg_types, legacy, facts)
}

/// The type a request gives: the requested type, series-qualified.
pub open spec fn spec_request_type(arg_types: Seq<Option<PineType>>) -> Option<PineType> {
    match type_at(arg_types, 2) {
        Some(t) => Some(PineType { qualifier: Qualifier::Series, kind: t.kind }),
        None => None,
    }
}

pub open spec fn request_feature(legacy: bool) -> Seq<char> {
    if legacy {
        "security"@
    } else {
        "request.security"@
    }
}

/// A request for the chart's own symbol and timeframe whose expression is a
/// value the script's context can evaluate, of a scalar or tuple type, is
/// supported.
pub proof fn lemma_same_context_requests_of_context_values_are_supported(
    args: Seq<CallArg>,
    arg_types: Seq<Option<PineType>>,
    legacy: bool,
    facts: RequestFacts,
)
    requires
        args.len() > 2,
        spec_same_context_arg(args, 0, legacy),
        spec_same_context_arg(args, 1, legacy),
        type_at(arg_types, 2) matches Some(t) && (spec_is_request_scalar_type(t) || t.kind == ValueKind::Tuple),
        spec_request_value(RequestScope::SameContext, facts.renames@, args[2].value),
    ensures
        !spec_request_refused(args, arg_types, legacy, facts),
{
}

fn arg_type_at(arg_types: &[Option<PineType>], i: usize) -> (r: Option<PineType>)
    ensures
        r == type_at(arg_types@, i as int),
{
    if i < arg_types.len() {
        arg_types[i]
    } else {
        None
    }
}

fn is_chart_name(e: &Expr, current: &str, legacy_name: &str, legacy: bool) -> (r: bool)
    ensures
        r == match spec_expr_name(*e) {
            Some(n) => n == current@ || (legacy && n == legacy_name@),
            None => false,
        },
{
    match expr_name(e) {
        Some(n) => str_eq(n.as_str(), current) || (legacy && str_eq(n.as_str(), legacy_name)),
        None => false,
    }
}

fn same_context_arg(args: &[CallArg], i: usize, legacy: bool) -> (r: bool)
    requires
        i < 2,
    ensures
        r == spec_same_context_arg(args@, i as int, legacy),
{
    if i >= args.len() {
        return false;
    }
    if i == 0 {
        is_chart_name(&args[i].value, "syminfo.tickerid", "tickerid", legacy)
    } else {
        is_chart_name(&args[i].value, "timeframe.period", "period", legacy)
    }
}

fn provider_arg(args: &[CallArg], arg_types: &[Option<PineType>], i: usize, legacy: bool) -> (r: bool)
    ensures
        r == spec_provider_arg(args@, arg_types@, i as int, legacy),
{
    let literal = i < args.len() && match &args[i].value.kind {
        ExprKind::Literal(Literal::Str(v)) => !is_blank(v.as_str()),
        _ => false,
    };
    let simple_string = match arg_type_at(arg_types, i) {
        Some(t) => t.kind == ValueKind::String && qualifier_at_most(t.qualifier, Qualifier::Simple),
        None => false,
    };
    literal || (legacy && simple_string)
}

fn requested_expression_supported(
    args: &[CallArg],
    arg_types: &[Option<PineType>],
    legacy: bool,
    facts: &RequestFacts,
) -> (r: bool)
    ensures
        r == spec_requested_expression_supported(args@, arg_types@, legacy, *facts),
{
    if args.len() <= 2 {
        return false;
    }
    let same_context = same_context_arg(args, 0, legacy) && same_context_arg(args, 1, legacy);
    let provider = provider_arg(args, arg_types, 0, legacy) || provider_arg(args, arg_types, 1, legacy);
    let renames = facts.renames.as_slice();
    let tuple = match arg_type_at(arg_types, 2) {
        Some(t) => t.kind == ValueKind::Tuple,
        None => false,
    };
    if same_context {
        request_expression_is_same_context_value(&args[2].value, renames)
    } else if tuple {
        if legacy {
            facts.legacy_provider_tuple
        } else {
            request_expression_is_provider_tuple_value(&args[2].value, renames)
        }
    } else if provider {
        if legacy {
            facts.legacy_provider_scalar
        } else {
            request_expression_is_provider_scalar(&args[2].value, renames)
        }
    } else {
        false
    }
}

fn request_refused(
    args: &[CallArg],
    arg_types: &[Option<PineType>],
    legacy: bool,
    facts: &RequestFacts,
) -> (r: bool)
    ensures
        r == spec_request_refused(args@, arg_types@, legacy, *facts),
{
    let mut refused = false;
    let same_symbol = same_context_arg(args, 0, legacy);
    if !same_symbol && !provider_arg(args, arg_types, 0, legacy) {
        refused = true;
    }
    let same_timeframe = same_context_arg(args, 1, legacy);
    if !same_timeframe && !provider_arg(args, arg_types, 1, legacy) {
        refused = true;
    }
    let expression_type = arg_type_at(arg_types, 2);
    let same_context_request = same_symbol && same_timeframe;
    let type_refused = match expression_type {
        Some(t) => if same_context_request {
            !is_request_same_context_type(t)
        } else {
            !is_request_provider_type(t)
        },
        None => true,
    };
    if type_refused {
        refused = true;
    }
    if !requested_expression_supported(args, arg_types, legacy, facts) {
        refused = true;
    }
    refused
}

/// Analyzes a `request.security` call (or, where `legacy`, a legacy
/// `security` call bound to its arguments) with signature `signature`: its
/// arguments are checked as any builtin call's, and a request the runtime
/// does not support (or one already found `unsupported`) is reported with
/// `unsupported_reason`. Gives the series-qualified requested type.
pub fn analyze_request_security_core(
    signature: &BuiltinSignature,
    span: Span,
    args: &[CallArg],
    arg_types: &[Option<PineType>],
    legacy: bool,
    unsupported_already: bool,
    unsupported_reason: &str,
    context: &CallContext,
    facts: &RequestFacts,
    settings: &mut DrawingSettings,
    report: &mut Vec<UnsupportedFeature>,
    diagnostics: &mut Vec<Diagnostic>,
) -> (r: Option<PineType>)
    ensures
        r == spec_request_type(arg_types@),
        *final(settings) == spec_call_args_settings(*old(settings), *signature, args@, *context),
        ({
            let refused = unsupported_already || spec_request_refused(args@, arg_types@, legacy, *facts);
            &&& unsupported_view(final(report)@) == unsupported_view(old(report)@)
                + spec_call_args_refusals(*signature, args@, *context) + if refused {
                seq![(request_feature(legacy), unsupported_reason@, span)]
            } else {
                Seq::<UnsupportedView>::empty()
            }
            &&& diags_view(final(diagnostics)@) == diags_view(old(diagnostics)@) + spec_call_args_diags(
                *signature,
                args@,
                arg_types@,
                *context,
            ) + if refused {
                seq![unsupported_diag(request_feature(legacy), unsupported_reason@, span)]
            } else {
                Seq::<DiagView>::empty()
            }
        }),
{
    validate_call_args(signature, args, arg_types, context, settings, report, diagnostics);
    let ghost r1 = unsupported_view(report@);
    let ghost d1 = diags_view(diagnostics@);
    let refused = unsupported_already || request_refused(args, arg_types, legacy, facts);
    if refused {
        let feature = if legacy {
            "security"
        } else {
            "request.security"
        };
        unsupported(feature, unsupported_reason, span, report, diagnostics);
    } else {
        assert(r1 =~= r1 + Seq::<UnsupportedView>::empty());
        assert(d1 =~= d1 + Seq::<DiagView>::empty());
    }
    match arg_type_at(arg_types, 2) {
        Some(t) => Some(series_request_type(t)),
        None => None,
    }
}

/// Some of the first three arguments (symbol, timeframe, expression) is named.
pub open spec fn spec_leading_arg_named(args: Seq<CallArg>) -> bool {
    exists|i: int| 0 <= i < 3 && i < args.len() && (#[trigger] args[i]).name is Some
}

pub open spec fn positional_request_error(span: Span) -> DiagView {
    error_view(
        "E_CALL_ARG_NAME"@,
        "`request.security` currently requires symbol, timeframe, and expression as positional arguments"@,
        span,
    )
}

/// What makes a `request.security` call unsupported before its request is
/// looked at: other than three to five arguments, a named symbol, timeframe
/// or expression, or an unsupported merge argument.
pub open spec fn spec_request_call_shape_refused(args: Seq<CallArg>, context: CallContext) -> bool {
    !(3 <= args.len() <= 5) || spec_leading_arg_named(args) || exists|i: int|
        3 <= i < args.len() && #[trigger] spec_merge_arg_unsupported(args, context.facts@, i)
}

/// What a `request.security` call reports besides the refusal of its request.
pub open spec fn spec_request_security_diags(
    signature: BuiltinSignature,
    span: Span,
    args: Seq<CallArg>,
    arg_types: Seq<Option<PineType>>,
    context: CallContext,
) -> Seq<DiagView> {
    (if spec_leading_arg_named(args) {
        seq![positional_request_error(span)]
    } else {
        Seq::<DiagView>::empty()
    }) + spec_security_merge_diags(signature, args, context.facts@) + spec_call_args_diags(
        signature,
        args,
        arg_types,
        context,
    )
}

fn leading_arg_named(args: &[CallArg]) -> (r: bool)
    ensures
        r == spec_leading_arg_named(args@),
{
    let n = if args.len() < 3 {
        args.len()
    } else {
        3
    };
    let mut i: usize = 0;
    while i < n
        invariant
            n <= 3,
            n <= args@.len(),
            n == args@.len() || n == 3,
            i <= n,
            forall|j: int| 0 <= j < i ==> (#[trigger] args@[j]).name is None,
        decreases n - i,
    {
        if args[i].name.is_some() {
            return true;
        }
        i = i + 1;
    }
    false
}

/// Analyzes a `request.security` call: records the feature, checks that
/// symbol, timeframe and expression are positional and the merge arguments
/// supported, then analyzes the request (see
/// `analyze_request_security_core`).
pub fn analyze_request_security(
    signature: &BuiltinSignature,
    span: Span,
    args: &[CallArg],
    arg_types: &[Option<PineType>],
    context: &CallContext,
    facts: &RequestFacts,
    settings: &mut DrawingSettings,
    supported: &mut Vec<FeatureUse>,
    report: &mut Vec<UnsupportedFeature>,
    diagnostics: &mut Vec<Diagnostic>,
) -> (r: Option<PineType>)
    ensures
        r == spec_request_type(arg_types@),
        feature_uses_view(final(supported)@) == feature_uses_view(old(supported)@) + seq![
            ("request.security"@, span),
        ],
        *final(settings) == spec_call_args_settings(*old(settings), *signature, args@, *context),
        ({
            let refused = spec_request_call_shape_refused(args@, *context) || spec_request_refused(
                args@,
                arg_types@,
                false,
                *facts,
            );
            &&& unsupported_view(final(report)@) == unsupported_view(old(report)@)
                + spec_call_args_refusals(*signature, args@, *context) + if refused {
                seq![("request.security"@, REQUEST_SECURITY_UNSUPPORTED_REASON@, span)]
            } else {
                Seq::<UnsupportedView>::empty()
            }
            &&& diags_view(final(diagnostics)@) == diags_view(old(diagnostics)@)
                + spec_request_security_diags(*signature, span, args@, arg_types@, *context) + if refused {
                seq![unsupported_diag("request.security"@, REQUEST_SECURITY_UNSUPPORTED_REASON@, span)]
            } else {
                Seq::<DiagView>::empty()
            }
        }),
{
    push_feature_use(supported, "request.security", span);
    let ghost d0 = diags_view(diagnostics@);
    let mut refused = !(3 <= args.len() && args.len() <= 5);
    let named = leading_arg_named(args);
    if named {
        refused = true;
        push_error(
            diagnostics,
            "E_CALL_ARG_NAME",
            String::from_str(
                "`request.security` currently requires symbol, timeframe, and expression as positional arguments",
            ),
            span,
        );
    } else {
        assert(d0 =~= d0 + Seq::<DiagView>::empty());
    }
    if !validate_request_security_merge_args(signature, args, context.facts.as_slice(), diagnostics) {
        refused = true;
    }
    assert(refused == spec_request_call_shape_refused(args@, *context));
    let ghost d1 = diags_view(diagnostics@);
    let r = analyze_request_security_core(
        signature,
        span,
        args,
        arg_types,
        false,
        refused,
        REQUEST_SECURITY_UNSUPPORTED_REASON,
        context,
        facts,
        settings,
        report,
        diagnostics,
    );
    assert(diags_view(diagnostics@) =~= d0 + spec_request_security_diags(
        *signature,
        span,
        args@,
        arg_types@,
        *context,
    ) + if refused || spec_request_refused(args@, arg_types@, false, *facts) {
        seq![unsupported_diag("request.security"@, REQUEST_SECURITY_UNSUPPORTED_REASON@, span)]
    } else {
        Seq::<DiagView>::empty()
    });
    r
}

/// Analyzes a legacy `security` call bound to the arguments of
/// `request.security` (`args`, with types `arg_types`): records the feature
/// and analyzes the request under the legacy rules.
pub fn analyze_bound_legacy_security(
    signature: &BuiltinSignature,
    span: Span,
    args: &[CallArg],
    arg_types: &[Option<PineType>],
    context: &CallContext,
    facts: &RequestFacts,
    settings: &mut DrawingSettings,
    supported: &mut Vec<FeatureUse>,
    report: &mut Vec<UnsupportedFeature>,
    diagnostics: &mut Vec<Diagnostic>,
) -> (r: Option<PineType>)
    ensures
        r == spec_request_type(arg_types@),
        feature_uses_view(final(supported)@) == feature_uses_view(old(supported)@) + seq![
            ("security"@, span),
        ],
        *final(settings) == spec_call_args_settings(*old(settings), *signature, args@, *context),
        ({
            let refused = spec_request_refused(args@, arg_types@, true, *facts);
            &&& unsupported_view(final(report)@) == unsupported_view(old(report)@)
                + spec_call_args_refusals(*signature, args@, *context) + if refused {
                seq![("security"@, LEGACY_SECURITY_UNSUPPORTED_REASON@, span)]
            } else {
                Seq::<UnsupportedView>::empty()
            }
            &&& diags_view(final(diagnostics)@) == diags_view(old(diagnostics)@) + spec_call_args_diags(
                *signature,
                args@,
                arg_types@,
                *context,
            ) + if refused {
                seq![unsupported_diag("security"@, LEGACY_SECURITY_UNSUPPORTED_REASON@, span)]
            } else {
                Seq::<DiagView>::empty()
            }
        }),
{
    push_feature_use(supported, "security", span);
    analyze_request_security_core(
        signature,
        span,
        args,
        arg_types,
        true,
        false,
        LEGACY_SECURITY_UNSUPPORTED_REASON,
        context,
        facts,
        settings,
        report,
        diagnostics,
    )
}

pub open spec fn request_subset_reason() -> Seq<char> {
    "this request function is outside the supported request.security subset"@
}

/// Analyzes a call of request function `name`: `request.security` as
/// `analyze_request_security` does; any other request function is refused
/// (`request.security_lower_tf` with its own reason) and gives no type.
pub fn analyze_request_call(
    name: &str,
    signature: &BuiltinSignature,
    span: Span,
    args: &[CallArg],
    arg_types: &[Option<PineType>],
    context: &CallContext,
    facts: &RequestFacts,
    settings: &mut DrawingSettings,
    supported: &mut Vec<FeatureUse>,
    report: &mut Vec<UnsupportedFeature>,
    diagnostics: &mut Vec<Diagnostic>,
) -> (r: Option<PineType>)
    ensures
        name@ == "request.security"@ ==> {
            let refused = spec_request_call_shape_refused(args@, *context) || spec_request_refused(
                args@,
                arg_types@,
                false,
                *facts,
            );
            &&& r == spec_request_type(arg_types@)
            &&& feature_uses_view(final(supported)@) == feature_uses_view(old(supported)@) + seq![
                ("request.security"@, span),
            ]
            &&& *final(settings) == spec_call_args_settings(*old(settings), *signature, args@, *context)
            &&& unsupported_view(final(report)@) == unsupported_view(old(report)@)
                + spec_call_args_refusals(*signature, args@, *context) + if refused {
                seq![("request.security"@, REQUEST_SECURITY_UNSUPPORTED_REASON@, span)]
            } else {
                Seq::<UnsupportedView>::empty()
            }
            &&& diags_view(final(diagnostics)@) == diags_view(old(diagnostics)@)
                + spec_request_security_diags(*signature, span, args@, arg_types@, *context) + if refused {
                seq![unsupported_diag("request.security"@, REQUEST_SECURITY_UNSUPPORTED_REASON@, span)]
            } else {
                Seq::<DiagView>::empty()
            }
        },
        name@ != "request.security"@ ==> {
            let reason = if name@ == "request.security_lower_tf"@ {
                REQUEST_SECURITY_LOWER_TF_UNSUPPORTED_REASON@
            } else {
                request_subset_reason()
            };
            &&& r is None
            &&& final(supported)@ == old(supported)@
            &&& *final(settings) == *old(settings)
            &&& unsupported_view(final(report)@) == unsupported_view(old(report)@) + seq![
                (name@, reason, span),
            ]
            &&& diags_view(final(diagnostics)@) == diags_view(old(diagnostics)@) + seq![
                unsupported_diag(name@, reason, span),
            ]
        },
{
    if str_eq(name, "request.security") {
        analyze_request_security(
            signature,
            span,
            args,
            arg_types,
            context,
            facts,
            settings,
            supported,
            report,
            diagnostics,
        )
    } else if str_eq(name, "request.security_lower_tf") {
        unsupported(name, REQUEST_SECURITY_LOWER_TF_UNSUPPORTED_REASON, span, report, diagnostics);
        None
    } else {
        unsupported(
            name,
            "this request function is outside the supported request.security subset",
            span,
            report,
            diagnostics,
        );
        None
    }
}

} // verus!
