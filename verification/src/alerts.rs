//! Alert message placeholders and alert frequencies.
use vstd::prelude::*;
use vstd::string::*;

use crate::arg_facts::{fact_literal_string, literal_string_at, ArgFacts};
use crate::call_checks::{resolve_param, spec_resolve_param, spec_resolve_param_diags};
use crate::compatibility::{unsupported, unsupported_diag, unsupported_view, UnsupportedFeature, UnsupportedView};
use crate::signatures::BuiltinSignature;
use crate::strings::{find, opt_string_view, spec_find, str_eq, strs_view};
use crate::syntax::{concat_diags, concat_steps, diags_view, CallArg, DiagView, Diagnostic};

verus! {

/// The first `{{...}}` placeholder of `s` that is not in `supported`;
/// `{{` when a placeholder is opened and never closed.
pub open spec fn spec_unsupported_alert_placeholder(s: Seq<char>, supported: Seq<Seq<char>>) -> Option<
    Seq<char>,
>
    decreases s.len(),
{
    match spec_find(s, "{{"@) {
        None => None,
        Some(start) => {
            let tail = s.skip(start);
            match spec_find(tail, "}}"@) {
                None => Some("{{"@),
                Some(rel) => {
                    let end = rel + 2;
                    let placeholder = tail.take(end);
                    if !supported.contains(placeholder) {
                        Some(placeholder)
                    } else if 0 <= start && 0 <= rel && end <= tail.len() && tail.len() <= s.len() {
                        spec_unsupported_alert_placeholder(tail.skip(end), supported)
                    } else {
                        None
                    }
                },
            }
        },
    }
}

fn contains_str(items: &[&str], s: &str) -> (r: bool)
    ensures
        r == strs_view(items@).contains(s@),
{
    let n = items.len();
    let mut i: usize = 0;
    while i < n
        invariant
            n == items@.len(),
            i <= n,
            forall|j: int| 0 <= j < i ==> items@[j]@ != s@,
        decreases n - i,
    {
        if str_eq(items[i], s) {
            assert(strs_view(items@)[i as int] == s@);
            return true;
        }
        i = i + 1;
    }
    assert forall|j: int| 0 <= j < strs_view(items@).len() implies strs_view(items@)[j] != s@ by {
        assert(strs_view(items@)[j] == items@[j]@);
    }
    false
}

/// The first alert placeholder of `value` outside `supported`, or `{{` for an
/// unclosed one; `None` when every placeholder is supported.
pub fn unsupported_alert_placeholder(value: &str, supported: &[&str]) -> (r: Option<String>)
    ensures
        opt_string_view(r) == spec_unsupported_alert_placeholder(value@, strs_view(supported@)),
{
    proof {
        reveal_strlit("{{");
        reveal_strlit("}}");
    }
    let ghost sup = strs_view(supported@);
    let mut remaining: &str = value;
    loop
        invariant
            sup == strs_view(supported@),
            "{{"@.len() == 2,
            "}}"@.len() == 2,
            spec_unsupported_alert_placeholder(value@, sup) == spec_unsupported_alert_placeholder(
                remaining@,
                sup,
            ),
        decreases remaining@.len(),
    {
        let start = match find(remaining, "{{") {
            None => {
                return None;
            },
            Some(start) => start,
        };
        let n = remaining.unicode_len();
        let tail = remaining.substring_char(start, n);
        assert(tail@ == remaining@.skip(start as int));
        let relative_end = match find(tail, "}}") {
            None => {
                return Some(String::from_str("{{"));
            },
            Some(rel) => rel,
        };
        let tn = tail.unicode_len();
        let end = relative_end + 2;
        let placeholder = tail.substring_char(0, end);
        assert(placeholder@ == tail@.take(end as int));
        if !contains_str(supported, placeholder) {
            return Some(String::from_str(placeholder));
        }
        remaining = tail.substring_char(end, tn);
        assert(remaining@ == tail@.skip(end as int));
    }
}

/// The alert frequencies that the runtime schedules.
pub open spec fn spec_is_supported_alert_frequency(s: Seq<char>) -> bool {
    s == "alert.freq_all"@ || s == "alert.freq_once_per_bar"@ || s
        == "alert.freq_once_per_bar_close"@
}

pub fn is_supported_alert_frequency(value: &str) -> (r: bool)
    ensures
        r == spec_is_supported_alert_frequency(value@),
{
    str_eq(value, "alert.freq_all") || str_eq(value, "alert.freq_once_per_bar") || str_eq(
        value,
        "alert.freq_once_per_bar_close",
    )
}

pub open spec fn alert_frequency_reason() -> Seq<char> {
    "only alert.freq_all, alert.freq_once_per_bar, and alert.freq_once_per_bar_close are supported in the current alert frequency subset"@
}

/// The placeholders an `alertcondition` message may use.
pub open spec fn alert_condition_placeholders() -> Seq<Seq<char>> {
    seq![
        "{{open}}"@,
        "{{high}}"@,
        "{{low}}"@,
        "{{close}}"@,
        "{{volume}}"@,
        "{{ticker}}"@,
        "{{interval}}"@,
        "{{exchange}}"@,
    ]
}

/// What argument `i` of an alert call is refused for: an unsupported
/// frequency, or a placeholder its message or title may not use.
pub open spec fn spec_alert_arg_refusals(
    signature: BuiltinSignature,
    args: Seq<CallArg>,
    facts: Seq<ArgFacts>,
    i: int,
) -> Seq<UnsupportedView> {
    let name = signature.name@;
    match spec_resolve_param(
        signature.params@,
        signature.variadic,
        i,
        opt_string_view(args[i].name),
    ) {
        None => Seq::empty(),
        Some(k) => {
            let p = signature.params@[k].name@;
            let literal = fact_literal_string(facts, i);
            let freq = if name == "alert"@ && p == "freq"@ && !(literal matches Some(v)
                && spec_is_supported_alert_frequency(v)) {
                seq![("alert_frequency"@, alert_frequency_reason(), args[i].span)]
            } else {
                Seq::empty()
            };
            let supported = if name == "alertcondition"@ && p == "message"@ {
                alert_condition_placeholders()
            } else {
                Seq::empty()
            };
            let placeholder = if p == "message"@ || p == "title"@ {
                match literal {
                    Some(v) => match spec_unsupported_alert_placeholder(v, supported) {
                        Some(x) => seq![
                            (
                                "alert_placeholders"@,
                                "alert placeholder `"@ + x
                                    + "` is not supported in the current alert subset"@,
                                args[i].span,
                            ),
                        ],
                        None => Seq::empty(),
                    },
                    None => Seq::empty(),
                }
            } else {
                Seq::empty()
            };
            freq + placeholder
        },
    }
}

/// What argument `i` of an alert call reports: an unknown argument name,
/// then each refusal.
pub open spec fn spec_alert_arg_diags(
    signature: BuiltinSignature,
    args: Seq<CallArg>,
    facts: Seq<ArgFacts>,
    i: int,
) -> Seq<DiagView> {
    spec_resolve_param_diags(
        signature.name@,
        signature.params@,
        opt_string_view(args[i].name),
        args[i].span,
    ) + spec_alert_arg_refusals(signature, args, facts, i).map_values(
        |u: UnsupportedView| unsupported_diag(u.0, u.1, u.2),
    )
}

pub open spec fn is_alert_call(name: Seq<char>) -> bool {
    name == "alert"@ || name == "alertcondition"@
}

fn check_alert_arg(
    signature: &BuiltinSignature,
    args: &[CallArg],
    facts: &[ArgFacts],
    index: usize,
    report: &mut Vec<UnsupportedFeature>,
    diagnostics: &mut Vec<Diagnostic>,
)
    requires
        index < args@.len(),
    ensures
        unsupported_view(final(report)@) == unsupported_view(old(report)@) + spec_alert_arg_refusals(
            *signature,
            args@,
            facts@,
            index as int,
        ),
        diags_view(final(diagnostics)@) == diags_view(old(diagnostics)@) + spec_alert_arg_diags(
            *signature,
            args@,
            facts@,
            index as int,
        ),
{
    let ghost start_report = unsupported_view(report@);
    let ghost start = diags_view(diagnostics@);
    let arg = &args[index];
    let param = resolve_param(signature, index, arg, diagnostics);
    let ghost resolved = diags_view(diagnostics@);
    let ghost refusals = spec_alert_arg_refusals(*signature, args@, facts@, index as int);
    let param_name = match param {
        Some(p) => p.name,
        None => {
            assert(refusals =~= Seq::<UnsupportedView>::empty());
            assert(unsupported_view(report@) =~= start_report + refusals);
            assert(diags_view(diagnostics@) =~= start + spec_alert_arg_diags(
                *signature,
                args@,
                facts@,
                index as int,
            ));
            return ;
        },
    };
    let literal = literal_string_at(facts, index);
    if str_eq(signature.name, "alert") && str_eq(param_name, "freq") {
        let supported = match literal {
            Some(v) => is_supported_alert_frequency(v),
            None => false,
        };
        if !supported {
            unsupported(
                "alert_frequency",
                "only alert.freq_all, alert.freq_once_per_bar, and alert.freq_once_per_bar_close are supported in the current alert frequency subset",
                arg.span,
                report,
                diagnostics,
            );
        }
    }
    let ghost after_freq = unsupported_view(report@);
    let ghost after_freq_diags = diags_view(diagnostics@);
    if str_eq(param_name, "message") || str_eq(param_name, "title") {
        let condition_message = str_eq(signature.name, "alertcondition") && str_eq(
            param_name,
            "message",
        );
        let placeholders = [
            "{{open}}",
            "{{high}}",
            "{{low}}",
            "{{close}}",
            "{{volume}}",
            "{{ticker}}",
            "{{interval}}",
            "{{exchange}}",
        ];
        let none: [&str; 0] = [];
        assert(strs_view(placeholders@) =~= alert_condition_placeholders());
        assert(strs_view(none@) =~= Seq::<Seq<char>>::empty());
        let found = match literal {
            Some(v) => if condition_message {
                unsupported_alert_placeholder(v, &placeholders)
            } else {
                unsupported_alert_placeholder(v, &none)
            },
            None => None,
        };
        if let Some(placeholder) = found {
            let reason = String::from_str("alert placeholder `");
            let reason = reason.concat(placeholder.as_str());
            let reason = reason.concat("` is not supported in the current alert subset");
            unsupported("alert_placeholders", reason.as_str(), arg.span, report, diagnostics);
        }
    }
    proof {
        reveal_strlit(
            "only alert.freq_all, alert.freq_once_per_bar, and alert.freq_once_per_bar_close are supported in the current alert frequency subset",
        );
    }
    assert(unsupported_view(report@) =~= start_report + refusals);
    assert(refusals.map_values(|u: UnsupportedView| unsupported_diag(u.0, u.1, u.2)) =~= (
    unsupported_view(report@).skip(start_report.len() as int)).map_values(
        |u: UnsupportedView| unsupported_diag(u.0, u.1, u.2),
    ));
    assert(diags_view(diagnostics@) =~= start + spec_alert_arg_diags(
        *signature,
        args@,
        facts@,
        index as int,
    ));
}

/// Checks the arguments of `alert` and `alertcondition` calls: refused
/// frequencies and placeholders go to the report and the diagnostics.
pub fn validate_alert_args(
    signature: &BuiltinSignature,
    args: &[CallArg],
    facts: &[ArgFacts],
    report: &mut Vec<UnsupportedFeature>,
    diagnostics: &mut Vec<Diagnostic>,
)
    ensures
        is_alert_call(signature.name@) ==> unsupported_view(final(report)@) == unsupported_view(
            old(report)@,
        ) + concat_steps(
            args@.len() as int,
            |i: int| spec_alert_arg_refusals(*signature, args@, facts@, i),
        ) && diags_view(final(diagnostics)@) == diags_view(old(diagnostics)@) + concat_diags(
            args@.len() as int,
            |i: int| spec_alert_arg_diags(*signature, args@, facts@, i),
        ),
        !is_alert_call(signature.name@) ==> unsupported_view(final(report)@) == unsupported_view(
            old(report)@,
        ) && diags_view(final(diagnostics)@) == diags_view(old(diagnostics)@),
{
    if !(str_eq(signature.name, "alert") || str_eq(signature.name, "alertcondition")) {
        return ;
    }
    let ghost start_report = unsupported_view(report@);
    let ghost start = diags_view(diagnostics@);
    let ghost f = |i: int| spec_alert_arg_refusals(*signature, args@, facts@, i);
    let ghost g = |i: int| spec_alert_arg_diags(*signature, args@, facts@, i);
    let n = args.len();
    let mut index: usize = 0;
    while index < n
        invariant
            n == args@.len(),
            index <= n,
            f == (|i: int| spec_alert_arg_refusals(*signature, args@, facts@, i)),
            g == (|i: int| spec_alert_arg_diags(*signature, args@, facts@, i)),
            unsupported_view(report@) == start_report + concat_steps(index as int, f),
            diags_view(diagnostics@) == start + concat_diags(index as int, g),
        decreases n - index,
    {
        let ghost before_report = unsupported_view(report@);
        let ghost before = diags_view(diagnostics@);
        check_alert_arg(signature, args, facts, index, report, diagnostics);
        assert(unsupported_view(report@) =~= before_report + f(index as int));
        assert(diags_view(diagnostics@) =~= before + g(index as int));
        index = index + 1;
    }
}

} // verus!
