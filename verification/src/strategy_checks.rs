//! The argument rules of `strategy.exit`: which argument families may be
//! combined, and what is reported when they may not.
use vstd::prelude::*;

use crate::strategy::{
    is_strategy_state_variable, is_supported_strategy_state_variable, spec_is_strategy_state_variable,
    spec_strategy_exit_arg_family, strategy_exit_arg_family, StrategyExitArgFamily,
};
use crate::arg_facts::{fact_literal_string, literal_string_at, ArgFacts};
use crate::strings::{str_eq, str_in, strs_view};
use crate::syntax::{
    concat_diags, diag_view, diags_view, error_view, push_error as push_error_message, CallArg,
    DiagView, Diagnostic, Span,
};

verus! {

/// The index of the first argument at or after `i` written with one of `names`.
pub open spec fn spec_first_named_from(args: Seq<CallArg>, names: Seq<Seq<char>>, i: int) -> Option<int>
    decreases args.len() - i,
{
    if i < 0 || i >= args.len() {
        None
    } else if args[i].name matches Some(n) && names.contains(n@) {
        Some(i)
    } else {
        spec_first_named_from(args, names, i + 1)
    }
}

/// The span of the first argument written with one of `names`.
pub open spec fn spec_first_named_span(args: Seq<CallArg>, names: Seq<Seq<char>>) -> Option<Span> {
    match spec_first_named_from(args, names, 0) {
        Some(i) => Some(args[i].span),
        None => None,
    }
}

pub open spec fn span_or_empty(s: Option<Span>) -> Span {
    match s {
        Some(s) => s,
        None => Span { start: 0, end: 0 },
    }
}

/// The span of the first argument written with one of `names`.
pub fn first_named_span(args: &[CallArg], names: &[&str]) -> (r: Option<Span>)
    ensures
        r == spec_first_named_span(args@, strs_view(names@)),
{
    let ghost views = strs_view(names@);
    let n = args.len();
    let mut i: usize = 0;
    while i < n
        invariant
            n == args@.len(),
            views == strs_view(names@),
            i <= n,
            spec_first_named_from(args@, views, 0) == spec_first_named_from(args@, views, i as int),
        decreases n - i,
    {
        if let Some(name) = &args[i].name {
            if str_in(name.as_str(), names) {
                return Some(args[i].span);
            }
        }
        i = i + 1;
    }
    None
}

/// The name `strategy.exit` gives its first four positional arguments.
pub open spec fn spec_exit_positional_name(i: int) -> Option<Seq<char>> {
    if i == 0 {
        Some("id"@)
    } else if i == 1 {
        Some("from_entry"@)
    } else if i == 2 {
        Some("stop"@)
    } else if i == 3 {
        Some("limit"@)
    } else {
        None
    }
}

/// The parameter argument `i` binds to: its own name, or its position.
pub open spec fn spec_exit_arg_name(args: Seq<CallArg>, i: int) -> Option<Seq<char>> {
    match args[i].name {
        Some(n) => Some(n@),
        None => spec_exit_positional_name(i),
    }
}

/// Whether some argument binds to `name`.
pub open spec fn exit_binds(args: Seq<CallArg>, name: Seq<char>) -> bool {
    exists|i: int| 0 <= i < args.len() && #[trigger] spec_exit_arg_name(args, i) == Some(name)
}

/// Whether some argument among the first `n` binds to `name`.
pub open spec fn exit_binds_upto(args: Seq<CallArg>, n: int, name: Seq<char>) -> bool {
    exists|i: int| 0 <= i < n && #[trigger] spec_exit_arg_name(args, i) == Some(name)
}

pub open spec fn exit_named_message() -> Seq<char> {
    "`strategy.exit` profit and loss arguments must be named arguments"@
}

pub open spec fn exit_unsupported_message(name: Seq<char>) -> Seq<char> {
    "`strategy.exit` argument `"@ + name + "` is not supported in the current strategy subset"@
}

pub open spec fn exit_qty_message() -> Seq<char> {
    "`strategy.exit` cannot combine `qty` and `qty_percent` in the current strategy subset"@
}

pub open spec fn exit_trailing_mix_message() -> Seq<char> {
    "`strategy.exit` cannot combine trailing exits with fixed stop, limit, profit, or loss triggers in the current strategy subset"@
}

pub open spec fn exit_trailing_shape_message() -> Seq<char> {
    "`strategy.exit` trailing exits require exactly one of `trail_price` or `trail_points` plus `trail_offset`"@
}

pub open spec fn exit_combined_message() -> Seq<char> {
    "`strategy.exit` combined trigger families are not supported in the current strategy subset"@
}

pub open spec fn exit_required_message() -> Seq<char> {
    "`strategy.exit` requires one of `stop`, `limit`, `profit`, or `loss`"@
}

/// What a single argument is reported for: a positional argument past the
/// fourth must be named, and an option outside the supported subset is refused.
pub open spec fn spec_exit_arg_diags(args: Seq<CallArg>, i: int) -> Seq<DiagView> {
    match spec_exit_arg_name(args, i) {
        None => seq![error_view("E_CALL_ARG_NAME"@, exit_named_message(), args[i].span)],
        Some(n) => if spec_strategy_exit_arg_family(n) == Some(StrategyExitArgFamily::UnsupportedOption) {
            seq![error_view("E_CALL_ARG_NAME"@, exit_unsupported_message(n), args[i].span)]
        } else {
            Seq::empty()
        },
    }
}

/// The reports for the first `n` arguments, in order.
pub open spec fn spec_exit_scan_diags(args: Seq<CallArg>, n: int) -> Seq<DiagView>
    decreases n,
{
    if n <= 0 {
        Seq::empty()
    } else {
        spec_exit_scan_diags(args, n - 1) + spec_exit_arg_diags(args, n - 1)
    }
}

pub open spec fn count(b: bool) -> int {
    if b {
        1
    } else {
        0
    }
}

pub open spec fn one_error(code: Seq<char>, message: Seq<char>, span: Span) -> Seq<DiagView> {
    seq![error_view(code, message, span)]
}

/// What the whole argument list is reported for once each argument was seen.
pub open spec fn spec_exit_shape_diags(args: Seq<CallArg>) -> Seq<DiagView> {
    let stop = exit_binds(args, "stop"@);
    let limit = exit_binds(args, "limit"@);
    let profit = exit_binds(args, "profit"@);
    let loss = exit_binds(args, "loss"@);
    let trail_price = exit_binds(args, "trail_price"@);
    let trail_points = exit_binds(args, "trail_points"@);
    let trail_offset = exit_binds(args, "trail_offset"@);
    let unsupported = exit_binds(args, "oca_name"@) || exit_binds(args, "comment"@) || exit_binds(
        args,
        "alert_message"@,
    );
    let qty = if exit_binds(args, "qty"@) && exit_binds(args, "qty_percent"@) {
        one_error(
            "E_CALL_ARG_NAME"@,
            exit_qty_message(),
            span_or_empty(spec_first_named_span(args, seq!["qty_percent"@])),
        )
    } else {
        Seq::empty()
    };
    let triggers = count(stop) + count(limit) + count(profit) + count(loss);
    let activations = count(trail_price) + count(trail_points);
    if activations > 0 || trail_offset {
        let mix = if triggers > 0 {
            one_error(
                "E_CALL_ARG_NAME"@,
                exit_trailing_mix_message(),
                span_or_empty(
                    spec_first_named_span(
                        args,
                        seq![
                            "stop"@,
                            "limit"@,
                            "profit"@,
                            "loss"@,
                            "trail_price"@,
                            "trail_points"@,
                            "trail_offset"@,
                        ],
                    ),
                ),
            )
        } else {
            Seq::empty()
        };
        let shape = if activations != 1 || !trail_offset {
            one_error(
                "E_CALL_ARG_NAME"@,
                exit_trailing_shape_message(),
                span_or_empty(
                    spec_first_named_span(args, seq!["trail_price"@, "trail_points"@, "trail_offset"@]),
                ),
            )
        } else {
            Seq::empty()
        };
        qty + mix + shape
    } else {
        let downside = count(stop) + count(loss);
        let upside = count(limit) + count(profit);
        if !(triggers <= 1 || (triggers == 2 && downside == 1 && upside == 1)) {
            let span = match spec_first_named_span(args, seq!["limit"@, "profit"@, "loss"@]) {
                Some(s) => s,
                None => if args.len() > 3 {
                    args[3].span
                } else {
                    Span { start: 0, end: 0 }
                },
            };
            qty + one_error("E_CALL_ARG_NAME"@, exit_combined_message(), span)
        } else if triggers == 0 && args.len() >= 2 && !unsupported {
            qty + one_error("E_CALL_ARITY"@, exit_required_message(), args[0].span)
        } else {
            qty
        }
    }
}

/// Which flags a scan of the arguments has raised.
struct ExitFlags {
    stop: bool,
    limit: bool,
    profit: bool,
    loss: bool,
    trail_price: bool,
    trail_points: bool,
    trail_offset: bool,
    qty: bool,
    qty_percent: bool,
    unsupported: bool,
}

spec fn flags_upto(f: ExitFlags, args: Seq<CallArg>, n: int) -> bool {
    &&& f.stop == exit_binds_upto(args, n, "stop"@)
    &&& f.limit == exit_binds_upto(args, n, "limit"@)
    &&& f.profit == exit_binds_upto(args, n, "profit"@)
    &&& f.loss == exit_binds_upto(args, n, "loss"@)
    &&& f.trail_price == exit_binds_upto(args, n, "trail_price"@)
    &&& f.trail_points == exit_binds_upto(args, n, "trail_points"@)
    &&& f.trail_offset == exit_binds_upto(args, n, "trail_offset"@)
    &&& f.qty == exit_binds_upto(args, n, "qty"@)
    &&& f.qty_percent == exit_binds_upto(args, n, "qty_percent"@)
    &&& f.unsupported == (exit_binds_upto(args, n, "oca_name"@) || exit_binds_upto(
        args,
        n,
        "comment"@,
    ) || exit_binds_upto(args, n, "alert_message"@))
}

proof fn lemma_binds_step(args: Seq<CallArg>, n: int, name: Seq<char>)
    requires
        0 <= n < args.len(),
    ensures
        exit_binds_upto(args, n + 1, name) == (exit_binds_upto(args, n, name) || spec_exit_arg_name(
            args,
            n,
        ) == Some(name)),
{
    if exit_binds_upto(args, n + 1, name) && !exit_binds_upto(args, n, name) {
        let i = choose|i: int| 0 <= i < n + 1 && #[trigger] spec_exit_arg_name(args, i) == Some(name);
        assert(i == n);
    }
}

proof fn lemma_binds_step_all(args: Seq<CallArg>, n: int)
    requires
        0 <= n < args.len(),
    ensures
        exit_binds_upto(args, n + 1, "stop"@) == (exit_binds_upto(args, n, "stop"@)
            || spec_exit_arg_name(args, n) == Some("stop"@)),
        exit_binds_upto(args, n + 1, "limit"@) == (exit_binds_upto(args, n, "limit"@)
            || spec_exit_arg_name(args, n) == Some("limit"@)),
        exit_binds_upto(args, n + 1, "profit"@) == (exit_binds_upto(args, n, "profit"@)
            || spec_exit_arg_name(args, n) == Some("profit"@)),
        exit_binds_upto(args, n + 1, "loss"@) == (exit_binds_upto(args, n, "loss"@)
            || spec_exit_arg_name(args, n) == Some("loss"@)),
        exit_binds_upto(args, n + 1, "trail_price"@) == (exit_binds_upto(args, n, "trail_price"@)
            || spec_exit_arg_name(args, n) == Some("trail_price"@)),
        exit_binds_upto(args, n + 1, "trail_points"@) == (exit_binds_upto(args, n, "trail_points"@)
            || spec_exit_arg_name(args, n) == Some("trail_points"@)),
        exit_binds_upto(args, n + 1, "trail_offset"@) == (exit_binds_upto(args, n, "trail_offset"@)
            || spec_exit_arg_name(args, n) == Some("trail_offset"@)),
        exit_binds_upto(args, n + 1, "qty"@) == (exit_binds_upto(args, n, "qty"@)
            || spec_exit_arg_name(args, n) == Some("qty"@)),
        exit_binds_upto(args, n + 1, "qty_percent"@) == (exit_binds_upto(args, n, "qty_percent"@)
            || spec_exit_arg_name(args, n) == Some("qty_percent"@)),
        exit_binds_upto(args, n + 1, "oca_name"@) == (exit_binds_upto(args, n, "oca_name"@)
            || spec_exit_arg_name(args, n) == Some("oca_name"@)),
        exit_binds_upto(args, n + 1, "comment"@) == (exit_binds_upto(args, n, "comment"@)
            || spec_exit_arg_name(args, n) == Some("comment"@)),
        exit_binds_upto(args, n + 1, "alert_message"@) == (exit_binds_upto(args, n, "alert_message"@)
            || spec_exit_arg_name(args, n) == Some("alert_message"@)),
{
    lemma_binds_step(args, n, "stop"@);
    lemma_binds_step(args, n, "limit"@);
    lemma_binds_step(args, n, "profit"@);
    lemma_binds_step(args, n, "loss"@);
    lemma_binds_step(args, n, "trail_price"@);
    lemma_binds_step(args, n, "trail_points"@);
    lemma_binds_step(args, n, "trail_offset"@);
    lemma_binds_step(args, n, "qty"@);
    lemma_binds_step(args, n, "qty_percent"@);
    lemma_binds_step(args, n, "oca_name"@);
    lemma_binds_step(args, n, "comment"@);
    lemma_binds_step(args, n, "alert_message"@);
}

/// Each argument family is raised by exactly the names listed for it.
proof fn lemma_exit_family_names(name: Seq<char>)
    ensures
        (spec_strategy_exit_arg_family(name) == Some(StrategyExitArgFamily::DownsidePriceTrigger))
            == (name == "stop"@),
        (spec_strategy_exit_arg_family(name) == Some(StrategyExitArgFamily::DownsideTickTrigger))
            == (name == "loss"@),
        (spec_strategy_exit_arg_family(name) == Some(StrategyExitArgFamily::UpsidePriceTrigger))
            == (name == "limit"@),
        (spec_strategy_exit_arg_family(name) == Some(StrategyExitArgFamily::UpsideTickTrigger))
            == (name == "profit"@),
        (spec_strategy_exit_arg_family(name) == Some(StrategyExitArgFamily::TrailingActivation))
            == (name == "trail_price"@ || name == "trail_points"@),
        (spec_strategy_exit_arg_family(name) == Some(StrategyExitArgFamily::TrailingOffset))
            == (name == "trail_offset"@),
        (spec_strategy_exit_arg_family(name) == Some(StrategyExitArgFamily::Quantity)) == (name
            == "qty"@),
        (spec_strategy_exit_arg_family(name) == Some(StrategyExitArgFamily::PercentQuantity))
            == (name == "qty_percent"@),
        (spec_strategy_exit_arg_family(name) == Some(StrategyExitArgFamily::UnsupportedOption))
            == (name == "oca_name"@ || name == "comment"@ || name == "alert_message"@),
        "trail_price"@ != "trail_points"@,
{
    reveal_strlit("id");
    reveal_strlit("from_entry");
    reveal_strlit("stop");
    reveal_strlit("limit");
    reveal_strlit("profit");
    reveal_strlit("loss");
    reveal_strlit("trail_price");
    reveal_strlit("trail_points");
    reveal_strlit("trail_offset");
    reveal_strlit("qty");
    reveal_strlit("qty_percent");
    reveal_strlit("oca_name");
    reveal_strlit("comment");
    reveal_strlit("alert_message");
    assert("id"@.len() == 2);
    assert("from_entry"@.len() == 10);
    assert("stop"@.len() == 4);
    assert("limit"@.len() == 5);
    assert("profit"@.len() == 6);
    assert("loss"@.len() == 4);
    assert("trail_price"@.len() == 11);
    assert("trail_points"@.len() == 12);
    assert("trail_offset"@.len() == 12);
    assert("qty"@.len() == 3);
    assert("qty_percent"@.len() == 11);
    assert("oca_name"@.len() == 8);
    assert("comment"@.len() == 7);
    assert("alert_message"@.len() == 13);
    assert("stop"@[0] != "loss"@[0]);
    assert("trail_price"@[0] != "qty_percent"@[0]);
    assert("trail_points"@[6] != "trail_offset"@[6]);
}

fn exit_positional_name(index: usize) -> (r: Option<&'static str>)
    ensures
        match r {
            Some(s) => spec_exit_positional_name(index as int) == Some(s@),
            None => spec_exit_positional_name(index as int) is None,
        },
{
    if index == 0 {
        Some("id")
    } else if index == 1 {
        Some("from_entry")
    } else if index == 2 {
        Some("stop")
    } else if index == 3 {
        Some("limit")
    } else {
        None
    }
}

fn exit_unsupported_diagnostic(name: &str, span: Span) -> (r: Diagnostic)
    ensures
        diag_view(r) == error_view("E_CALL_ARG_NAME"@, exit_unsupported_message(name@), span),
{
    let s = String::from_str("`strategy.exit` argument `");
    let s = s.concat(name);
    let s = s.concat("` is not supported in the current strategy subset");
    Diagnostic::error("E_CALL_ARG_NAME", s, span)
}

fn span_or_default(s: Option<Span>) -> (r: Span)
    ensures
        r == span_or_empty(s),
{
    match s {
        Some(s) => s,
        None => Span::new(0, 0),
    }
}

fn push_error(diagnostics: &mut Vec<Diagnostic>, code: &str, message: &str, span: Span)
    ensures
        diags_view(final(diagnostics)@) == diags_view(old(diagnostics)@) + one_error(
            code@,
            message@,
            span,
        ),
{
    let ghost before = diags_view(diagnostics@);
    diagnostics.push(Diagnostic::error(code, String::from_str(message), span));
    assert(diags_view(diagnostics@) =~= before + one_error(code@, message@, span));
}

/// Takes in argument `index`: raises its flag and reports it where needed.
#[verifier::rlimit(50)]
fn exit_scan_step(args: &[CallArg], index: usize, f: &mut ExitFlags, diagnostics: &mut Vec<Diagnostic>)
    requires
        index < args@.len(),
        flags_upto(*old(f), args@, index as int),
    ensures
        flags_upto(*final(f), args@, index as int + 1),
        diags_view(final(diagnostics)@) == diags_view(old(diagnostics)@) + spec_exit_arg_diags(
            args@,
            index as int,
        ),
{
    proof {
        lemma_binds_step_all(args@, index as int);
    }
    let arg = &args[index];
    let ghost before = diags_view(diagnostics@);
    let name: &str = match &arg.name {
        Some(n) => n.as_str(),
        None => match exit_positional_name(index) {
            Some(p) => p,
            None => {
                diagnostics.push(
                    Diagnostic::error("E_CALL_ARG_NAME", String::from_str(
                        "`strategy.exit` profit and loss arguments must be named arguments",
                    ), arg.span),
                );
                proof {
                    reveal_strlit("`strategy.exit` profit and loss arguments must be named arguments");
                    assert(diags_view(diagnostics@) =~= before + spec_exit_arg_diags(
                        args@,
                        index as int,
                    ));
                }
                return ;
            },
        },
    };
    assert(spec_exit_arg_name(args@, index as int) == Some(name@));
    proof {
        lemma_exit_family_names(name@);
    }
    match strategy_exit_arg_family(name) {
        None => {},
        Some(family) => {
            match family {
                StrategyExitArgFamily::Identity => {},
                StrategyExitArgFamily::DownsidePriceTrigger => f.stop = true,
                StrategyExitArgFamily::DownsideTickTrigger => f.loss = true,
                StrategyExitArgFamily::UpsidePriceTrigger => f.limit = true,
                StrategyExitArgFamily::UpsideTickTrigger => f.profit = true,
                StrategyExitArgFamily::TrailingActivation => {
                    if str_eq(name, "trail_price") {
                        f.trail_price = true;
                    } else {
                        f.trail_points = true;
                    }
                },
                StrategyExitArgFamily::TrailingOffset => f.trail_offset = true,
                StrategyExitArgFamily::Quantity => f.qty = true,
                StrategyExitArgFamily::PercentQuantity => f.qty_percent = true,
                StrategyExitArgFamily::UnsupportedOption => {
                    f.unsupported = true;
                    diagnostics.push(exit_unsupported_diagnostic(name, arg.span));
                },
            }
        },
    }
    assert(diags_view(diagnostics@) =~= before + spec_exit_arg_diags(args@, index as int));
}

/// Checks the arguments of a `strategy.exit` call and appends what it reports.
pub fn validate_strategy_exit_args(args: &[CallArg], diagnostics: &mut Vec<Diagnostic>)
    ensures
        diags_view(final(diagnostics)@) == diags_view(old(diagnostics)@) + spec_exit_scan_diags(
            args@,
            args@.len() as int,
        ) + spec_exit_shape_diags(args@),
{
    let ghost start = diags_view(diagnostics@);
    let mut f = ExitFlags {
        stop: false,
        limit: false,
        profit: false,
        loss: false,
        trail_price: false,
        trail_points: false,
        trail_offset: false,
        qty: false,
        qty_percent: false,
        unsupported: false,
    };
    let n = args.len();
    let mut index: usize = 0;
    while index < n
        invariant
            n == args@.len(),
            index <= n,
            flags_upto(f, args@, index as int),
            diags_view(diagnostics@) == start + spec_exit_scan_diags(args@, index as int),
        decreases n - index,
    {
        exit_scan_step(args, index, &mut f, diagnostics);
        index = index + 1;
    }
    proof {
        assert forall|name: Seq<char>|
            #[trigger] exit_binds(args@, name) == exit_binds_upto(args@, n as int, name) by {}
    }
    let ghost mid = diags_view(diagnostics@);
    proof {
        reveal_strlit("qty_percent");
        reveal_strlit("stop");
        reveal_strlit("limit");
        reveal_strlit("profit");
        reveal_strlit("loss");
        reveal_strlit("trail_price");
        reveal_strlit("trail_points");
        reveal_strlit("trail_offset");
    }
    if f.qty && f.qty_percent {
        let names = ["qty_percent"];
        assert(strs_view(names@) =~= seq!["qty_percent"@]);
        push_error(
            diagnostics,
            "E_CALL_ARG_NAME",
            "`strategy.exit` cannot combine `qty` and `qty_percent` in the current strategy subset",
            span_or_default(first_named_span(args, &names)),
        );
    }
    let ghost after_qty = diags_view(diagnostics@);
    let triggers = count_flag(f.stop) + count_flag(f.limit) + count_flag(f.profit) + count_flag(
        f.loss,
    );
    let activations = count_flag(f.trail_price) + count_flag(f.trail_points);
    if activations > 0 || f.trail_offset {
        if triggers > 0 {
            let names = [
                "stop",
                "limit",
                "profit",
                "loss",
                "trail_price",
                "trail_points",
                "trail_offset",
            ];
            assert(strs_view(names@) =~= seq![
                "stop"@,
                "limit"@,
                "profit"@,
                "loss"@,
                "trail_price"@,
                "trail_points"@,
                "trail_offset"@,
            ]);
            push_error(
                diagnostics,
                "E_CALL_ARG_NAME",
                "`strategy.exit` cannot combine trailing exits with fixed stop, limit, profit, or loss triggers in the current strategy subset",
                span_or_default(first_named_span(args, &names)),
            );
        }
        if activations != 1 || !f.trail_offset {
            let names = ["trail_price", "trail_points", "trail_offset"];
            assert(strs_view(names@) =~= seq!["trail_price"@, "trail_points"@, "trail_offset"@]);
            push_error(
                diagnostics,
                "E_CALL_ARG_NAME",
                "`strategy.exit` trailing exits require exactly one of `trail_price` or `trail_points` plus `trail_offset`",
                span_or_default(first_named_span(args, &names)),
            );
        }
        proof {
            reveal_strlit(
                "`strategy.exit` cannot combine `qty` and `qty_percent` in the current strategy subset",
            );
            reveal_strlit(
                "`strategy.exit` cannot combine trailing exits with fixed stop, limit, profit, or loss triggers in the current strategy subset",
            );
            reveal_strlit(
                "`strategy.exit` trailing exits require exactly one of `trail_price` or `trail_points` plus `trail_offset`",
            );
        }
        assert(diags_view(diagnostics@) =~= start + spec_exit_scan_diags(args@, n as int)
            + spec_exit_shape_diags(args@));
        return ;
    }
    let downside = count_flag(f.stop) + count_flag(f.loss);
    let upside = count_flag(f.limit) + count_flag(f.profit);
    let supported = triggers <= 1 || (triggers == 2 && downside == 1 && upside == 1);
    if !supported {
        let names = ["limit", "profit", "loss"];
        assert(strs_view(names@) =~= seq!["limit"@, "profit"@, "loss"@]);
        let span = match first_named_span(args, &names) {
            Some(s) => s,
            None => if args.len() > 3 {
                args[3].span
            } else {
                Span::new(0, 0)
            },
        };
        push_error(
            diagnostics,
            "E_CALL_ARG_NAME",
            "`strategy.exit` combined trigger families are not supported in the current strategy subset",
            span,
        );
    } else if triggers == 0 && args.len() >= 2 && !f.unsupported {
        push_error(
            diagnostics,
            "E_CALL_ARITY",
            "`strategy.exit` requires one of `stop`, `limit`, `profit`, or `loss`",
            args[0].span,
        );
    }
    proof {
        reveal_strlit(
            "`strategy.exit` cannot combine `qty` and `qty_percent` in the current strategy subset",
        );
        reveal_strlit(
            "`strategy.exit` combined trigger families are not supported in the current strategy subset",
        );
        reveal_strlit("`strategy.exit` requires one of `stop`, `limit`, `profit`, or `loss`");
    }
    assert(diags_view(diagnostics@) =~= start + spec_exit_scan_diags(args@, n as int)
        + spec_exit_shape_diags(args@));
}

fn count_flag(b: bool) -> (r: usize)
    ensures
        r == count(b),
{
    if b {
        1
    } else {
        0
    }
}

/// The kind of script a declaration makes.
#[derive(Clone, Copy, Debug, PartialEq, Eq, Structural, Hash)]
pub enum ScriptMode {
    Indicator,
    Strategy,
}

pub open spec fn spec_script_mode_debug_name(mode: ScriptMode) -> Seq<char> {
    match mode {
        ScriptMode::Indicator => "Indicator"@,
        ScriptMode::Strategy => "Strategy"@,
    }
}

fn script_mode_debug_name(mode: ScriptMode) -> (r: &'static str)
    ensures
        r@ == spec_script_mode_debug_name(mode),
{
    match mode {
        ScriptMode::Indicator => "Indicator",
        ScriptMode::Strategy => "Strategy",
    }
}

/// The script mode a declaration call makes, if it is one.
pub open spec fn spec_declared_mode(name: Seq<char>) -> Option<ScriptMode> {
    if name == "indicator"@ {
        Some(ScriptMode::Indicator)
    } else if name == "strategy"@ {
        Some(ScriptMode::Strategy)
    } else {
        None
    }
}

/// What a script declaration call reports: one inside a block or function,
/// or one after the script was already declared.
pub open spec fn spec_script_declaration_diags(
    name: Seq<char>,
    span: Span,
    nested: bool,
    declaration: Option<(ScriptMode, Span)>,
) -> Seq<DiagView> {
    if spec_declared_mode(name) is None {
        Seq::empty()
    } else if nested {
        seq![error_view("E_SCRIPT_DECL_LOCATION"@, "`"@ + name + "` declarations must be top-level"@, span)]
    } else {
        match declaration {
            Some((existing, _)) => seq![
                error_view(
                    "E_SCRIPT_DECL_DUPLICATE"@,
                    "script already has a "@ + spec_script_mode_debug_name(existing)
                        + " declaration; only one indicator(...) or strategy(...) declaration is allowed"@,
                    span,
                ),
            ],
            None => Seq::empty(),
        }
    }
}

/// Checks an `indicator(...)` or `strategy(...)` declaration at block depth
/// `block_depth` and function depth `function_depth`, and records the first
/// top-level one; `true` when the call declares the script a strategy, whose
/// declaration arguments are then to be checked.
pub fn validate_script_declaration_call(
    name: &str,
    span: Span,
    block_depth: usize,
    function_depth: usize,
    declaration: &mut Option<(ScriptMode, Span)>,
    diagnostics: &mut Vec<Diagnostic>,
) -> (r: bool)
    ensures
        diags_view(final(diagnostics)@) == diags_view(old(diagnostics)@)
            + spec_script_declaration_diags(
            name@,
            span,
            block_depth > 0 || function_depth > 0,
            *old(declaration),
        ),
        *final(declaration) == if spec_declared_mode(name@) is Some && block_depth == 0
            && function_depth == 0 && *old(declaration) is None {
            Some((spec_declared_mode(name@).unwrap(), span))
        } else {
            *old(declaration)
        },
        r == (*final(declaration) != *old(declaration) && spec_declared_mode(name@) == Some(
            ScriptMode::Strategy,
        )),
{
    let ghost start = diags_view(diagnostics@);
    let mode = if str_eq(name, "indicator") {
        ScriptMode::Indicator
    } else if str_eq(name, "strategy") {
        ScriptMode::Strategy
    } else {
        assert(diags_view(diagnostics@) =~= start + Seq::<DiagView>::empty());
        return false;
    };
    if block_depth > 0 || function_depth > 0 {
        let s = String::from_str("`");
        let s = s.concat(name);
        let s = s.concat("` declarations must be top-level");
        crate::syntax::push_error(diagnostics, "E_SCRIPT_DECL_LOCATION", s, span);
        return false;
    }
    if let Some((existing, _)) = *declaration {
        let s = String::from_str("script already has a ");
        let s = s.concat(script_mode_debug_name(existing));
        let s = s.concat(
            " declaration; only one indicator(...) or strategy(...) declaration is allowed",
        );
        crate::syntax::push_error(diagnostics, "E_SCRIPT_DECL_DUPLICATE", s, span);
        return false;
    }
    *declaration = Some((mode, span));
    assert(diags_view(diagnostics@) =~= start + Seq::<DiagView>::empty());
    mode == ScriptMode::Strategy
}

pub open spec fn strategy_mode_message(name: Seq<char>) -> Seq<char> {
    "`"@ + name + "` is only supported in scripts declared with strategy(...)"@
}

pub open spec fn is_strategy_declared(declaration: Option<(ScriptMode, Span)>) -> bool {
    declaration matches Some((mode, _)) && mode == ScriptMode::Strategy
}

/// Checks a use of a strategy state variable: outside a strategy it is
/// reported. `true` when the name was such a variable and was reported.
pub fn validate_strategy_state_variable(
    name: &str,
    span: Span,
    declaration: Option<(ScriptMode, Span)>,
    diagnostics: &mut Vec<Diagnostic>,
) -> (r: bool)
    ensures
        r == (spec_is_strategy_state_variable(name@) && !is_strategy_declared(declaration)),
        diags_view(final(diagnostics)@) == diags_view(old(diagnostics)@) + if r {
            seq![error_view("E_STRATEGY_MODE"@, strategy_mode_message(name@), span)]
        } else {
            Seq::<DiagView>::empty()
        },
{
    if !is_strategy_state_variable(name) {
        assert(diags_view(diagnostics@) =~= diags_view(diagnostics@) + Seq::<DiagView>::empty());
        return false;
    }
    let strategy = match declaration {
        Some((mode, _)) => mode == ScriptMode::Strategy,
        None => false,
    };
    if !strategy {
        let s = String::from_str("`");
        let s = s.concat(name);
        let s = s.concat("` is only supported in scripts declared with strategy(...)");
        crate::syntax::push_error(diagnostics, "E_STRATEGY_MODE", s, span);
        return true;
    }
    let supported = is_supported_strategy_state_variable(name);
    assert(supported);
    assert(diags_view(diagnostics@) =~= diags_view(diagnostics@) + Seq::<DiagView>::empty());
    false
}

/// The parameter argument `i` of `strategy.entry` binds to: its name, or
/// `id`, `direction` and `qty` by position.
pub open spec fn spec_entry_param(args: Seq<CallArg>, i: int) -> Option<Seq<char>> {
    match args[i].name {
        Some(n) => Some(n@),
        None => if i == 0 {
            Some("id"@)
        } else if i == 1 {
            Some("direction"@)
        } else if i == 2 {
            Some("qty"@)
        } else {
            None
        },
    }
}

pub open spec fn entry_direction_error(span: Span) -> DiagView {
    error_view(
        "E_CALL_ARG_VALUE"@,
        "`strategy.entry` argument `direction` only supports strategy.long"@,
        span,
    )
}

pub open spec fn entry_qty_error(span: Span) -> DiagView {
    error_view("E_CALL_ARG_VALUE"@, "`strategy.entry` argument `qty` must be positive"@, span)
}

/// Whether argument `i` is a numeric constant at most zero.
pub open spec fn fact_non_positive(non_positive: Seq<bool>, i: int) -> bool {
    0 <= i < non_positive.len() && non_positive[i]
}

/// What argument `i` of `strategy.entry` reports: a constant direction
/// other than `strategy.long`, or a constant quantity that is not positive.
pub open spec fn spec_entry_arg_diags(
    args: Seq<CallArg>,
    facts: Seq<ArgFacts>,
    non_positive: Seq<bool>,
    i: int,
) -> Seq<DiagView> {
    match spec_entry_param(args, i) {
        Some(p) => if p == "direction"@ {
            match fact_literal_string(facts, i) {
                Some(d) => if d != "strategy.long"@ {
                    seq![entry_direction_error(args[i].span)]
                } else {
                    Seq::empty()
                },
                None => Seq::empty(),
            }
        } else if p == "qty"@ {
            if fact_non_positive(non_positive, i) {
                seq![entry_qty_error(args[i].span)]
            } else {
                Seq::empty()
            }
        } else {
            Seq::empty()
        },
        None => Seq::empty(),
    }
}

fn entry_param(args: &[CallArg], i: usize) -> (r: Option<&str>)
    requires
        i < args@.len(),
    ensures
        crate::arg_facts::opt_str_view(r) == spec_entry_param(args@, i as int),
{
    match &args[i].name {
        Some(n) => Some(n.as_str()),
        None => {
            if i == 0 {
                Some("id")
            } else if i == 1 {
                Some("direction")
            } else if i == 2 {
                Some("qty")
            } else {
                None
            }
        },
    }
}

fn check_entry_arg(
    args: &[CallArg],
    facts: &[ArgFacts],
    non_positive: &[bool],
    i: usize,
    diagnostics: &mut Vec<Diagnostic>,
)
    requires
        i < args@.len(),
    ensures
        diags_view(final(diagnostics)@) == diags_view(old(diagnostics)@) + spec_entry_arg_diags(
            args@,
            facts@,
            non_positive@,
            i as int,
        ),
{
    let ghost start = diags_view(diagnostics@);
    proof {
        reveal_strlit("id");
        reveal_strlit("direction");
        reveal_strlit("qty");
    }
    if let Some(p) = entry_param(args, i) {
        if str_eq(p, "direction") {
            if let Some(d) = literal_string_at(facts, i) {
                if !str_eq(d, "strategy.long") {
                    push_error_message(
                        diagnostics,
                        "E_CALL_ARG_VALUE",
                        String::from_str(
                            "`strategy.entry` argument `direction` only supports strategy.long",
                        ),
                        args[i].span,
                    );
                    return;
                }
            }
        } else if str_eq(p, "qty") {
            if i < non_positive.len() && non_positive[i] {
                push_error_message(
                    diagnostics,
                    "E_CALL_ARG_VALUE",
                    String::from_str("`strategy.entry` argument `qty` must be positive"),
                    args[i].span,
                );
                return;
            }
        }
    }
    assert(diags_view(diagnostics@) =~= start + spec_entry_arg_diags(
        args@,
        facts@,
        non_positive@,
        i as int,
    ));
}

/// Checks the arguments of `strategy.entry`, given what constant evaluation
/// knows of each (`facts`, and `non_positive`: whether argument `i` is a
/// numeric constant at most zero).
pub fn validate_strategy_entry_args(
    args: &[CallArg],
    facts: &[ArgFacts],
    non_positive: &[bool],
    diagnostics: &mut Vec<Diagnostic>,
)
    ensures
        diags_view(final(diagnostics)@) == diags_view(old(diagnostics)@) + concat_diags(
            args@.len() as int,
            |i: int| spec_entry_arg_diags(args@, facts@, non_positive@, i),
        ),
{
    let ghost start = diags_view(diagnostics@);
    let ghost g = |i: int| spec_entry_arg_diags(args@, facts@, non_positive@, i);
    let n = args.len();
    let mut index: usize = 0;
    while index < n
        invariant
            n == args@.len(),
            index <= n,
            g == (|i: int| spec_entry_arg_diags(args@, facts@, non_positive@, i)),
            diags_view(diagnostics@) == start + concat_diags(index as int, g),
        decreases n - index,
    {
        let ghost before = diags_view(diagnostics@);
        check_entry_arg(args, facts, non_positive, index, diagnostics);
        assert(diags_view(diagnostics@) =~= before + g(index as int));
        index = index + 1;
    }
}

pub open spec fn spec_is_strategy_order_call(name: Seq<char>) -> bool {
    name == "strategy.entry"@ || name == "strategy.close"@ || name == "strategy.close_all"@ || name
        == "strategy.exit"@
}

/// What a call of a strategy order function `name` reports: outside a
/// strategy script, that it needs one; then what the checks of
/// `strategy.entry` and `strategy.exit` arguments report.
pub open spec fn spec_strategy_order_call_diags(
    name: Seq<char>,
    span: Span,
    args: Seq<CallArg>,
    facts: Seq<ArgFacts>,
    non_positive: Seq<bool>,
    declaration: Option<(ScriptMode, Span)>,
) -> Seq<DiagView> {
    if !spec_is_strategy_order_call(name) {
        Seq::empty()
    } else {
        (if is_strategy_declared(declaration) {
            Seq::empty()
        } else {
            seq![error_view("E_STRATEGY_MODE"@, strategy_mode_message(name), span)]
        }) + if name == "strategy.entry"@ {
            concat_diags(args.len() as int, |i: int| spec_entry_arg_diags(args, facts, non_positive, i))
        } else if name == "strategy.exit"@ {
            spec_exit_scan_diags(args, args.len() as int) + spec_exit_shape_diags(args)
        } else {
            Seq::empty()
        }
    }
}

/// Checks a call of strategy order function `name` at `span`, where
/// `declaration` is the script's declaration so far.
pub fn validate_strategy_order_call(
    name: &str,
    span: Span,
    args: &[CallArg],
    facts: &[ArgFacts],
    non_positive: &[bool],
    declaration: Option<(ScriptMode, Span)>,
    diagnostics: &mut Vec<Diagnostic>,
)
    ensures
        diags_view(final(diagnostics)@) == diags_view(old(diagnostics)@)
            + spec_strategy_order_call_diags(name@, span, args@, facts@, non_positive@, declaration),
{
    let ghost start = diags_view(diagnostics@);
    if !(str_eq(name, "strategy.entry") || str_eq(name, "strategy.close") || str_eq(
        name,
        "strategy.close_all",
    ) || str_eq(name, "strategy.exit")) {
        assert(diags_view(diagnostics@) =~= start + Seq::<DiagView>::empty());
        return;
    }
    let strategy = match declaration {
        Some((mode, _)) => mode == ScriptMode::Strategy,
        None => false,
    };
    if !strategy {
        let s = String::from_str("`");
        let s = s.concat(name);
        let s = s.concat("` is only supported in scripts declared with strategy(...)");
        push_error_message(diagnostics, "E_STRATEGY_MODE", s, span);
    } else {
        assert(diags_view(diagnostics@) =~= start + Seq::<DiagView>::empty());
    }
    let ghost mid = diags_view(diagnostics@);
    if str_eq(name, "strategy.entry") {
        validate_strategy_entry_args(args, facts, non_positive, diagnostics);
    } else if str_eq(name, "strategy.exit") {
        validate_strategy_exit_args(args, diagnostics);
    } else {
        assert(diags_view(diagnostics@) =~= mid + Seq::<DiagView>::empty());
    }
}

/// The parameter argument `i` of `strategy(...)` binds to: its name, or the
/// declaration parameters by position.
pub open spec fn spec_strategy_decl_param(args: Seq<CallArg>, i: int) -> Option<Seq<char>> {
    match args[i].name {
        Some(n) => Some(n@),
        None => if i == 0 {
            Some("title"@)
        } else if i == 1 {
            Some("shorttitle"@)
        } else if i == 2 {
            Some("overlay"@)
        } else if i == 3 {
            Some("max_bars_back"@)
        } else if i == 4 {
            Some("initial_capital"@)
        } else if i == 5 {
            Some("default_qty_type"@)
        } else if i == 6 {
            Some("default_qty_value"@)
        } else {
            None
        },
    }
}

/// Whether argument `i` is a numeric constant, and if so whether it is a
/// finite positive number.
pub open spec fn fact_positive(positive: Seq<Option<bool>>, i: int) -> Option<bool> {
    if 0 <= i < positive.len() {
        positive[i]
    } else {
        None
    }
}

/// Which arguments set the strategy's settings: the argument whose value
/// becomes the initial capital, and the one whose value becomes the fixed
/// default quantity.
#[derive(Clone, Copy, Debug, PartialEq, Eq, Structural)]
pub struct StrategySettingArgs {
    pub initial_capital: Option<usize>,
    pub default_qty_value: Option<usize>,
}

pub open spec fn decl_value_error(param: Seq<char>, span: Span) -> DiagView {
    error_view("E_CALL_ARG_VALUE"@, "`strategy` argument `"@ + param + "` must be positive"@, span)
}

pub open spec fn qty_type_error(span: Span) -> DiagView {
    error_view("E_CALL_ARG_VALUE"@, "`strategy` argument `default_qty_type` only supports strategy.fixed"@, span)
}

/// The settings arguments and reports after the first `i` arguments of a
/// `strategy(...)` declaration: a constant `initial_capital` or
/// `default_qty_value` that is not a finite positive number is reported, a
/// positive one sets its setting (the last one wins); a constant
/// `default_qty_type` other than `strategy.fixed` is reported.
pub open spec fn spec_strategy_decl_args(
    args: Seq<CallArg>,
    facts: Seq<ArgFacts>,
    positive: Seq<Option<bool>>,
    i: int,
) -> (StrategySettingArgs, Seq<DiagView>)
    decreases i,
{
    if i <= 0 {
        (StrategySettingArgs { initial_capital: None, default_qty_value: None }, Seq::empty())
    } else {
        let (st, ds) = spec_strategy_decl_args(args, facts, positive, i - 1);
        let j = i - 1;
        match spec_strategy_decl_param(args, j) {
            Some(p) => if p == "initial_capital"@ || p == "default_qty_value"@ {
                match fact_positive(positive, j) {
                    None => (st, ds),
                    Some(false) => (st, ds.push(decl_value_error(p, args[j].span))),
                    Some(true) => if p == "initial_capital"@ {
                        (StrategySettingArgs { initial_capital: Some(j as usize), ..st }, ds)
                    } else {
                        (StrategySettingArgs { default_qty_value: Some(j as usize), ..st }, ds)
                    },
                }
            } else if p == "default_qty_type"@ {
                match fact_literal_string(facts, j) {
                    Some(v) => if v != "strategy.fixed"@ {
                        (st, ds.push(qty_type_error(args[j].span)))
                    } else {
                        (st, ds)
                    },
                    None => (st, ds),
                }
            } else {
                (st, ds)
            },
            None => (st, ds),
        }
    }
}

fn strategy_decl_param(args: &[CallArg], i: usize) -> (r: Option<&str>)
    requires
        i < args@.len(),
    ensures
        crate::arg_facts::opt_str_view(r) == spec_strategy_decl_param(args@, i as int),
{
    match &args[i].name {
        Some(n) => Some(n.as_str()),
        None => {
            if i == 0 {
                Some("title")
            } else if i == 1 {
                Some("shorttitle")
            } else if i == 2 {
                Some("overlay")
            } else if i == 3 {
                Some("max_bars_back")
            } else if i == 4 {
                Some("initial_capital")
            } else if i == 5 {
                Some("default_qty_type")
            } else if i == 6 {
                Some("default_qty_value")
            } else {
                None
            }
        },
    }
}

/// Checks the arguments of a `strategy(...)` declaration and finds the
/// arguments that set its settings (see `spec_strategy_decl_args`);
/// `positive` says of each argument whether it is a numeric constant and, if
/// so, whether it is a finite positive number.
pub fn validate_strategy_declaration_args(
    args: &[CallArg],
    facts: &[ArgFacts],
    positive: &[Option<bool>],
    diagnostics: &mut Vec<Diagnostic>,
) -> (r: StrategySettingArgs)
    ensures
        r == spec_strategy_decl_args(args@, facts@, positive@, args@.len() as int).0,
        diags_view(final(diagnostics)@) == diags_view(old(diagnostics)@) + spec_strategy_decl_args(
            args@,
            facts@,
            positive@,
            args@.len() as int,
        ).1,
{
    let ghost d0 = diags_view(diagnostics@);
    let mut st = StrategySettingArgs { initial_capital: None, default_qty_value: None };
    let n = args.len();
    let mut i: usize = 0;
    proof {
        reveal_strlit("initial_capital");
        reveal_strlit("default_qty_value");
        reveal_strlit("default_qty_type");
    }
    assert(d0 =~= d0 + Seq::<DiagView>::empty());
    while i < n
        invariant
            n == args@.len(),
            i <= n,
            d0 == diags_view(old(diagnostics)@),
            st == spec_strategy_decl_args(args@, facts@, positive@, i as int).0,
            diags_view(diagnostics@) == d0 + spec_strategy_decl_args(args@, facts@, positive@, i as int).1,
        decreases n - i,
    {
        let ghost before = diags_view(diagnostics@);
        let ghost ds = spec_strategy_decl_args(args@, facts@, positive@, i as int).1;
        if let Some(p) = strategy_decl_param(args, i) {
            let capital = str_eq(p, "initial_capital");
            if capital || str_eq(p, "default_qty_value") {
                let fact = if i < positive.len() {
                    positive[i]
                } else {
                    None
                };
                match fact {
                    None => {},
                    Some(false) => {
                        let s = String::from_str("`strategy` argument `");
                        let s = s.concat(p);
                        let s = s.concat("` must be positive");
                        push_error_message(diagnostics, "E_CALL_ARG_VALUE", s, args[i].span);
                        assert(diags_view(diagnostics@) =~= d0 + ds.push(decl_value_error(p@, args@[i as int].span)));
                    },
                    Some(true) => {
                        if capital {
                            st = StrategySettingArgs { initial_capital: Some(i), ..st };
                        } else {
                            st = StrategySettingArgs { default_qty_value: Some(i), ..st };
                        }
                    },
                }
            } else if str_eq(p, "default_qty_type") {
                if let Some(v) = literal_string_at(facts, i) {
                    if !str_eq(v, "strategy.fixed") {
                        push_error_message(
                            diagnostics,
                            "E_CALL_ARG_VALUE",
                            String::from_str("`strategy` argument `default_qty_type` only supports strategy.fixed"),
                            args[i].span,
                        );
                        assert(diags_view(diagnostics@) =~= d0 + ds.push(qty_type_error(args@[i as int].span)));
                    }
                }
            }
        }
        i = i + 1;
    }
    st
}

} // verus!
