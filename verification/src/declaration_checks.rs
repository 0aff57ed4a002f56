//! The argument checks of `indicator(...)` and `max_bars_back(...)`: option
//! values, precision, drawing counts and history bounds.
use vstd::prelude::*;
use vstd::string::*;

use crate::arg_facts::{
    fact_known_int, fact_known_string, fact_literal_int, known_int_at, known_string_at,
    literal_int_at, ArgFacts,
};
use crate::calls::{is_call_arg, spec_is_call_arg};
use crate::signatures::BuiltinSignature;
use crate::strings::{decimal, join_strs, opt_string_view, spec_decimal, spec_join, str_eq, str_in, strs_view};
use crate::syntax::{concat_diags, diags_view, error_view, push_error, CallArg, DiagView, Diagnostic, Span};

verus! {

/// Whether argument `i` is the one `validate_label_string_arg` checks: named
/// `name`, or positional at `index` where the signature declares `name`.
pub open spec fn is_label_string_target(
    signature: BuiltinSignature,
    args: Seq<CallArg>,
    index: int,
    name: Seq<char>,
    i: int,
) -> bool {
    opt_string_view(args[i].name) == Some(name) || (args[i].name is None && 0 <= i
        < signature.params@.len() && signature.params@[i].name@ == name && index == i)
}

/// What argument `i` reports when it is the target and a known string that
/// `allowed` lacks.
pub open spec fn spec_label_string_arg_diags(
    signature: BuiltinSignature,
    args: Seq<CallArg>,
    facts: Seq<ArgFacts>,
    index: int,
    name: Seq<char>,
    allowed: Seq<Seq<char>>,
    i: int,
) -> Seq<DiagView> {
    if is_label_string_target(signature, args, index, name, i) && (fact_known_string(facts, i) matches Some(
        v,
    ) && !allowed.contains(v)) {
        seq![
            error_view(
                "E_CALL_ARG_VALUE"@,
                "`"@ + signature.name@ + "` argument `"@ + name + "` only supports "@ + spec_join(
                    allowed,
                    ", "@,
                ),
                args[i].span,
            ),
        ]
    } else {
        Seq::empty()
    }
}

pub open spec fn label_string_diags(
    signature: BuiltinSignature,
    args: Seq<CallArg>,
    facts: Seq<ArgFacts>,
    index: int,
    name: Seq<char>,
    allowed: Seq<Seq<char>>,
) -> Seq<DiagView> {
    concat_diags(
        args.len() as int,
        |i: int| spec_label_string_arg_diags(signature, args, facts, index, name, allowed, i),
    )
}

/// Checks that the argument for the string option `name` (positionally at
/// `index`) is a known value among `allowed`.
pub fn validate_label_string_arg(
    signature: &BuiltinSignature,
    args: &[CallArg],
    facts: &[ArgFacts],
    index: usize,
    name: &str,
    allowed: &[&str],
    diagnostics: &mut Vec<Diagnostic>,
)
    ensures
        diags_view(final(diagnostics)@) == diags_view(old(diagnostics)@) + label_string_diags(
            *signature,
            args@,
            facts@,
            index as int,
            name@,
            strs_view(allowed@),
        ),
{
    let ghost start = diags_view(diagnostics@);
    let ghost f = |i: int|
        spec_label_string_arg_diags(
            *signature,
            args@,
            facts@,
            index as int,
            name@,
            strs_view(allowed@),
            i,
        );
    let n = args.len();
    let mut arg_index: usize = 0;
    while arg_index < n
        invariant
            n == args@.len(),
            arg_index <= n,
            f == (|i: int|
                spec_label_string_arg_diags(
                    *signature,
                    args@,
                    facts@,
                    index as int,
                    name@,
                    strs_view(allowed@),
                    i,
                )),
            diags_view(diagnostics@) == start + concat_diags(arg_index as int, f),
        decreases n - arg_index,
    {
        let ghost before = diags_view(diagnostics@);
        let arg = &args[arg_index];
        let is_target = match &arg.name {
            Some(arg_name) => str_eq(arg_name.as_str(), name),
            None => arg_index < signature.params.len() && str_eq(signature.params[arg_index].name, name)
                && index == arg_index,
        };
        if is_target {
            if let Some(value) = known_string_at(facts, arg_index) {
                if !str_in(value, allowed) {
                    let s = String::from_str("`");
                    let s = s.concat(signature.name);
                    let s = s.concat("` argument `");
                    let s = s.concat(name);
                    let s = s.concat("` only supports ");
                    let s = s.concat(join_strs(allowed, ", ").as_str());
                    push_error(diagnostics, "E_CALL_ARG_VALUE", s, arg.span);
                }
            }
        }
        assert(diags_view(diagnostics@) =~= before + f(arg_index as int));
        arg_index = arg_index + 1;
    }
}

/// What a history bound reports: a negative value, or one past `u32`.
pub open spec fn spec_max_bars_back_bound_diags(
    call_name: Seq<char>,
    arg_name: Seq<char>,
    value: Option<i64>,
    span: Span,
) -> Seq<DiagView> {
    match value {
        Some(v) => if v < 0 {
            seq![
                error_view(
                    "E_CALL_ARG_VALUE"@,
                    "`"@ + call_name + "` argument `"@ + arg_name + "` must be non-negative"@,
                    span,
                ),
            ]
        } else if v > u32::MAX {
            seq![
                error_view(
                    "E_CALL_ARG_VALUE"@,
                    "`"@ + call_name + "` argument `"@ + arg_name
                        + "` must fit in a 32-bit unsigned history bound"@,
                    span,
                ),
            ]
        } else {
            Seq::empty()
        },
        None => Seq::empty(),
    }
}

/// Checks a history bound whose known value is `value`.
pub fn validate_max_bars_back_bound_value(
    call_name: &str,
    arg_name: &str,
    arg: &CallArg,
    value: Option<i64>,
    diagnostics: &mut Vec<Diagnostic>,
)
    ensures
        diags_view(final(diagnostics)@) == diags_view(old(diagnostics)@)
            + spec_max_bars_back_bound_diags(call_name@, arg_name@, value, arg.span),
{
    let ghost start = diags_view(diagnostics@);
    if let Some(v) = value {
        if v < 0 {
            let s = String::from_str("`");
            let s = s.concat(call_name);
            let s = s.concat("` argument `");
            let s = s.concat(arg_name);
            let s = s.concat("` must be non-negative");
            push_error(diagnostics, "E_CALL_ARG_VALUE", s, arg.span);
            return ;
        } else if v > 4294967295 {
            let s = String::from_str("`");
            let s = s.concat(call_name);
            let s = s.concat("` argument `");
            let s = s.concat(arg_name);
            let s = s.concat("` must fit in a 32-bit unsigned history bound");
            push_error(diagnostics, "E_CALL_ARG_VALUE", s, arg.span);
            return ;
        }
    }
    assert(diags_view(diagnostics@) =~= start + spec_max_bars_back_bound_diags(
        call_name@,
        arg_name@,
        value,
        arg.span,
    ));
}

/// What a `max_bars_back(...)` call reports.
pub open spec fn spec_max_bars_back_args_diags(
    signature: BuiltinSignature,
    args: Seq<CallArg>,
    facts: Seq<ArgFacts>,
) -> Seq<DiagView> {
    if signature.name@ != "max_bars_back"@ {
        Seq::empty()
    } else {
        concat_diags(
            args.len() as int,
            |i: int|
                if spec_is_call_arg(signature, args[i], i, "num"@) {
                    spec_max_bars_back_bound_diags(
                        "max_bars_back"@,
                        "num"@,
                        fact_known_int(facts, i),
                        args[i].span,
                    )
                } else {
                    Seq::empty()
                },
        )
    }
}

/// Checks the `num` argument of a `max_bars_back(...)` call.
pub fn validate_max_bars_back_args(
    signature: &BuiltinSignature,
    args: &[CallArg],
    facts: &[ArgFacts],
    diagnostics: &mut Vec<Diagnostic>,
)
    ensures
        diags_view(final(diagnostics)@) == diags_view(old(diagnostics)@)
            + spec_max_bars_back_args_diags(*signature, args@, facts@),
{
    let ghost start = diags_view(diagnostics@);
    if !str_eq(signature.name, "max_bars_back") {
        assert(diags_view(diagnostics@) =~= start + Seq::<DiagView>::empty());
        return ;
    }
    let ghost f = |i: int|
        if spec_is_call_arg(*signature, args@[i], i, "num"@) {
            spec_max_bars_back_bound_diags(
                "max_bars_back"@,
                "num"@,
                fact_known_int(facts@, i),
                args@[i].span,
            )
        } else {
            Seq::empty()
        };
    let n = args.len();
    let mut index: usize = 0;
    while index < n
        invariant
            n == args@.len(),
            index <= n,
            f == (|i: int|
                if spec_is_call_arg(*signature, args@[i], i, "num"@) {
                    spec_max_bars_back_bound_diags(
                        "max_bars_back"@,
                        "num"@,
                        fact_known_int(facts@, i),
                        args@[i].span,
                    )
                } else {
                    Seq::empty()
                }),
            diags_view(diagnostics@) == start + concat_diags(index as int, f),
        decreases n - index,
    {
        let ghost before = diags_view(diagnostics@);
        let arg = &args[index];
        if is_call_arg(signature, arg, index, "num") {
            validate_max_bars_back_bound_value(
                "max_bars_back",
                "num",
                arg,
                known_int_at(facts, index),
                diagnostics,
            );
        }
        assert(diags_view(diagnostics@) =~= before + f(index as int));
        index = index + 1;
    }
}

/// The drawing limits an `indicator(...)` declaration sets.
#[derive(Clone, Copy, Debug, PartialEq, Eq, Structural, Default)]
pub struct DrawingSettings {
    pub max_boxes_count: Option<u32>,
    pub max_lines_count: Option<u32>,
    pub max_polylines_count: Option<u32>,
}

/// The drawing-count parameter argument `index` supplies, with its upper limit.
pub open spec fn spec_drawing_count_slot(signature: BuiltinSignature, arg: CallArg, index: int) -> Option<
    (Seq<char>, i64),
> {
    if spec_is_call_arg(signature, arg, index, "max_boxes_count"@) {
        Some(("max_boxes_count"@, 500))
    } else if spec_is_call_arg(signature, arg, index, "max_lines_count"@) {
        Some(("max_lines_count"@, 500))
    } else if spec_is_call_arg(signature, arg, index, "max_polylines_count"@) {
        Some(("max_polylines_count"@, 100))
    } else {
        None
    }
}

/// What a drawing-count argument reports: a positional one must be named,
/// and a literal count must lie in `1..=max`.
pub open spec fn spec_drawing_count_diags(
    name: Seq<char>,
    max: i64,
    arg: CallArg,
    literal: Option<i64>,
) -> Seq<DiagView> {
    if arg.name is None {
        seq![
            error_view(
                "E_CALL_ARG_NAME"@,
                "`indicator` argument `"@ + name + "` must be named in the current subset"@,
                arg.span,
            ),
        ]
    } else if literal matches Some(v) && !(1 <= v <= max) {
        seq![
            error_view(
                "E_CALL_ARG_VALUE"@,
                "`indicator` argument `"@ + name + "` must be between 1 and "@ + spec_decimal(
                    max as nat,
                ),
                arg.span,
            ),
        ]
    } else {
        Seq::empty()
    }
}

/// The limit a drawing-count argument sets: a named literal count in range.
pub open spec fn spec_drawing_count_assignment(
    name: Seq<char>,
    max: i64,
    arg: CallArg,
    literal: Option<i64>,
) -> Option<(Seq<char>, u32)> {
    if arg.name is Some && (literal matches Some(v) && 1 <= v <= max) {
        Some((name, literal.unwrap() as u32))
    } else {
        None
    }
}

pub open spec fn apply_drawing_count(s: DrawingSettings, a: Option<(Seq<char>, u32)>) -> DrawingSettings {
    match a {
        Some((name, v)) => if name == "max_boxes_count"@ {
            DrawingSettings { max_boxes_count: Some(v), ..s }
        } else if name == "max_lines_count"@ {
            DrawingSettings { max_lines_count: Some(v), ..s }
        } else {
            DrawingSettings { max_polylines_count: Some(v), ..s }
        },
        None => s,
    }
}

fn drawing_count_slot(signature: &BuiltinSignature, arg: &CallArg, index: usize) -> (r: Option<
    (&'static str, i64),
>)
    ensures
        match r {
            Some((n, m)) => spec_drawing_count_slot(*signature, *arg, index as int) == Some((n@, m)),
            None => spec_drawing_count_slot(*signature, *arg, index as int) is None,
        },
{
    if is_call_arg(signature, arg, index, "max_boxes_count") {
        Some(("max_boxes_count", 500))
    } else if is_call_arg(signature, arg, index, "max_lines_count") {
        Some(("max_lines_count", 500))
    } else if is_call_arg(signature, arg, index, "max_polylines_count") {
        Some(("max_polylines_count", 100))
    } else {
        None
    }
}

/// Checks a drawing-count argument of `indicator(...)` and records the limit
/// it sets; `false` when the argument is no drawing count.
pub fn validate_indicator_drawing_count_arg(
    signature: &BuiltinSignature,
    arg: &CallArg,
    index: usize,
    literal: Option<i64>,
    settings: &mut DrawingSettings,
    diagnostics: &mut Vec<Diagnostic>,
) -> (r: bool)
    ensures
        r == spec_drawing_count_slot(*signature, *arg, index as int) is Some,
        match spec_drawing_count_slot(*signature, *arg, index as int) {
            Some((name, max)) => {
                &&& diags_view(final(diagnostics)@) == diags_view(old(diagnostics)@)
                    + spec_drawing_count_diags(name, max, *arg, literal)
                &&& *final(settings) == apply_drawing_count(
                    *old(settings),
                    spec_drawing_count_assignment(name, max, *arg, literal),
                )
            },
            None => {
                &&& diags_view(final(diagnostics)@) == diags_view(old(diagnostics)@)
                &&& *final(settings) == *old(settings)
            },
        },
{
    let ghost start = diags_view(diagnostics@);
    let (name, max) = match drawing_count_slot(signature, arg, index) {
        Some(slot) => slot,
        None => return false,
    };
    if arg.name.is_none() {
        let s = String::from_str("`indicator` argument `");
        let s = s.concat(name);
        let s = s.concat("` must be named in the current subset");
        push_error(diagnostics, "E_CALL_ARG_NAME", s, arg.span);
        return true;
    }
    if let Some(value) = literal {
        if !(1 <= value && value <= max) {
            let s = String::from_str("`indicator` argument `");
            let s = s.concat(name);
            let s = s.concat("` must be between 1 and ");
            let s = s.concat(decimal(max as usize).as_str());
            push_error(diagnostics, "E_CALL_ARG_VALUE", s, arg.span);
        } else if str_eq(name, "max_boxes_count") {
            settings.max_boxes_count = Some(value as u32);
        } else if str_eq(name, "max_lines_count") {
            settings.max_lines_count = Some(value as u32);
        } else {
            settings.max_polylines_count = Some(value as u32);
        }
    }
    assert(diags_view(diagnostics@) =~= start + spec_drawing_count_diags(name@, max, *arg, literal));
    true
}

pub open spec fn indicator_formats() -> Seq<Seq<char>> {
    seq!["format.inherit"@, "format.price"@, "format.percent"@, "format.volume"@]
}

pub open spec fn indicator_scales() -> Seq<Seq<char>> {
    seq!["scale.left"@, "scale.right"@, "scale.none"@]
}

/// What argument `i` of an `indicator(...)` call reports, after its string options.
pub open spec fn spec_indicator_arg_diags(
    signature: BuiltinSignature,
    args: Seq<CallArg>,
    facts: Seq<ArgFacts>,
    i: int,
) -> Seq<DiagView> {
    if spec_is_call_arg(signature, args[i], i, "precision"@) {
        if fact_known_int(facts, i) matches Some(v) && !(0 <= v <= 16) {
            seq![
                error_view(
                    "E_CALL_ARG_VALUE"@,
                    "`indicator` argument `precision` must be between 0 and 16"@,
                    args[i].span,
                ),
            ]
        } else {
            Seq::empty()
        }
    } else {
        match spec_drawing_count_slot(signature, args[i], i) {
            Some((name, max)) => spec_drawing_count_diags(name, max, args[i], fact_literal_int(facts, i)),
            None => if spec_is_call_arg(signature, args[i], i, "max_bars_back"@) {
                spec_max_bars_back_bound_diags(
                    "indicator"@,
                    "max_bars_back"@,
                    fact_known_int(facts, i),
                    args[i].span,
                )
            } else {
                Seq::empty()
            },
        }
    }
}

/// The limit argument `i` of an `indicator(...)` call sets, if any.
pub open spec fn spec_indicator_arg_assignment(
    signature: BuiltinSignature,
    args: Seq<CallArg>,
    facts: Seq<ArgFacts>,
    i: int,
) -> Option<(Seq<char>, u32)> {
    if spec_is_call_arg(signature, args[i], i, "precision"@) {
        None
    } else {
        match spec_drawing_count_slot(signature, args[i], i) {
            Some((name, max)) => spec_drawing_count_assignment(
                name,
                max,
                args[i],
                fact_literal_int(facts, i),
            ),
            None => None,
        }
    }
}

/// The drawing limits after the first `n` arguments: a later argument
/// overrides an earlier one.
pub open spec fn spec_settings_after(
    start: DrawingSettings,
    signature: BuiltinSignature,
    args: Seq<CallArg>,
    facts: Seq<ArgFacts>,
    n: int,
) -> DrawingSettings
    decreases n,
{
    if n <= 0 {
        start
    } else {
        apply_drawing_count(
            spec_settings_after(start, signature, args, facts, n - 1),
            spec_indicator_arg_assignment(signature, args, facts, n - 1),
        )
    }
}

/// What an `indicator(...)` call reports.
pub open spec fn spec_indicator_args_diags(
    signature: BuiltinSignature,
    args: Seq<CallArg>,
    facts: Seq<ArgFacts>,
) -> Seq<DiagView> {
    label_string_diags(signature, args, facts, 3, "format"@, indicator_formats())
        + label_string_diags(signature, args, facts, 5, "scale"@, indicator_scales())
        + concat_diags(args.len() as int, |i: int| spec_indicator_arg_diags(signature, args, facts, i))
}

/// Checks the arguments of an `indicator(...)` declaration and records the
/// drawing limits it sets; other calls are left alone.
pub fn validate_indicator_args(
    signature: &BuiltinSignature,
    args: &[CallArg],
    facts: &[ArgFacts],
    settings: &mut DrawingSettings,
    diagnostics: &mut Vec<Diagnostic>,
)
    ensures
        signature.name@ == "indicator"@ ==> diags_view(final(diagnostics)@) == diags_view(
            old(diagnostics)@,
        ) + spec_indicator_args_diags(*signature, args@, facts@) && *final(settings)
            == spec_settings_after(*old(settings), *signature, args@, facts@, args@.len() as int),
        signature.name@ != "indicator"@ ==> diags_view(final(diagnostics)@) == diags_view(
            old(diagnostics)@,
        ) && *final(settings) == *old(settings),
{
    if !str_eq(signature.name, "indicator") {
        return ;
    }
    let ghost start = diags_view(diagnostics@);
    let ghost start_settings = *settings;
    let formats = ["format.inherit", "format.price", "format.percent", "format.volume"];
    assert(strs_view(formats@) =~= indicator_formats());
    validate_label_string_arg(signature, args, facts, 3, "format", &formats, diagnostics);
    let scales = ["scale.left", "scale.right", "scale.none"];
    assert(strs_view(scales@) =~= indicator_scales());
    validate_label_string_arg(signature, args, facts, 5, "scale", &scales, diagnostics);
    let ghost after_options = diags_view(diagnostics@);
    let ghost f = |i: int| spec_indicator_arg_diags(*signature, args@, facts@, i);
    let n = args.len();
    let mut index: usize = 0;
    while index < n
        invariant
            n == args@.len(),
            index <= n,
            f == (|i: int| spec_indicator_arg_diags(*signature, args@, facts@, i)),
            diags_view(diagnostics@) == after_options + concat_diags(index as int, f),
            *settings == spec_settings_after(start_settings, *signature, args@, facts@, index as int),
        decreases n - index,
    {
        let ghost before = diags_view(diagnostics@);
        let arg = &args[index];
        if is_call_arg(signature, arg, index, "precision") {
            if let Some(value) = known_int_at(facts, index) {
                if !(0 <= value && value <= 16) {
                    push_error(
                        diagnostics,
                        "E_CALL_ARG_VALUE",
                        String::from_str("`indicator` argument `precision` must be between 0 and 16"),
                        arg.span,
                    );
                }
            }
        } else if !validate_indicator_drawing_count_arg(
            signature,
            arg,
            index,
            literal_int_at(facts, index),
            settings,
            diagnostics,
        ) {
            if is_call_arg(signature, arg, index, "max_bars_back") {
                validate_max_bars_back_bound_value(
                    "indicator",
                    "max_bars_back",
                    arg,
                    known_int_at(facts, index),
                    diagnostics,
                );
            }
        }
        assert(diags_view(diagnostics@) =~= before + f(index as int));
        index = index + 1;
    }
}

} // verus!
