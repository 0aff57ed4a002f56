//! The argument checks of the `time`-family builtins and of `timestamp`,
//! whose positional arguments change meaning with their types.
use vstd::prelude::*;
use vstd::string::*;

use crate::accepts::{accepts_type, spec_accepts_type, Accepts};
use crate::call_checks::{does_not_accept_debug_message, no_such_argument_message, type_at};
use crate::strings::{decimal, opt_string_view, spec_decimal, str_eq};
use crate::syntax::{
    concat_diags, diags_view, error_view, first_arg_span, first_span, push_error, CallArg, DiagView,
    Diagnostic, Span,
};
use crate::types::{type_debug_label, PineType, ValueKind};

verus! {

/// A resolved parameter: its name and what it accepts.
pub type Slot = (Seq<char>, Accepts);

pub open spec fn slot_view(s: Option<(&'static str, Accepts)>) -> Option<Slot> {
    match s {
        Some((n, a)) => Some((n@, a)),
        None => None,
    }
}

pub open spec fn int_not_string(t: PineType) -> bool {
    spec_accepts_type(Accepts::IntCompatible, t) && !spec_accepts_type(Accepts::StringCompatible, t)
}

/// What argument slot `index` of a `time` call means when it is positional,
/// and what resolving it reports.
pub open spec fn spec_time_positional(
    function_name: Seq<char>,
    args: Seq<CallArg>,
    arg_types: Seq<Option<PineType>>,
    index: int,
) -> (Option<Slot>, Seq<DiagView>) {
    if index == 0 {
        (Some(("timeframe"@, Accepts::SimpleString)), Seq::empty())
    } else if index == 1 {
        match type_at(arg_types, 1) {
            None => (None, Seq::empty()),
            Some(t) => if int_not_string(t) {
                (Some(("bars_back"@, Accepts::IntCompatible)), Seq::empty())
            } else if spec_accepts_type(Accepts::StringCompatible, t) {
                (Some(("session"@, Accepts::StringCompatible)), Seq::empty())
            } else {
                (
                    None,
                    seq![
                        error_view(
                            "E_CALL_ARG_TYPE"@,
                            "`"@ + function_name
                                + "` second positional argument must be a session string or bars_back int"@,
                            args[1].span,
                        ),
                    ],
                )
            },
        }
    } else if index == 2 {
        match (type_at(arg_types, 1), type_at(arg_types, 2)) {
            (Some(second), Some(third)) => if int_not_string(second) {
                (Some(("timeframe_bars_back"@, Accepts::IntCompatible)), Seq::empty())
            } else if spec_accepts_type(Accepts::StringCompatible, third) {
                (Some(("timezone"@, Accepts::StringCompatible)), Seq::empty())
            } else if spec_accepts_type(Accepts::IntCompatible, third) {
                (Some(("bars_back"@, Accepts::IntCompatible)), Seq::empty())
            } else {
                (
                    None,
                    seq![
                        error_view(
                            "E_CALL_ARG_TYPE"@,
                            "`"@ + function_name
                                + "` third positional argument must be a timezone string or bars_back int"@,
                            args[2].span,
                        ),
                    ],
                )
            },
            _ => (None, Seq::empty()),
        }
    } else if index == 3 {
        match (type_at(arg_types, 1), type_at(arg_types, 2)) {
            (Some(second), Some(third)) => if int_not_string(second) {
                (
                    None,
                    seq![
                        error_view(
                            "E_CALL_ARITY"@,
                            "`"@ + function_name
                                + "` positional bars_back overload expects at most 3 argument(s), got "@
                                + spec_decimal(args.len()),
                            args[3].span,
                        ),
                    ],
                )
            } else if spec_accepts_type(Accepts::StringCompatible, third) {
                (Some(("bars_back"@, Accepts::IntCompatible)), Seq::empty())
            } else {
                (Some(("timeframe_bars_back"@, Accepts::IntCompatible)), Seq::empty())
            },
            _ => (None, Seq::empty()),
        }
    } else if index == 4 {
        (Some(("timeframe_bars_back"@, Accepts::IntCompatible)), Seq::empty())
    } else {
        (None, Seq::empty())
    }
}

/// The slot a named argument of a `time` call fills.
pub open spec fn spec_time_named_slot(name: Seq<char>) -> Option<Slot> {
    if name == "timeframe"@ {
        Some(("timeframe"@, Accepts::SimpleString))
    } else if name == "session"@ || name == "timezone"@ {
        Some((name, Accepts::StringCompatible))
    } else if name == "bars_back"@ || name == "timeframe_bars_back"@ {
        Some((name, Accepts::IntCompatible))
    } else {
        None
    }
}

/// What checking the argument in `slot` against its type reports.
pub open spec fn spec_slot_type_diags(
    function_name: Seq<char>,
    slot: Slot,
    arg_types: Seq<Option<PineType>>,
    index: int,
    span: Span,
) -> Seq<DiagView> {
    match type_at(arg_types, index) {
        Some(t) => if !spec_accepts_type(slot.1, t) {
            seq![
                error_view(
                    "E_CALL_ARG_TYPE"@,
                    does_not_accept_debug_message(function_name, slot.0, t),
                    span,
                ),
            ]
        } else {
            Seq::empty()
        },
        None => Seq::empty(),
    }
}

/// What argument `i` of a `time` call reports.
pub open spec fn spec_time_arg_diags(
    function_name: Seq<char>,
    args: Seq<CallArg>,
    arg_types: Seq<Option<PineType>>,
    i: int,
) -> Seq<DiagView> {
    match args[i].name {
        Some(n) => match spec_time_named_slot(n@) {
            Some(slot) => spec_slot_type_diags(function_name, slot, arg_types, i, args[i].span),
            None => seq![
                error_view(
                    "E_CALL_ARG_NAME"@,
                    no_such_argument_message(function_name, n@),
                    args[i].span,
                ),
            ],
        },
        None => {
            let (slot, reported) = spec_time_positional(function_name, args, arg_types, i);
            reported + match slot {
                Some(slot) => spec_slot_type_diags(function_name, slot, arg_types, i, args[i].span),
                None => Seq::empty(),
            }
        },
    }
}

/// Whether argument `i` gives the timeframe: by name, or as the first positional argument.
pub open spec fn gives_timeframe(args: Seq<CallArg>, i: int) -> bool {
    opt_string_view(args[i].name) == Some("timeframe"@) || (i == 0 && args[i].name is None)
}

/// What checking a `time`-family call reports.
pub open spec fn spec_time_function_diags(
    function_name: Seq<char>,
    args: Seq<CallArg>,
    arg_types: Seq<Option<PineType>>,
) -> Seq<DiagView> {
    if args.len() == 0 {
        seq![
            error_view(
                "E_CALL_ARITY"@,
                "`"@ + function_name + "` expects at least 1 argument(s), got 0"@,
                Span { start: 0, end: 0 },
            ),
        ]
    } else {
        (if args.len() > 5 {
            seq![
                error_view(
                    "E_CALL_ARITY"@,
                    "`"@ + function_name + "` expects at most 5 argument(s), got "@ + spec_decimal(
                        args.len(),
                    ),
                    args[5].span,
                ),
            ]
        } else {
            Seq::empty()
        }) + (if !(exists|i: int| 0 <= i < args.len() && #[trigger] gives_timeframe(args, i)) {
            seq![
                error_view(
                    "E_CALL_ARITY"@,
                    "`"@ + function_name + "` expects a `timeframe` argument"@,
                    args[0].span,
                ),
            ]
        } else {
            Seq::empty()
        }) + concat_diags(args.len() as int, |i: int| spec_time_arg_diags(function_name, args, arg_types, i))
    }
}

fn type_at_index(arg_types: &[Option<PineType>], i: usize) -> (r: Option<PineType>)
    ensures
        r == type_at(arg_types@, i as int),
{
    if i < arg_types.len() {
        arg_types[i]
    } else {
        None
    }
}

fn int_not_string_exec(t: PineType) -> (r: bool)
    ensures
        r == int_not_string(t),
{
    accepts_type(Accepts::IntCompatible, t) && !accepts_type(Accepts::StringCompatible, t)
}

fn time_positional_slot(
    function_name: &str,
    args: &[CallArg],
    arg_types: &[Option<PineType>],
    index: usize,
    diagnostics: &mut Vec<Diagnostic>,
) -> (r: Option<(&'static str, Accepts)>)
    requires
        index < args@.len(),
    ensures
        slot_view(r) == spec_time_positional(function_name@, args@, arg_types@, index as int).0,
        diags_view(final(diagnostics)@) == diags_view(old(diagnostics)@) + spec_time_positional(
            function_name@,
            args@,
            arg_types@,
            index as int,
        ).1,
{
    let ghost start = diags_view(diagnostics@);
    proof {
        assert(start =~= start + Seq::<DiagView>::empty());
    }
    if index == 0 {
        return Some(("timeframe", Accepts::SimpleString));
    }
    if index == 4 {
        return Some(("timeframe_bars_back", Accepts::IntCompatible));
    }
    if index > 4 {
        return None;
    }
    let second = match type_at_index(arg_types, 1) {
        Some(t) => t,
        None => return None,
    };
    if index == 1 {
        if int_not_string_exec(second) {
            return Some(("bars_back", Accepts::IntCompatible));
        }
        if accepts_type(Accepts::StringCompatible, second) {
            return Some(("session", Accepts::StringCompatible));
        }
        let s = String::from_str("`");
        let s = s.concat(function_name);
        let s = s.concat("` second positional argument must be a session string or bars_back int");
        push_error(diagnostics, "E_CALL_ARG_TYPE", s, args[1].span);
        return None;
    }
    let third = match type_at_index(arg_types, 2) {
        Some(t) => t,
        None => return None,
    };
    if index == 2 {
        if int_not_string_exec(second) {
            return Some(("timeframe_bars_back", Accepts::IntCompatible));
        }
        if accepts_type(Accepts::StringCompatible, third) {
            return Some(("timezone", Accepts::StringCompatible));
        }
        if accepts_type(Accepts::IntCompatible, third) {
            return Some(("bars_back", Accepts::IntCompatible));
        }
        let s = String::from_str("`");
        let s = s.concat(function_name);
        let s = s.concat("` third positional argument must be a timezone string or bars_back int");
        push_error(diagnostics, "E_CALL_ARG_TYPE", s, args[2].span);
        return None;
    }
    if int_not_string_exec(second) {
        let s = String::from_str("`");
        let s = s.concat(function_name);
        let s = s.concat("` positional bars_back overload expects at most 3 argument(s), got ");
        let s = s.concat(decimal(args.len()).as_str());
        push_error(diagnostics, "E_CALL_ARITY", s, args[3].span);
        return None;
    }
    if accepts_type(Accepts::StringCompatible, third) {
        return Some(("bars_back", Accepts::IntCompatible));
    }
    Some(("timeframe_bars_back", Accepts::IntCompatible))
}

fn time_named_slot(name: &str) -> (r: Option<(&'static str, Accepts)>)
    ensures
        slot_view(r) == spec_time_named_slot(name@),
{
    if str_eq(name, "timeframe") {
        Some(("timeframe", Accepts::SimpleString))
    } else if str_eq(name, "session") {
        Some(("session", Accepts::StringCompatible))
    } else if str_eq(name, "timezone") {
        Some(("timezone", Accepts::StringCompatible))
    } else if str_eq(name, "bars_back") {
        Some(("bars_back", Accepts::IntCompatible))
    } else if str_eq(name, "timeframe_bars_back") {
        Some(("timeframe_bars_back", Accepts::IntCompatible))
    } else {
        None
    }
}

/// Checks the argument at `index` against the parameter in `slot`.
fn check_slot_type(
    function_name: &str,
    slot: (&'static str, Accepts),
    arg_types: &[Option<PineType>],
    index: usize,
    span: Span,
    diagnostics: &mut Vec<Diagnostic>,
)
    ensures
        diags_view(final(diagnostics)@) == diags_view(old(diagnostics)@) + spec_slot_type_diags(
            function_name@,
            (slot.0@, slot.1),
            arg_types@,
            index as int,
            span,
        ),
{
    let ghost start = diags_view(diagnostics@);
    if let Some(t) = type_at_index(arg_types, index) {
        if !accepts_type(slot.1, t) {
            let s = String::from_str("`");
            let s = s.concat(function_name);
            let s = s.concat("` argument `");
            let s = s.concat(slot.0);
            let s = s.concat("` does not accept ");
            let s = s.concat(type_debug_label(t).as_str());
            push_error(diagnostics, "E_CALL_ARG_TYPE", s, span);
            return ;
        }
    }
    assert(diags_view(diagnostics@) =~= start + spec_slot_type_diags(
        function_name@,
        (slot.0@, slot.1),
        arg_types@,
        index as int,
        span,
    ));
}

fn check_time_arg(
    function_name: &str,
    args: &[CallArg],
    arg_types: &[Option<PineType>],
    index: usize,
    diagnostics: &mut Vec<Diagnostic>,
)
    requires
        index < args@.len(),
    ensures
        diags_view(final(diagnostics)@) == diags_view(old(diagnostics)@) + spec_time_arg_diags(
            function_name@,
            args@,
            arg_types@,
            index as int,
        ),
{
    let ghost start = diags_view(diagnostics@);
    let arg = &args[index];
    if let Some(name) = &arg.name {
        match time_named_slot(name.as_str()) {
            Some(slot) => {
                check_slot_type(function_name, slot, arg_types, index, arg.span, diagnostics);
            },
            None => {
                let s = String::from_str("`");
                let s = s.concat(function_name);
                let s = s.concat("` has no argument named `");
                let s = s.concat(name.as_str());
                let s = s.concat("`");
                push_error(diagnostics, "E_CALL_ARG_NAME", s, arg.span);
            },
        }
        return ;
    }
    let slot = time_positional_slot(function_name, args, arg_types, index, diagnostics);
    let ghost resolved = diags_view(diagnostics@);
    if let Some(slot) = slot {
        check_slot_type(function_name, slot, arg_types, index, arg.span, diagnostics);
    }
    assert(diags_view(diagnostics@) =~= start + spec_time_arg_diags(
        function_name@,
        args@,
        arg_types@,
        index as int,
    ));
}

/// Checks the arguments of a `time`-family call (`time`, `time_close`).
pub fn validate_time_function_args(
    function_name: &str,
    args: &[CallArg],
    arg_types: &[Option<PineType>],
    diagnostics: &mut Vec<Diagnostic>,
)
    ensures
        diags_view(final(diagnostics)@) == diags_view(old(diagnostics)@) + spec_time_function_diags(
            function_name@,
            args@,
            arg_types@,
        ),
{
    let ghost start = diags_view(diagnostics@);
    if args.len() == 0 {
        let s = String::from_str("`");
        let s = s.concat(function_name);
        let s = s.concat("` expects at least 1 argument(s), got 0");
        push_error(diagnostics, "E_CALL_ARITY", s, Span::new(0, 0));
        return ;
    }
    if args.len() > 5 {
        let s = String::from_str("`");
        let s = s.concat(function_name);
        let s = s.concat("` expects at most 5 argument(s), got ");
        let s = s.concat(decimal(args.len()).as_str());
        push_error(diagnostics, "E_CALL_ARITY", s, args[5].span);
    }
    let ghost after_max = diags_view(diagnostics@);
    let n = args.len();
    let mut found = false;
    let mut i: usize = 0;
    while i < n
        invariant
            n == args@.len(),
            i <= n,
            found == exists|j: int| 0 <= j < i && #[trigger] gives_timeframe(args@, j),
        decreases n - i,
    {
        let gives = match &args[i].name {
            Some(name) => str_eq(name.as_str(), "timeframe"),
            None => i == 0,
        };
        assert(gives == gives_timeframe(args@, i as int));
        if gives {
            found = true;
        }
        i = i + 1;
    }
    if !found {
        let s = String::from_str("`");
        let s = s.concat(function_name);
        let s = s.concat("` expects a `timeframe` argument");
        push_error(diagnostics, "E_CALL_ARITY", s, args[0].span);
    }
    let ghost after_timeframe = diags_view(diagnostics@);
    let ghost f = |i: int| spec_time_arg_diags(function_name@, args@, arg_types@, i);
    let mut index: usize = 0;
    while index < n
        invariant
            n == args@.len(),
            index <= n,
            f == (|i: int| spec_time_arg_diags(function_name@, args@, arg_types@, i)),
            diags_view(diagnostics@) == after_timeframe + concat_diags(index as int, f),
        decreases n - index,
    {
        check_time_arg(function_name, args, arg_types, index, diagnostics);
        index = index + 1;
    }
    assert(diags_view(diagnostics@) =~= start + spec_time_function_diags(
        function_name@,
        args@,
        arg_types@,
    ));
}

/// A `timestamp` call whose first positional argument is a string gives the timezone first.
pub open spec fn spec_first_positional_is_timezone(
    args: Seq<CallArg>,
    arg_types: Seq<Option<PineType>>,
) -> bool {
    args.len() > 0 && args[0].name is None && (type_at(arg_types, 0) matches Some(t) && t.kind
        == ValueKind::String)
}

/// The slot a named argument of `timestamp` fills.
pub open spec fn spec_timestamp_named_slot(name: Seq<char>) -> Option<Slot> {
    if name == "timezone"@ {
        Some((name, Accepts::StringCompatible))
    } else if name == "year"@ || name == "month"@ || name == "day"@ || name == "hour"@ || name
        == "minute"@ || name == "second"@ {
        Some((name, Accepts::IntCompatible))
    } else {
        None
    }
}

/// The calendar field at position `k`, from year to second.
pub open spec fn calendar_field(k: int) -> Option<Seq<char>> {
    if k == 0 {
        Some("year"@)
    } else if k == 1 {
        Some("month"@)
    } else if k == 2 {
        Some("day"@)
    } else if k == 3 {
        Some("hour"@)
    } else if k == 4 {
        Some("minute"@)
    } else if k == 5 {
        Some("second"@)
    } else {
        None
    }
}

/// The slot argument `i` of a `timestamp` call fills, and what resolving it reports.
pub open spec fn spec_timestamp_resolution(
    function_name: Seq<char>,
    args: Seq<CallArg>,
    arg_types: Seq<Option<PineType>>,
    first_tz: bool,
    i: int,
) -> (Option<Slot>, Seq<DiagView>) {
    match args[i].name {
        Some(n) => match spec_timestamp_named_slot(n@) {
            Some(slot) => (Some(slot), Seq::empty()),
            None => (
                None,
                seq![
                    error_view(
                        "E_CALL_ARG_NAME"@,
                        no_such_argument_message(function_name, n@),
                        args[i].span,
                    ),
                ],
            ),
        },
        None => if i == 0 && first_tz {
            (Some(("timezone"@, Accepts::StringCompatible)), Seq::empty())
        } else if i == 0 && (type_at(arg_types, 0) matches Some(t) && !spec_accepts_type(
            Accepts::IntCompatible,
            t,
        )) {
            (
                None,
                seq![
                    error_view(
                        "E_CALL_ARG_TYPE"@,
                        "`timestamp` first positional argument must be a year int or timezone string"@,
                        args[i].span,
                    ),
                ],
            )
        } else {
            match calendar_field(
                if first_tz {
                    i - 1
                } else {
                    i
                },
            ) {
                Some(field) => (Some((field, Accepts::IntCompatible)), Seq::empty()),
                None => (None, Seq::empty()),
            }
        },
    }
}

/// What argument `i` of a `timestamp` call reports.
pub open spec fn spec_timestamp_arg_diags(
    function_name: Seq<char>,
    args: Seq<CallArg>,
    arg_types: Seq<Option<PineType>>,
    first_tz: bool,
    i: int,
) -> Seq<DiagView> {
    let (slot, reported) = spec_timestamp_resolution(function_name, args, arg_types, first_tz, i);
    reported + match slot {
        Some(slot) => spec_slot_type_diags(function_name, slot, arg_types, i, args[i].span),
        None => Seq::empty(),
    }
}

/// Whether some argument of a `timestamp` call fills the field `field`.
pub open spec fn timestamp_fills(
    function_name: Seq<char>,
    args: Seq<CallArg>,
    arg_types: Seq<Option<PineType>>,
    first_tz: bool,
    field: Seq<char>,
) -> bool {
    exists|i: int|
        0 <= i < args.len() && (#[trigger] spec_timestamp_resolution(
            function_name,
            args,
            arg_types,
            first_tz,
            i,
        ).0 matches Some(slot) && slot.0 == field)
}

/// The `dateString` overload: a first argument named `dateString`, or a lone string.
pub open spec fn spec_is_date_string_call(args: Seq<CallArg>, arg_types: Seq<Option<PineType>>) -> bool {
    args.len() > 0 && type_at(arg_types, 0) is Some && match args[0].name {
        Some(n) => n@ == "dateString"@,
        None => args.len() == 1 && type_at(arg_types, 0).unwrap().kind == ValueKind::String,
    }
}

/// What checking a `timestamp` call reports.
pub open spec fn spec_timestamp_diags(
    function_name: Seq<char>,
    args: Seq<CallArg>,
    arg_types: Seq<Option<PineType>>,
) -> Seq<DiagView> {
    if spec_is_date_string_call(args, arg_types) {
        (if args.len() > 1 {
            seq![
                error_view(
                    "E_CALL_ARITY"@,
                    "`"@ + function_name + "` dateString overload expects 1 argument"@,
                    args[1].span,
                ),
            ]
        } else {
            Seq::empty()
        }) + spec_slot_type_diags(
            function_name,
            ("dateString"@, Accepts::ConstString),
            arg_types,
            0,
            args[0].span,
        )
    } else {
        let first_tz = spec_first_positional_is_timezone(args, arg_types);
        let has_tz = first_tz || exists|i: int|
            0 <= i < args.len() && #[trigger] opt_string_view(args[i].name) == Some("timezone"@);
        let max: int = if has_tz {
            7
        } else {
            6
        };
        (if args.len() > max {
            seq![
                error_view(
                    "E_CALL_ARITY"@,
                    "`"@ + function_name + "` expects at most "@ + spec_decimal(max as nat)
                        + " argument(s), got "@ + spec_decimal(args.len()),
                    args[max].span,
                ),
            ]
        } else {
            Seq::empty()
        }) + concat_diags(
            args.len() as int,
            |i: int| spec_timestamp_arg_diags(function_name, args, arg_types, first_tz, i),
        ) + (if !(timestamp_fills(function_name, args, arg_types, first_tz, "year"@)
            && timestamp_fills(function_name, args, arg_types, first_tz, "month"@)
            && timestamp_fills(function_name, args, arg_types, first_tz, "day"@)) {
            seq![
                error_view(
                    "E_CALL_ARITY"@,
                    "`timestamp` expects year, month, and day arguments"@,
                    first_span(args),
                ),
            ]
        } else {
            Seq::empty()
        })
    }
}

fn timestamp_named_slot(name: &str) -> (r: Option<(&'static str, Accepts)>)
    ensures
        slot_view(r) == spec_timestamp_named_slot(name@),
{
    if str_eq(name, "timezone") {
        Some(("timezone", Accepts::StringCompatible))
    } else if str_eq(name, "year") {
        Some(("year", Accepts::IntCompatible))
    } else if str_eq(name, "month") {
        Some(("month", Accepts::IntCompatible))
    } else if str_eq(name, "day") {
        Some(("day", Accepts::IntCompatible))
    } else if str_eq(name, "hour") {
        Some(("hour", Accepts::IntCompatible))
    } else if str_eq(name, "minute") {
        Some(("minute", Accepts::IntCompatible))
    } else if str_eq(name, "second") {
        Some(("second", Accepts::IntCompatible))
    } else {
        None
    }
}

fn calendar_field_name(k: usize) -> (r: Option<&'static str>)
    ensures
        match r {
            Some(s) => calendar_field(k as int) == Some(s@),
            None => calendar_field(k as int) is None,
        },
{
    if k == 0 {
        Some("year")
    } else if k == 1 {
        Some("month")
    } else if k == 2 {
        Some("day")
    } else if k == 3 {
        Some("hour")
    } else if k == 4 {
        Some("minute")
    } else if k == 5 {
        Some("second")
    } else {
        None
    }
}

fn resolve_timestamp_arg(
    function_name: &str,
    args: &[CallArg],
    arg_types: &[Option<PineType>],
    index: usize,
    first_tz: bool,
    diagnostics: &mut Vec<Diagnostic>,
) -> (r: Option<(&'static str, Accepts)>)
    requires
        index < args@.len(),
    ensures
        slot_view(r) == spec_timestamp_resolution(
            function_name@,
            args@,
            arg_types@,
            first_tz,
            index as int,
        ).0,
        diags_view(final(diagnostics)@) == diags_view(old(diagnostics)@) + spec_timestamp_resolution(
            function_name@,
            args@,
            arg_types@,
            first_tz,
            index as int,
        ).1,
{
    let ghost start = diags_view(diagnostics@);
    proof {
        assert(start =~= start + Seq::<DiagView>::empty());
    }
    let arg = &args[index];
    if let Some(name) = &arg.name {
        let slot = timestamp_named_slot(name.as_str());
        if slot.is_none() {
            let s = String::from_str("`");
            let s = s.concat(function_name);
            let s = s.concat("` has no argument named `");
            let s = s.concat(name.as_str());
            let s = s.concat("`");
            push_error(diagnostics, "E_CALL_ARG_NAME", s, arg.span);
        }
        return slot;
    }
    if index == 0 && first_tz {
        return Some(("timezone", Accepts::StringCompatible));
    }
    if index == 0 {
        if let Some(t) = type_at_index(arg_types, 0) {
            if !accepts_type(Accepts::IntCompatible, t) {
                push_error(
                    diagnostics,
                    "E_CALL_ARG_TYPE",
                    String::from_str(
                        "`timestamp` first positional argument must be a year int or timezone string",
                    ),
                    arg.span,
                );
                return None;
            }
        }
    }
    let calendar_index = if first_tz {
        index - 1
    } else {
        index
    };
    match calendar_field_name(calendar_index) {
        Some(field) => Some((field, Accepts::IntCompatible)),
        None => None,
    }
}

proof fn lemma_fills_step(
    function_name: Seq<char>,
    args: Seq<CallArg>,
    arg_types: Seq<Option<PineType>>,
    first_tz: bool,
    n: int,
    field: Seq<char>,
)
    requires
        0 <= n < args.len(),
    ensures
        (exists|i: int|
            0 <= i < n + 1 && (#[trigger] spec_timestamp_resolution(
                function_name,
                args,
                arg_types,
                first_tz,
                i,
            ).0 matches Some(slot) && slot.0 == field)) == ((exists|i: int|
            0 <= i < n && (#[trigger] spec_timestamp_resolution(
                function_name,
                args,
                arg_types,
                first_tz,
                i,
            ).0 matches Some(slot) && slot.0 == field)) || (spec_timestamp_resolution(
            function_name,
            args,
            arg_types,
            first_tz,
            n,
        ).0 matches Some(slot) && slot.0 == field)),
{
}

/// Checks the arguments of a `timestamp` call.
pub fn validate_timestamp_args(
    function_name: &str,
    args: &[CallArg],
    arg_types: &[Option<PineType>],
    diagnostics: &mut Vec<Diagnostic>,
)
    ensures
        diags_view(final(diagnostics)@) == diags_view(old(diagnostics)@) + spec_timestamp_diags(
            function_name@,
            args@,
            arg_types@,
        ),
{
    let ghost start = diags_view(diagnostics@);
    if args.len() > 0 {
        if let Some(first_type) = type_at_index(arg_types, 0) {
            let is_date_string = match &args[0].name {
                Some(name) => str_eq(name.as_str(), "dateString"),
                None => args.len() == 1 && first_type.kind == ValueKind::String,
            };
            if is_date_string {
                if args.len() > 1 {
                    let s = String::from_str("`");
                    let s = s.concat(function_name);
                    let s = s.concat("` dateString overload expects 1 argument");
                    push_error(diagnostics, "E_CALL_ARITY", s, args[1].span);
                }
                check_slot_type(
                    function_name,
                    ("dateString", Accepts::ConstString),
                    arg_types,
                    0,
                    args[0].span,
                    diagnostics,
                );
                proof {
                    reveal_strlit("dateString");
                }
                assert(diags_view(diagnostics@) =~= start + spec_timestamp_diags(
                    function_name@,
                    args@,
                    arg_types@,
                ));
                return ;
            }
        }
    }
    let first_tz = args.len() > 0 && args[0].name.is_none() && match type_at_index(arg_types, 0) {
        Some(t) => t.kind == ValueKind::String,
        None => false,
    };
    let n = args.len();
    let mut named_tz = false;
    let mut i: usize = 0;
    while i < n
        invariant
            n == args@.len(),
            i <= n,
            named_tz == exists|j: int|
                0 <= j < i && #[trigger] opt_string_view(args@[j].name) == Some("timezone"@),
        decreases n - i,
    {
        let is_tz = match &args[i].name {
            Some(name) => str_eq(name.as_str(), "timezone"),
            None => false,
        };
        assert(is_tz == (opt_string_view(args@[i as int].name) == Some("timezone"@)));
        if is_tz {
            named_tz = true;
        }
        i = i + 1;
    }
    let max_args: usize = if first_tz || named_tz {
        7
    } else {
        6
    };
    if n > max_args {
        let s = String::from_str("`");
        let s = s.concat(function_name);
        let s = s.concat("` expects at most ");
        let s = s.concat(decimal(max_args).as_str());
        let s = s.concat(" argument(s), got ");
        let s = s.concat(decimal(n).as_str());
        push_error(diagnostics, "E_CALL_ARITY", s, args[max_args].span);
    }
    let ghost after_max = diags_view(diagnostics@);
    let ghost f = |i: int| spec_timestamp_arg_diags(function_name@, args@, arg_types@, first_tz, i);
    let ghost fname = function_name@;
    let mut has_year = false;
    let mut has_month = false;
    let mut has_day = false;
    let mut index: usize = 0;
    while index < n
        invariant
            n == args@.len(),
            index <= n,
            fname == function_name@,
            f == (|i: int| spec_timestamp_arg_diags(function_name@, args@, arg_types@, first_tz, i)),
            diags_view(diagnostics@) == after_max + concat_diags(index as int, f),
            has_year == exists|j: int|
                0 <= j < index && (#[trigger] spec_timestamp_resolution(
                    fname,
                    args@,
                    arg_types@,
                    first_tz,
                    j,
                ).0 matches Some(slot) && slot.0 == "year"@),
            has_month == exists|j: int|
                0 <= j < index && (#[trigger] spec_timestamp_resolution(
                    fname,
                    args@,
                    arg_types@,
                    first_tz,
                    j,
                ).0 matches Some(slot) && slot.0 == "month"@),
            has_day == exists|j: int|
                0 <= j < index && (#[trigger] spec_timestamp_resolution(
                    fname,
                    args@,
                    arg_types@,
                    first_tz,
                    j,
                ).0 matches Some(slot) && slot.0 == "day"@),
        decreases n - index,
    {
        proof {
            lemma_fills_step(fname, args@, arg_types@, first_tz, index as int, "year"@);
            lemma_fills_step(fname, args@, arg_types@, first_tz, index as int, "month"@);
            lemma_fills_step(fname, args@, arg_types@, first_tz, index as int, "day"@);
        }
        let ghost before = diags_view(diagnostics@);
        let slot = resolve_timestamp_arg(function_name, args, arg_types, index, first_tz, diagnostics);
        if let Some(slot) = slot {
            if str_eq(slot.0, "year") {
                has_year = true;
            } else if str_eq(slot.0, "month") {
                has_month = true;
            } else if str_eq(slot.0, "day") {
                has_day = true;
            }
            proof {
                reveal_strlit("year");
                reveal_strlit("month");
                reveal_strlit("day");
            }
            check_slot_type(function_name, slot, arg_types, index, args[index].span, diagnostics);
        }
        assert(diags_view(diagnostics@) =~= before + f(index as int));
        index = index + 1;
    }
    if !has_year || !has_month || !has_day {
        push_error(
            diagnostics,
            "E_CALL_ARITY",
            String::from_str("`timestamp` expects year, month, and day arguments"),
            first_arg_span(args),
        );
    }
    proof {
        reveal_strlit("`timestamp` expects year, month, and day arguments");
        reveal_strlit("dateString");
    }
    assert(diags_view(diagnostics@) =~= start + spec_timestamp_diags(function_name@, args@, arg_types@));
}

} // verus!
