//! The argument checks of `label.new`, `line.new` and `box.new`: arity,
//! argument types, and the values their string, size and formatting
//! parameters take.
use vstd::prelude::*;
use vstd::string::*;

use crate::accepts::spec_accepts_type;
use crate::call_helpers::{call_arg_accepts_type_expected_diagnostic, spec_refusal_message};
use crate::drawing::{
    box_border_styles, box_new_point_params, box_new_scalar_params, box_new_uses_point_overload,
    box_xlocs, label_new_point_params, label_new_scalar_params, label_new_uses_point_overload,
    label_styles, label_xlocs, label_ylocs, line_extends, line_new_point_params,
    line_new_scalar_params, line_new_uses_point_overload, line_styles, line_xlocs,
    spec_box_border_styles, spec_box_new_point_params, spec_box_new_scalar_params,
    spec_box_new_uses_point_overload, spec_box_xlocs, spec_label_new_point_params,
    spec_label_new_scalar_params, spec_label_new_uses_point_overload, spec_label_styles,
    spec_label_xlocs, spec_label_ylocs, spec_line_extends, spec_line_new_point_params,
    spec_line_new_scalar_params, spec_line_new_uses_point_overload, spec_line_styles,
    spec_line_xlocs, spec_text_font_families, spec_text_haligns, spec_text_valigns,
    spec_text_wraps, text_font_families, text_haligns, text_valigns, text_wraps,
    spec_text_sizes, text_sizes, BoxNewParam, LabelNewParam, LineNewParam, drawing_new_param, params_view, spec_bind_drawing_param, spec_bind_drawing_param_diags,
    DrawingNewParam, ParamView,
};
use crate::strings::{
    decimal, join_strs, opt_string_view, spec_decimal, spec_join, str_eq, str_in, strings_view,
    strs_view,
};
use crate::syntax::{concat_diags, diags_view, error_view, first_arg_span, first_span, push_error, CallArg, DiagView, Diagnostic};
use crate::arg_facts::{fact_known_strict_int, fact_known_string, opt_strings_view, ArgFacts};
use crate::signatures::BuiltinSignature;
use crate::types::PineType;

verus! {

/// How many parameters must be given.
pub open spec fn spec_required_count(params: Seq<ParamView>) -> nat
    decreases params.len(),
{
    if params.len() == 0 {
        0
    } else {
        spec_required_count(params.drop_last()) + if params.last().2 {
            0nat
        } else {
            1nat
        }
    }
}

proof fn lemma_required_count_bound(params: Seq<ParamView>)
    ensures
        spec_required_count(params) <= params.len(),
    decreases params.len(),
{
    if params.len() > 0 {
        lemma_required_count_bound(params.drop_last());
    }
}

fn required_count(params: &[DrawingNewParam]) -> (r: usize)
    ensures
        r == spec_required_count(params_view(params@)),
{
    let ghost ps = params_view(params@);
    let n = params.len();
    let mut count: usize = 0;
    let mut i: usize = 0;
    while i < n
        invariant
            n == params@.len(),
            ps == params_view(params@),
            i <= n,
            count == spec_required_count(ps.take(i as int)),
            count <= i,
        decreases n - i,
    {
        assert(ps.take((i + 1) as int).drop_last() =~= ps.take(i as int));
        if !params[i].optional {
            count = count + 1;
        }
        i = i + 1;
    }
    assert(ps.take(n as int) =~= ps);
    count
}

/// The arity report of a drawing call: too few arguments (which ends the
/// check), or too many.
pub open spec fn spec_drawing_arity_diags(
    call: Seq<char>,
    params: Seq<ParamView>,
    args: Seq<CallArg>,
) -> Seq<DiagView> {
    let required = spec_required_count(params);
    if args.len() < required {
        seq![
            error_view(
                "E_CALL_ARITY"@,
                "`"@ + call + "` expects at least "@ + spec_decimal(required) + " argument(s), got "@
                    + spec_decimal(args.len()),
                first_span(args),
            ),
        ]
    } else if args.len() > params.len() {
        seq![
            error_view(
                "E_CALL_ARITY"@,
                "`"@ + call + "` expects at most "@ + spec_decimal(params.len()) + " argument(s), got "@
                    + spec_decimal(args.len()),
                args[params.len() as int].span,
            ),
        ]
    } else {
        Seq::empty()
    }
}

/// What binding argument `i` and checking its type reports.
pub open spec fn spec_drawing_type_diags(
    call: Seq<char>,
    params: Seq<ParamView>,
    args: Seq<CallArg>,
    arg_types: Seq<Option<PineType>>,
    i: int,
) -> Seq<DiagView> {
    let name = opt_string_view(args[i].name);
    spec_bind_drawing_param_diags(call, params, name, args[i].span) + match spec_bind_drawing_param(
        params,
        i,
        name,
    ) {
        Some(k) => if i < arg_types.len() && arg_types[i] is Some && !spec_accepts_type(
            params[k].1,
            arg_types[i].unwrap(),
        ) {
            seq![
                error_view(
                    "E_CALL_ARG_TYPE"@,
                    spec_refusal_message(call, params[k].0, params[k].1, arg_types[i].unwrap()),
                    args[i].span,
                ),
            ]
        } else {
            Seq::empty()
        },
        None => Seq::empty(),
    }
}

/// What checking the type of each argument reports.
pub open spec fn type_diags(
    call: Seq<char>,
    params: Seq<ParamView>,
    args: Seq<CallArg>,
    arg_types: Seq<Option<PineType>>,
) -> Seq<DiagView> {
    concat_diags(args.len() as int, |i: int| spec_drawing_type_diags(call, params, args, arg_types, i))
}

/// Checks the arity of a drawing call and the type of each argument; `false`
/// when there are too few arguments to go on.
pub fn validate_drawing_overload_args(
    call: &str,
    args: &[CallArg],
    arg_types: &[Option<PineType>],
    params: &[DrawingNewParam],
    diagnostics: &mut Vec<Diagnostic>,
) -> (r: bool)
    ensures
        r == (args@.len() >= spec_required_count(params_view(params@))),
        diags_view(final(diagnostics)@) == diags_view(old(diagnostics)@) + spec_drawing_arity_diags(
            call@,
            params_view(params@),
            args@,
        ) + if r {
            type_diags(call@, params_view(params@), args@, arg_types@)
        } else {
            Seq::<DiagView>::empty()
        },
{
    let ghost start = diags_view(diagnostics@);
    let ghost f = |i: int| spec_drawing_type_diags(call@, params_view(params@), args@, arg_types@, i);
    let required = required_count(params);
    if args.len() < required {
        let s = String::from_str("`");
        let s = s.concat(call);
        let s = s.concat("` expects at least ");
        let s = s.concat(decimal(required).as_str());
        let s = s.concat(" argument(s), got ");
        let s = s.concat(decimal(args.len()).as_str());
        push_error(diagnostics, "E_CALL_ARITY", s, first_arg_span(args));
        assert(diags_view(diagnostics@) =~= start + spec_drawing_arity_diags(
            call@,
            params_view(params@),
            args@,
        ) + Seq::<DiagView>::empty());
        return false;
    }
    if args.len() > params.len() {
        let s = String::from_str("`");
        let s = s.concat(call);
        let s = s.concat("` expects at most ");
        let s = s.concat(decimal(params.len()).as_str());
        let s = s.concat(" argument(s), got ");
        let s = s.concat(decimal(args.len()).as_str());
        push_error(diagnostics, "E_CALL_ARITY", s, args[params.len()].span);
    }
    let ghost after_arity = diags_view(diagnostics@);
    assert(after_arity == start + spec_drawing_arity_diags(call@, params_view(params@), args@));
    let n = args.len();
    let mut index: usize = 0;
    while index < n
        invariant
            n == args@.len(),
            index <= n,
            f == (|i: int| spec_drawing_type_diags(call@, params_view(params@), args@, arg_types@, i)),
            diags_view(diagnostics@) == after_arity + concat_diags(index as int, f),
        decreases n - index,
    {
        let ghost before = diags_view(diagnostics@);
        let arg = &args[index];
        let param = drawing_new_param(call, params, index, arg, diagnostics);
        let ghost bound = diags_view(diagnostics@);
        if let Some(param) = param {
            if index < arg_types.len() {
                if let Some(arg_type) = arg_types[index] {
                    if let Some(diagnostic) = call_arg_accepts_type_expected_diagnostic(
                        call,
                        param.name,
                        param.accepts,
                        arg_type,
                        arg.span,
                    ) {
                        diagnostics.push(diagnostic);
                    }
                }
            }
        }
        assert(diags_view(diagnostics@) =~= before + f(index as int));
        index = index + 1;
    }
    true
}

/// Whether what is known of argument `i` shows it takes only supported values:
/// every value of its known domain where a proven series is allowed,
/// otherwise its known constant.
pub open spec fn spec_known_supported(
    facts: Seq<ArgFacts>,
    i: int,
    supported: Seq<Seq<char>>,
    allow_proven_series: bool,
) -> bool {
    if 0 <= i < facts.len() {
        if allow_proven_series {
            match opt_strings_view(facts[i].known_string_domain) {
                Some(values) => forall|j: int|
                    0 <= j < values.len() ==> supported.contains(#[trigger] values[j]),
                None => false,
            }
        } else {
            match opt_string_view(facts[i].known_string) {
                Some(v) => supported.contains(v),
                None => false,
            }
        }
    } else {
        false
    }
}

fn known_supported(facts: &[ArgFacts], i: usize, supported: &[&str], allow_proven_series: bool) -> (r:
    bool)
    ensures
        r == spec_known_supported(facts@, i as int, strs_view(supported@), allow_proven_series),
{
    if i >= facts.len() {
        return false;
    }
    let fact = &facts[i];
    if allow_proven_series {
        match &fact.known_string_domain {
            Some(values) => {
                let ghost vs = strings_view(values@);
                let m = values.len();
                let mut j: usize = 0;
                while j < m
                    invariant
                        m == values@.len(),
                        vs == strings_view(values@),
                        i < facts@.len(),
                        *fact == facts@[i as int],
                        fact.known_string_domain == Some(*values),
                        allow_proven_series,
                        j <= m,
                        forall|k: int| 0 <= k < j ==> strs_view(supported@).contains(#[trigger] vs[k]),
                    decreases m - j,
                {
                    if !str_in(values[j].as_str(), supported) {
                        assert(vs[j as int] == values@[j as int]@);
                        assert(!strs_view(supported@).contains(vs[j as int]));
                        assert(opt_strings_view(facts@[i as int].known_string_domain) == Some(vs));
                        assert(!spec_known_supported(
                            facts@,
                            i as int,
                            strs_view(supported@),
                            allow_proven_series,
                        )) by {
                            let values = opt_strings_view(facts@[i as int].known_string_domain).unwrap();
                            assert(values[j as int] == vs[j as int]);
                        }
                        return false;
                    }
                    j = j + 1;
                }
                true
            },
            None => false,
        }
    } else {
        match &fact.known_string {
            Some(v) => str_in(v.as_str(), supported),
            None => false,
        }
    }
}

/// The parameter argument `i` binds to, when its name is `name`.
pub open spec fn binds_param_named(params: Seq<ParamView>, args: Seq<CallArg>, i: int, name: Seq<char>) -> bool {
    spec_bind_drawing_param(params, i, opt_string_view(args[i].name)) matches Some(k) && params[k].0
        == name
}

pub open spec fn only_supports_message(call: Seq<char>, name: Seq<char>, supported: Seq<Seq<char>>) -> Seq<
    char,
> {
    "`"@ + call + "` argument `"@ + name + "` only supports "@ + spec_join(supported, ", "@)
}

/// What argument `i` reports when it binds to the string parameter `name`
/// and is not known to take only `supported` values.
pub open spec fn spec_string_arg_diags(
    call: Seq<char>,
    params: Seq<ParamView>,
    args: Seq<CallArg>,
    facts: Seq<ArgFacts>,
    name: Seq<char>,
    supported: Seq<Seq<char>>,
    allow_proven_series: bool,
    i: int,
) -> Seq<DiagView> {
    if binds_param_named(params, args, i, name) && !spec_known_supported(
        facts,
        i,
        supported,
        allow_proven_series,
    ) {
        seq![
            error_view(
                "E_CALL_ARG_VALUE"@,
                only_supports_message(call, name, supported),
                args[i].span,
            ),
        ]
    } else {
        Seq::empty()
    }
}

/// What checking the value of each argument bound to `name` reports.
pub open spec fn string_diags(
    call: Seq<char>,
    params: Seq<ParamView>,
    args: Seq<CallArg>,
    facts: Seq<ArgFacts>,
    name: Seq<char>,
    supported: Seq<Seq<char>>,
    allow_proven_series: bool,
) -> Seq<DiagView> {
    concat_diags(
        args.len() as int,
        |i: int|
            spec_string_arg_diags(call, params, args, facts, name, supported, allow_proven_series, i),
    )
}

/// Binds argument `index` without keeping what the binding reports.
fn bound_param<'a>(call: &str, params: &'a [DrawingNewParam], index: usize, arg: &CallArg) -> (r:
    Option<&'a DrawingNewParam>)
    ensures
        match spec_bind_drawing_param(params_view(params@), index as int, opt_string_view(arg.name)) {
            Some(k) => r == Some(&params@[k]) && 0 <= k < params@.len(),
            None => r is None,
        },
{
    let mut scratch: Vec<Diagnostic> = Vec::new();
    drawing_new_param(call, params, index, arg, &mut scratch)
}

/// Checks the value of every argument bound to the string parameter `name`.
pub fn validate_drawing_string_arg(
    call: &str,
    args: &[CallArg],
    params: &[DrawingNewParam],
    facts: &[ArgFacts],
    name: &str,
    supported: &[&str],
    allow_proven_series: bool,
    diagnostics: &mut Vec<Diagnostic>,
)
    ensures
        diags_view(final(diagnostics)@) == diags_view(old(diagnostics)@) + string_diags(
            call@,
            params_view(params@),
            args@,
            facts@,
            name@,
            strs_view(supported@),
            allow_proven_series,
        ),
{
    let ghost start = diags_view(diagnostics@);
    let ghost f = |i: int|
        spec_string_arg_diags(
            call@,
            params_view(params@),
            args@,
            facts@,
            name@,
            strs_view(supported@),
            allow_proven_series,
            i,
        );
    let n = args.len();
    let mut index: usize = 0;
    while index < n
        invariant
            n == args@.len(),
            index <= n,
            f == (|i: int|
                spec_string_arg_diags(
                    call@,
                    params_view(params@),
                    args@,
                    facts@,
                    name@,
                    strs_view(supported@),
                    allow_proven_series,
                    i,
                )),
            diags_view(diagnostics@) == start + concat_diags(index as int, f),
        decreases n - index,
    {
        let ghost before = diags_view(diagnostics@);
        let arg = &args[index];
        if let Some(param) = bound_param(call, params, index, arg) {
            if str_eq(param.name, name) {
                if !known_supported(facts, index, supported, allow_proven_series) {
                    let s = String::from_str("`");
                    let s = s.concat(call);
                    let s = s.concat("` argument `");
                    let s = s.concat(name);
                    let s = s.concat("` only supports ");
                    let s = s.concat(join_strs(supported, ", ").as_str());
                    push_error(diagnostics, "E_CALL_ARG_VALUE", s, arg.span);
                }
            }
        }
        assert(diags_view(diagnostics@) =~= before + f(index as int));
        index = index + 1;
    }
}

pub open spec fn text_size_message(call: Seq<char>, name: Seq<char>) -> Seq<char> {
    "`"@ + call + "` argument `"@ + name + "` only supports "@ + spec_join(spec_text_sizes(), ", "@)
        + " or int sizes"@
}

/// What argument `i` reports when it binds to the size parameter `name` and
/// is a known string that is no text size.
pub open spec fn spec_text_size_arg_diags(
    call: Seq<char>,
    params: Seq<ParamView>,
    args: Seq<CallArg>,
    facts: Seq<ArgFacts>,
    name: Seq<char>,
    i: int,
) -> Seq<DiagView> {
    if binds_param_named(params, args, i, name) && (fact_known_string(facts, i) matches Some(v)
        && !spec_text_sizes().contains(v)) {
        seq![error_view("E_CALL_ARG_VALUE"@, text_size_message(call, name), args[i].span)]
    } else {
        Seq::empty()
    }
}

/// What checking each argument bound to the size parameter `name` reports.
pub open spec fn text_size_diags(
    call: Seq<char>,
    params: Seq<ParamView>,
    args: Seq<CallArg>,
    facts: Seq<ArgFacts>,
    name: Seq<char>,
) -> Seq<DiagView> {
    concat_diags(args.len() as int, |i: int| spec_text_size_arg_diags(call, params, args, facts, name, i))
}

/// Checks every argument bound to the size parameter `name`.
pub fn validate_drawing_text_size_arg(
    call: &str,
    args: &[CallArg],
    params: &[DrawingNewParam],
    facts: &[ArgFacts],
    name: &str,
    diagnostics: &mut Vec<Diagnostic>,
)
    ensures
        diags_view(final(diagnostics)@) == diags_view(old(diagnostics)@) + text_size_diags(
            call@,
            params_view(params@),
            args@,
            facts@,
            name@,
        ),
{
    let ghost start = diags_view(diagnostics@);
    let ghost f = |i: int| spec_text_size_arg_diags(call@, params_view(params@), args@, facts@, name@, i);
    let sizes = text_sizes();
    let n = args.len();
    let mut index: usize = 0;
    while index < n
        invariant
            n == args@.len(),
            index <= n,
            strs_view(sizes@) == spec_text_sizes(),
            f == (|i: int| spec_text_size_arg_diags(call@, params_view(params@), args@, facts@, name@, i)),
            diags_view(diagnostics@) == start + concat_diags(index as int, f),
        decreases n - index,
    {
        let ghost before = diags_view(diagnostics@);
        let arg = &args[index];
        if let Some(param) = bound_param(call, params, index, arg) {
            if str_eq(param.name, name) && index < facts.len() {
                if let Some(value) = &facts[index].known_string {
                    if !str_in(value.as_str(), sizes.as_slice()) {
                        let s = String::from_str("`");
                        let s = s.concat(call);
                        let s = s.concat("` argument `");
                        let s = s.concat(name);
                        let s = s.concat("` only supports ");
                        let s = s.concat(join_strs(sizes.as_slice(), ", ").as_str());
                        let s = s.concat(" or int sizes");
                        push_error(diagnostics, "E_CALL_ARG_VALUE", s, arg.span);
                    }
                }
            }
        }
        assert(diags_view(diagnostics@) =~= before + f(index as int));
        index = index + 1;
    }
}

pub open spec fn text_formatting_message(call: Seq<char>) -> Seq<char> {
    "`"@ + call
        + "` argument `text_formatting` only supports text.format_none, text.format_bold, text.format_italic, or text.format_bold + text.format_italic"@
}

/// A formatting value outside `0..=3`, or one known not to be a usable integer.
pub open spec fn is_bad_text_formatting(v: Result<i64, ()>) -> bool {
    match v {
        Ok(x) => !(0 <= x <= 3),
        Err(_) => true,
    }
}

/// What argument `i` reports when it binds to `text_formatting` and is known
/// to be a value no formatting flag combination gives.
pub open spec fn spec_text_formatting_arg_diags(
    call: Seq<char>,
    params: Seq<ParamView>,
    args: Seq<CallArg>,
    facts: Seq<ArgFacts>,
    i: int,
) -> Seq<DiagView> {
    if binds_param_named(params, args, i, "text_formatting"@) && (fact_known_strict_int(facts, i) matches Some(
        v,
    ) && is_bad_text_formatting(v)) {
        seq![error_view("E_CALL_ARG_VALUE"@, text_formatting_message(call), args[i].span)]
    } else {
        Seq::empty()
    }
}

/// What checking each argument bound to `text_formatting` reports.
pub open spec fn text_formatting_diags(
    call: Seq<char>,
    params: Seq<ParamView>,
    args: Seq<CallArg>,
    facts: Seq<ArgFacts>,
) -> Seq<DiagView> {
    concat_diags(args.len() as int, |i: int| spec_text_formatting_arg_diags(call, params, args, facts, i))
}

/// Checks every argument bound to `text_formatting`.
pub fn validate_drawing_text_formatting_arg(
    call: &str,
    args: &[CallArg],
    params: &[DrawingNewParam],
    facts: &[ArgFacts],
    diagnostics: &mut Vec<Diagnostic>,
)
    ensures
        diags_view(final(diagnostics)@) == diags_view(old(diagnostics)@) + text_formatting_diags(
            call@,
            params_view(params@),
            args@,
            facts@,
        ),
{
    let ghost start = diags_view(diagnostics@);
    let ghost f = |i: int| spec_text_formatting_arg_diags(call@, params_view(params@), args@, facts@, i);
    let n = args.len();
    let mut index: usize = 0;
    while index < n
        invariant
            n == args@.len(),
            index <= n,
            f == (|i: int| spec_text_formatting_arg_diags(call@, params_view(params@), args@, facts@, i)),
            diags_view(diagnostics@) == start + concat_diags(index as int, f),
        decreases n - index,
    {
        let ghost before = diags_view(diagnostics@);
        let arg = &args[index];
        if let Some(param) = bound_param(call, params, index, arg) {
            if str_eq(param.name, "text_formatting") && index < facts.len() {
                if let Some(value) = facts[index].known_strict_int {
                    let bad = match value {
                        Ok(v) => !(0 <= v && v <= 3),
                        Err(()) => true,
                    };
                    if bad {
                        let s = String::from_str("`");
                        let s = s.concat(call);
                        let s = s.concat(
                            "` argument `text_formatting` only supports text.format_none, text.format_bold, text.format_italic, or text.format_bold + text.format_italic",
                        );
                        push_error(diagnostics, "E_CALL_ARG_VALUE", s, arg.span);
                    }
                }
            }
        }
        proof {
            reveal_strlit("text_formatting");
        }
        assert(diags_view(diagnostics@) =~= before + f(index as int));
        index = index + 1;
    }
}

/// What the checks of a `label.new` overload report.
pub open spec fn spec_label_new_overload_diags(
    args: Seq<CallArg>,
    arg_types: Seq<Option<PineType>>,
    params: Seq<ParamView>,
    facts: Seq<ArgFacts>,
) -> Seq<DiagView> {
    let call = "label.new"@;
    spec_drawing_arity_diags(call, params, args) + if args.len() < spec_required_count(params) {
        Seq::empty()
    } else {
        type_diags(call, params, args, arg_types) + string_diags(
            call,
            params,
            args,
            facts,
            "xloc"@,
            spec_label_xlocs(),
            false,
        ) + string_diags(call, params, args, facts, "yloc"@, spec_label_ylocs(), false)
            + string_diags(call, params, args, facts, "style"@, spec_label_styles(), true)
            + string_diags(call, params, args, facts, "textalign"@, spec_text_haligns(), false)
            + string_diags(
            call,
            params,
            args,
            facts,
            "text_font_family"@,
            spec_text_font_families(),
            false,
        ) + text_size_diags(call, params, args, facts, "size"@) + text_formatting_diags(
            call,
            params,
            args,
            facts,
        )
    }
}

/// Checks a `label.new` call against one of its overloads.
pub fn validate_label_new_overload(
    args: &[CallArg],
    arg_types: &[Option<PineType>],
    params: &[LabelNewParam],
    facts: &[ArgFacts],
    diagnostics: &mut Vec<Diagnostic>,
)
    ensures
        diags_view(final(diagnostics)@) == diags_view(old(diagnostics)@)
            + spec_label_new_overload_diags(args@, arg_types@, params_view(params@), facts@),
{
    let ghost start = diags_view(diagnostics@);
    if !validate_drawing_overload_args("label.new", args, arg_types, params, diagnostics) {
        return ;
    }
    let call = "label.new";
    validate_drawing_string_arg(call, args, params, facts, "xloc", label_xlocs().as_slice(), false, diagnostics);
    validate_drawing_string_arg(call, args, params, facts, "yloc", label_ylocs().as_slice(), false, diagnostics);
    validate_drawing_string_arg(call, args, params, facts, "style", label_styles().as_slice(), true, diagnostics);
    validate_drawing_string_arg(
        call,
        args,
        params,
        facts,
        "textalign",
        text_haligns().as_slice(),
        false,
        diagnostics,
    );
    validate_drawing_string_arg(
        call,
        args,
        params,
        facts,
        "text_font_family",
        text_font_families().as_slice(),
        false,
        diagnostics,
    );
    validate_drawing_text_size_arg(call, args, params, facts, "size", diagnostics);
    validate_drawing_text_formatting_arg(call, args, params, facts, diagnostics);
    assert(diags_view(diagnostics@) =~= start + spec_label_new_overload_diags(
        args@,
        arg_types@,
        params_view(params@),
        facts@,
    ));
}

/// What the checks of a `line.new` overload report.
pub open spec fn spec_line_new_overload_diags(
    args: Seq<CallArg>,
    arg_types: Seq<Option<PineType>>,
    params: Seq<ParamView>,
    facts: Seq<ArgFacts>,
) -> Seq<DiagView> {
    let call = "line.new"@;
    spec_drawing_arity_diags(call, params, args) + if args.len() < spec_required_count(params) {
        Seq::empty()
    } else {
        type_diags(call, params, args, arg_types) + string_diags(
            call,
            params,
            args,
            facts,
            "xloc"@,
            spec_line_xlocs(),
            false,
        ) + string_diags(call, params, args, facts, "extend"@, spec_line_extends(), true)
            + string_diags(call, params, args, facts, "style"@, spec_line_styles(), true)
    }
}

/// Checks a `line.new` call against one of its overloads.
pub fn validate_line_new_overload(
    args: &[CallArg],
    arg_types: &[Option<PineType>],
    params: &[LineNewParam],
    facts: &[ArgFacts],
    diagnostics: &mut Vec<Diagnostic>,
)
    ensures
        diags_view(final(diagnostics)@) == diags_view(old(diagnostics)@)
            + spec_line_new_overload_diags(args@, arg_types@, params_view(params@), facts@),
{
    let ghost start = diags_view(diagnostics@);
    if !validate_drawing_overload_args("line.new", args, arg_types, params, diagnostics) {
        return ;
    }
    let call = "line.new";
    validate_drawing_string_arg(call, args, params, facts, "xloc", line_xlocs().as_slice(), false, diagnostics);
    validate_drawing_string_arg(
        call,
        args,
        params,
        facts,
        "extend",
        line_extends().as_slice(),
        true,
        diagnostics,
    );
    validate_drawing_string_arg(call, args, params, facts, "style", line_styles().as_slice(), true, diagnostics);
    assert(diags_view(diagnostics@) =~= start + spec_line_new_overload_diags(
        args@,
        arg_types@,
        params_view(params@),
        facts@,
    ));
}

/// What the checks of a `box.new` overload report.
pub open spec fn spec_box_new_overload_diags(
    args: Seq<CallArg>,
    arg_types: Seq<Option<PineType>>,
    params: Seq<ParamView>,
    facts: Seq<ArgFacts>,
) -> Seq<DiagView> {
    let call = "box.new"@;
    spec_drawing_arity_diags(call, params, args) + if args.len() < spec_required_count(params) {
        Seq::empty()
    } else {
        type_diags(call, params, args, arg_types) + string_diags(
            call,
            params,
            args,
            facts,
            "border_style"@,
            spec_box_border_styles(),
            false,
        ) + string_diags(call, params, args, facts, "extend"@, spec_line_extends(), false)
            + string_diags(call, params, args, facts, "xloc"@, spec_box_xlocs(), false)
            + string_diags(call, params, args, facts, "text_halign"@, spec_text_haligns(), false)
            + string_diags(call, params, args, facts, "text_valign"@, spec_text_valigns(), false)
            + string_diags(call, params, args, facts, "text_wrap"@, spec_text_wraps(), false)
            + string_diags(
            call,
            params,
            args,
            facts,
            "text_font_family"@,
            spec_text_font_families(),
            false,
        ) + text_size_diags(call, params, args, facts, "text_size"@) + text_formatting_diags(
            call,
            params,
            args,
            facts,
        )
    }
}

/// Checks a `box.new` call against one of its overloads.
pub fn validate_box_new_overload(
    args: &[CallArg],
    arg_types: &[Option<PineType>],
    params: &[BoxNewParam],
    facts: &[ArgFacts],
    diagnostics: &mut Vec<Diagnostic>,
)
    ensures
        diags_view(final(diagnostics)@) == diags_view(old(diagnostics)@)
            + spec_box_new_overload_diags(args@, arg_types@, params_view(params@), facts@),
{
    let ghost start = diags_view(diagnostics@);
    if !validate_drawing_overload_args("box.new", args, arg_types, params, diagnostics) {
        return ;
    }
    let call = "box.new";
    validate_drawing_string_arg(
        call,
        args,
        params,
        facts,
        "border_style",
        box_border_styles().as_slice(),
        false,
        diagnostics,
    );
    validate_drawing_string_arg(
        call,
        args,
        params,
        facts,
        "extend",
        line_extends().as_slice(),
        false,
        diagnostics,
    );
    validate_drawing_string_arg(call, args, params, facts, "xloc", box_xlocs().as_slice(), false, diagnostics);
    validate_drawing_string_arg(
        call,
        args,
        params,
        facts,
        "text_halign",
        text_haligns().as_slice(),
        false,
        diagnostics,
    );
    validate_drawing_string_arg(
        call,
        args,
        params,
        facts,
        "text_valign",
        text_valigns().as_slice(),
        false,
        diagnostics,
    );
    validate_drawing_string_arg(
        call,
        args,
        params,
        facts,
        "text_wrap",
        text_wraps().as_slice(),
        false,
        diagnostics,
    );
    validate_drawing_string_arg(
        call,
        args,
        params,
        facts,
        "text_font_family",
        text_font_families().as_slice(),
        false,
        diagnostics,
    );
    validate_drawing_text_size_arg(call, args, params, facts, "text_size", diagnostics);
    validate_drawing_text_formatting_arg(call, args, params, facts, diagnostics);
    assert(diags_view(diagnostics@) =~= start + spec_box_new_overload_diags(
        args@,
        arg_types@,
        params_view(params@),
        facts@,
    ));
}

/// The overload of `label.new` a call uses.
pub open spec fn spec_label_new_params(args: Seq<CallArg>, arg_types: Seq<Option<PineType>>) -> Seq<
    ParamView,
> {
    if spec_label_new_uses_point_overload(args, arg_types) {
        spec_label_new_point_params()
    } else {
        spec_label_new_scalar_params()
    }
}

/// Checks a call when it is one of `label.new`; `true` when it was.
pub fn validate_label_new_args(
    signature: &BuiltinSignature,
    args: &[CallArg],
    arg_types: &[Option<PineType>],
    facts: &[ArgFacts],
    diagnostics: &mut Vec<Diagnostic>,
) -> (r: bool)
    ensures
        r == (signature.name@ == "label.new"@),
        diags_view(final(diagnostics)@) == diags_view(old(diagnostics)@) + if r {
            spec_label_new_overload_diags(
                args@,
                arg_types@,
                spec_label_new_params(args@, arg_types@),
                facts@,
            )
        } else {
            Seq::<DiagView>::empty()
        },
{
    if !str_eq(signature.name, "label.new") {
        assert(diags_view(diagnostics@) =~= diags_view(diagnostics@) + Seq::<DiagView>::empty());
        return false;
    }
    let params = if label_new_uses_point_overload(args, arg_types) {
        label_new_point_params()
    } else {
        label_new_scalar_params()
    };
    validate_label_new_overload(args, arg_types, params.as_slice(), facts, diagnostics);
    true
}

/// The overload of `line.new` a call uses.
pub open spec fn spec_line_new_params(args: Seq<CallArg>, arg_types: Seq<Option<PineType>>) -> Seq<
    ParamView,
> {
    if spec_line_new_uses_point_overload(args, arg_types) {
        spec_line_new_point_params()
    } else {
        spec_line_new_scalar_params()
    }
}

/// Checks a call when it is one of `line.new`; `true` when it was.
pub fn validate_line_new_args(
    signature: &BuiltinSignature,
    args: &[CallArg],
    arg_types: &[Option<PineType>],
    facts: &[ArgFacts],
    diagnostics: &mut Vec<Diagnostic>,
) -> (r: bool)
    ensures
        r == (signature.name@ == "line.new"@),
        diags_view(final(diagnostics)@) == diags_view(old(diagnostics)@) + if r {
            spec_line_new_overload_diags(
                args@,
                arg_types@,
                spec_line_new_params(args@, arg_types@),
                facts@,
            )
        } else {
            Seq::<DiagView>::empty()
        },
{
    if !str_eq(signature.name, "line.new") {
        assert(diags_view(diagnostics@) =~= diags_view(diagnostics@) + Seq::<DiagView>::empty());
        return false;
    }
    let params = if line_new_uses_point_overload(args, arg_types) {
        line_new_point_params()
    } else {
        line_new_scalar_params()
    };
    validate_line_new_overload(args, arg_types, params.as_slice(), facts, diagnostics);
    true
}

/// The overload of `box.new` a call uses.
pub open spec fn spec_box_new_params(args: Seq<CallArg>, arg_types: Seq<Option<PineType>>) -> Seq<
    ParamView,
> {
    if spec_box_new_uses_point_overload(args, arg_types) {
        spec_box_new_point_params()
    } else {
        spec_box_new_scalar_params()
    }
}

/// Checks a call when it is one of `box.new`; `true` when it was.
pub fn validate_box_new_args(
    signature: &BuiltinSignature,
    args: &[CallArg],
    arg_types: &[Option<PineType>],
    facts: &[ArgFacts],
    diagnostics: &mut Vec<Diagnostic>,
) -> (r: bool)
    ensures
        r == (signature.name@ == "box.new"@),
        diags_view(final(diagnostics)@) == diags_view(old(diagnostics)@) + if r {
            spec_box_new_overload_diags(
                args@,
                arg_types@,
                spec_box_new_params(args@, arg_types@),
                facts@,
            )
        } else {
            Seq::<DiagView>::empty()
        },
{
    if !str_eq(signature.name, "box.new") {
        assert(diags_view(diagnostics@) =~= diags_view(diagnostics@) + Seq::<DiagView>::empty());
        return false;
    }
    let params = if box_new_uses_point_overload(args, arg_types) {
        box_new_point_params()
    } else {
        box_new_scalar_params()
    };
    validate_box_new_overload(args, arg_types, params.as_slice(), facts, diagnostics);
    true
}

} // verus!
