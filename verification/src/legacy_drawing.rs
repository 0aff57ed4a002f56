//! Which drawing features a script of an older language version may not use:
//! the chart.point overloads and the parameters added in later versions.
use vstd::prelude::*;
use vstd::string::*;

use crate::call_checks::type_at;
use crate::drawing::{
    box_new_point_params, box_new_scalar_params, box_new_uses_point_overload, drawing_new_param,
    label_new_point_params, label_new_scalar_params, label_new_uses_point_overload,
    line_new_point_params, line_new_scalar_params, line_new_uses_point_overload, params_view,
    spec_bind_drawing_param, spec_box_new_uses_point_overload, spec_label_new_uses_point_overload,
    spec_line_new_uses_point_overload, DrawingNewParam, ParamView,
};
use crate::drawing_checks::{spec_box_new_params, spec_label_new_params, spec_line_new_params};
use crate::signatures::{first_index_of, lemma_first_index_of_bounds, param_names, param_position, BuiltinParam, BuiltinSignature};
use crate::strings::{opt_string_view, str_eq};
use crate::syntax::{CallArg, Diagnostic, Span};
use crate::types::{PineType, ValueKind};

verus! {

/// A feature a script uses that its language version does not have yet.
#[derive(Clone, Debug)]
pub struct UnavailableFeature {
    pub feature: String,
    pub min_version: u32,
    pub span: Span,
}

/// An unavailable feature as plain values.
pub type FeatureView = (Seq<char>, u32, Span);

pub open spec fn features_view(s: Seq<UnavailableFeature>) -> Seq<FeatureView> {
    s.map_values(|f: UnavailableFeature| (f.feature@, f.min_version, f.span))
}

/// The features of steps `0..n`, in order.
pub open spec fn concat_features(n: int, f: spec_fn(int) -> Seq<FeatureView>) -> Seq<FeatureView>
    decreases n,
{
    if n <= 0 {
        Seq::empty()
    } else {
        concat_features(n - 1, f) + f(n - 1)
    }
}

/// The parameter name argument `i` binds to in a drawing overload.
pub open spec fn drawing_bound_name(params: Seq<ParamView>, args: Seq<CallArg>, i: int) -> Option<
    Seq<char>,
> {
    match spec_bind_drawing_param(params, i, opt_string_view(args[i].name)) {
        Some(k) => Some(params[k].0),
        None => None,
    }
}

/// The parameter name argument `i` binds to in any other builtin: its own
/// name when a parameter has it, else the parameter at its position.
pub open spec fn signature_bound_name(params: Seq<BuiltinParam>, args: Seq<CallArg>, i: int) -> Option<
    Seq<char>,
> {
    match opt_string_view(args[i].name) {
        Some(n) => if first_index_of(param_names(params), n) is Some {
            Some(n)
        } else {
            None
        },
        None => if 0 <= i < params.len() {
            Some(params[i].name@)
        } else {
            None
        },
    }
}

/// The parameter name argument `i` of a call binds to.
pub open spec fn spec_bound_param_name(
    signature: BuiltinSignature,
    args: Seq<CallArg>,
    arg_types: Seq<Option<PineType>>,
    i: int,
) -> Option<Seq<char>> {
    let name = signature.name@;
    if name == "label.new"@ {
        drawing_bound_name(spec_label_new_params(args, arg_types), args, i)
    } else if name == "line.new"@ {
        drawing_bound_name(spec_line_new_params(args, arg_types), args, i)
    } else if name == "box.new"@ {
        drawing_bound_name(spec_box_new_params(args, arg_types), args, i)
    } else {
        signature_bound_name(signature.params@, args, i)
    }
}

/// `text_formatting` of `label.new`, `box.new` and `table.cell` came with version 6.
pub open spec fn is_v6_text_formatting(name: Seq<char>, param: Seq<char>) -> bool {
    (name == "label.new"@ || name == "box.new"@ || name == "table.cell"@) && param
        == "text_formatting"@
}

/// Integer text sizes came with version 6.
pub open spec fn is_v6_text_size_param(name: Seq<char>, param: Seq<char>) -> bool {
    ((name == "label.new"@ || name == "label.set_size"@) && param == "size"@) || ((name
        == "box.new"@ || name == "box.set_text_size"@) && param == "text_size"@) || ((name
        == "table.cell"@ || name == "table.cell_set_text_size"@) && param == "text_size"@)
}

/// The drawing parameters that came with version 5.
pub open spec fn is_v5_parameter(name: Seq<char>, param: Seq<char>) -> bool {
    (name == "label.new"@ && (param == "text_font_family"@ || param == "force_overlay"@)) || (name
        == "line.new"@ && param == "force_overlay"@) || (name == "box.new"@ && (param == "text"@
        || param == "text_size"@ || param == "text_color"@ || param == "text_halign"@ || param
        == "text_valign"@ || param == "text_wrap"@ || param == "text_font_family"@ || param
        == "force_overlay"@)) || (name == "table.new"@ && param == "force_overlay"@) || (name
        == "table.cell"@ && (param == "tooltip"@ || param == "text_font_family"@))
}

/// The version argument `i` needs, if any, given the parameter it binds to.
pub open spec fn spec_arg_min_version(
    version: u32,
    name: Seq<char>,
    param: Seq<char>,
    t: Option<PineType>,
) -> Option<u32> {
    if is_v6_text_formatting(name, param) || (is_v6_text_size_param(name, param) && (t matches Some(
        t,
    ) && t.kind == ValueKind::Int)) {
        Some(6)
    } else if version < 5 && is_v5_parameter(name, param) {
        Some(5)
    } else {
        None
    }
}

/// What argument `i` uses that the version lacks.
pub open spec fn spec_arg_unavailable(
    version: u32,
    signature: BuiltinSignature,
    args: Seq<CallArg>,
    arg_types: Seq<Option<PineType>>,
    i: int,
) -> Seq<FeatureView> {
    match spec_bound_param_name(signature, args, arg_types, i) {
        Some(p) => match spec_arg_min_version(version, signature.name@, p, type_at(arg_types, i)) {
            Some(m) => seq![(signature.name@ + " argument `"@ + p + "`"@, m, args[i].span)],
            None => Seq::empty(),
        },
        None => Seq::empty(),
    }
}

/// The point overloads a pre-version-5 call uses, reported at its first argument.
pub open spec fn spec_point_overloads_unavailable(
    version: u32,
    signature: BuiltinSignature,
    args: Seq<CallArg>,
    arg_types: Seq<Option<PineType>>,
) -> Seq<FeatureView> {
    let name = signature.name@;
    if version < 5 && args.len() > 0 {
        (if name == "label.new"@ && spec_label_new_uses_point_overload(args, arg_types) {
            seq![("label.new point overload"@, 5u32, args[0].span)]
        } else {
            Seq::empty()
        }) + (if name == "line.new"@ && spec_line_new_uses_point_overload(args, arg_types) {
            seq![("line.new point overload"@, 5u32, args[0].span)]
        } else {
            Seq::empty()
        }) + (if name == "box.new"@ && spec_box_new_uses_point_overload(args, arg_types) {
            seq![("box.new point overload"@, 5u32, args[0].span)]
        } else {
            Seq::empty()
        })
    } else {
        Seq::empty()
    }
}

/// Everything a drawing call uses that language version `version` lacks;
/// nothing from version 6 on.
pub open spec fn spec_legacy_drawing_unavailable(
    version: u32,
    signature: BuiltinSignature,
    args: Seq<CallArg>,
    arg_types: Seq<Option<PineType>>,
) -> Seq<FeatureView> {
    if version >= 6 {
        Seq::empty()
    } else {
        spec_point_overloads_unavailable(version, signature, args, arg_types) + concat_features(
            args.len() as int,
            |i: int| spec_arg_unavailable(version, signature, args, arg_types, i),
        )
    }
}

pub open spec fn opt_str_view(r: Option<&str>) -> Option<Seq<char>> {
    match r {
        Some(s) => Some(s@),
        None => None,
    }
}

fn drawing_param_name(params: &[DrawingNewParam], args: &[CallArg], index: usize) -> (r: Option<
    &'static str,
>)
    requires
        index < args@.len(),
    ensures
        opt_str_view(r) == drawing_bound_name(params_view(params@), args@, index as int),
{
    let mut scratch: Vec<Diagnostic> = Vec::new();
    match drawing_new_param("", params, index, &args[index], &mut scratch) {
        Some(p) => Some(p.name),
        None => None,
    }
}

fn signature_param_name(signature: &BuiltinSignature, args: &[CallArg], index: usize) -> (r: Option<
    &'static str,
>)
    requires
        index < args@.len(),
    ensures
        opt_str_view(r) == signature_bound_name(signature.params@, args@, index as int),
{
    match &args[index].name {
        Some(name) => {
            proof {
                lemma_first_index_of_bounds(param_names(signature.params@), name@);
            }
            match param_position(&signature.params, name.as_str()) {
                Some(k) => Some(signature.params[k].name),
                None => None,
            }
        },
        None => if index < signature.params.len() {
            Some(signature.params[index].name)
        } else {
            None
        },
    }
}

fn arg_min_version(version: u32, name: &str, param: &str, t: Option<PineType>) -> (r: Option<u32>)
    ensures
        r == spec_arg_min_version(version, name@, param@, t),
{
    let v6_formatting = (str_eq(name, "label.new") || str_eq(name, "box.new") || str_eq(
        name,
        "table.cell",
    )) && str_eq(param, "text_formatting");
    let v6_size_param = ((str_eq(name, "label.new") || str_eq(name, "label.set_size")) && str_eq(
        param,
        "size",
    )) || ((str_eq(name, "box.new") || str_eq(name, "box.set_text_size")) && str_eq(
        param,
        "text_size",
    )) || ((str_eq(name, "table.cell") || str_eq(name, "table.cell_set_text_size")) && str_eq(
        param,
        "text_size",
    ));
    let int_typed = match t {
        Some(t) => t.kind == ValueKind::Int,
        None => false,
    };
    let v5 = (str_eq(name, "label.new") && (str_eq(param, "text_font_family") || str_eq(
        param,
        "force_overlay",
    ))) || (str_eq(name, "line.new") && str_eq(param, "force_overlay")) || (str_eq(name, "box.new")
        && (str_eq(param, "text") || str_eq(param, "text_size") || str_eq(param, "text_color")
        || str_eq(param, "text_halign") || str_eq(param, "text_valign") || str_eq(param, "text_wrap")
        || str_eq(param, "text_font_family") || str_eq(param, "force_overlay"))) || (str_eq(
        name,
        "table.new",
    ) && str_eq(param, "force_overlay")) || (str_eq(name, "table.cell") && (str_eq(
        param,
        "tooltip",
    ) || str_eq(param, "text_font_family")));
    if v6_formatting || (v6_size_param && int_typed) {
        Some(6)
    } else if version < 5 && v5 {
        Some(5)
    } else {
        None
    }
}

fn push_feature(out: &mut Vec<UnavailableFeature>, feature: String, min_version: u32, span: Span)
    ensures
        features_view(final(out)@) == features_view(old(out)@) + seq![(feature@, min_version, span)],
{
    let ghost before = features_view(out@);
    out.push(UnavailableFeature { feature, min_version, span });
    assert(features_view(out@) =~= before + seq![(feature@, min_version, span)]);
}

/// Everything a drawing call uses that language version `version` lacks, in
/// the order it is reported: the point overloads first, then the arguments.
pub fn legacy_drawing_unavailable_features(
    version: u32,
    signature: &BuiltinSignature,
    args: &[CallArg],
    arg_types: &[Option<PineType>],
) -> (r: Vec<UnavailableFeature>)
    ensures
        features_view(r@) == spec_legacy_drawing_unavailable(version, *signature, args@, arg_types@),
{
    let mut out: Vec<UnavailableFeature> = Vec::new();
    if version >= 6 {
        assert(features_view(out@) =~= Seq::<FeatureView>::empty());
        return out;
    }
    let name = signature.name;
    let label_point = str_eq(name, "label.new") && label_new_uses_point_overload(args, arg_types);
    let line_point = str_eq(name, "line.new") && line_new_uses_point_overload(args, arg_types);
    let box_point = str_eq(name, "box.new") && box_new_uses_point_overload(args, arg_types);
    if version < 5 && args.len() > 0 {
        if label_point {
            push_feature(&mut out, String::from_str("label.new point overload"), 5, args[0].span);
        }
        if line_point {
            push_feature(&mut out, String::from_str("line.new point overload"), 5, args[0].span);
        }
        if box_point {
            push_feature(&mut out, String::from_str("box.new point overload"), 5, args[0].span);
        }
    }
    assert(features_view(out@) =~= spec_point_overloads_unavailable(
        version,
        *signature,
        args@,
        arg_types@,
    ));
    let drawing_params: Option<Vec<DrawingNewParam>> = if str_eq(name, "label.new") {
        Some(
            if label_point {
                label_new_point_params()
            } else {
                label_new_scalar_params()
            },
        )
    } else if str_eq(name, "line.new") {
        Some(
            if line_point {
                line_new_point_params()
            } else {
                line_new_scalar_params()
            },
        )
    } else if str_eq(name, "box.new") {
        Some(
            if box_point {
                box_new_point_params()
            } else {
                box_new_scalar_params()
            },
        )
    } else {
        None
    };
    let ghost head = features_view(out@);
    let ghost f = |i: int| spec_arg_unavailable(version, *signature, args@, arg_types@, i);
    let n = args.len();
    let mut index: usize = 0;
    while index < n
        invariant
            n == args@.len(),
            index <= n,
            version < 6,
            name == signature.name,
            match drawing_params {
                Some(ps) => if name@ == "label.new"@ {
                    params_view(ps@) == spec_label_new_params(args@, arg_types@)
                } else if name@ == "line.new"@ {
                    params_view(ps@) == spec_line_new_params(args@, arg_types@)
                } else {
                    name@ == "box.new"@ && params_view(ps@) == spec_box_new_params(args@, arg_types@)
                },
                None => name@ != "label.new"@ && name@ != "line.new"@ && name@ != "box.new"@,
            },
            f == (|i: int| spec_arg_unavailable(version, *signature, args@, arg_types@, i)),
            features_view(out@) == head + concat_features(index as int, f),
        decreases n - index,
    {
        let ghost before = features_view(out@);
        let bound = match &drawing_params {
            Some(ps) => drawing_param_name(ps.as_slice(), args, index),
            None => signature_param_name(signature, args, index),
        };
        assert(opt_str_view(bound) == spec_bound_param_name(*signature, args@, arg_types@, index as int));
        if let Some(param) = bound {
            let t = if index < arg_types.len() {
                arg_types[index]
            } else {
                None
            };
            if let Some(min_version) = arg_min_version(version, name, param, t) {
                let s = String::from_str(name);
                let s = s.concat(" argument `");
                let s = s.concat(param);
                let s = s.concat("`");
                push_feature(&mut out, s, min_version, args[index].span);
            }
        }
        assert(features_view(out@) =~= before + f(index as int));
        index = index + 1;
    }
    out
}

/// Every feature reported for a step needs a later version than `version`.
pub open spec fn all_need_later(s: Seq<FeatureView>, version: u32) -> bool {
    forall|j: int| 0 <= j < s.len() ==> #[trigger] s[j].1 > version
}

proof fn lemma_concat_features_need_later(
    version: u32,
    signature: BuiltinSignature,
    args: Seq<CallArg>,
    arg_types: Seq<Option<PineType>>,
    n: int,
)
    requires
        version < 6,
    ensures
        all_need_later(
            concat_features(n, |i: int| spec_arg_unavailable(version, signature, args, arg_types, i)),
            version,
        ),
    decreases n,
{
    let f = |i: int| spec_arg_unavailable(version, signature, args, arg_types, i);
    if n > 0 {
        lemma_concat_features_need_later(version, signature, args, arg_types, n - 1);
        let head = concat_features(n - 1, f);
        let tail = f(n - 1);
        assert(all_need_later(tail, version));
        assert(concat_features(n, f) == head + tail);
        assert forall|j: int| 0 <= j < (head + tail).len() implies #[trigger] (head + tail)[j].1
            > version by {
            if j < head.len() {
                assert((head + tail)[j] == head[j]);
            } else {
                assert((head + tail)[j] == tail[j - head.len()]);
            }
        }
    }
}

/// A drawing feature is reported only to a script whose version is below
/// the version that brought the feature.
pub proof fn lemma_reported_features_need_a_later_version(
    version: u32,
    signature: BuiltinSignature,
    args: Seq<CallArg>,
    arg_types: Seq<Option<PineType>>,
)
    ensures
        all_need_later(
            spec_legacy_drawing_unavailable(version, signature, args, arg_types),
            version,
        ),
{
    if version < 6 {
        lemma_concat_features_need_later(version, signature, args, arg_types, args.len() as int);
        let points = spec_point_overloads_unavailable(version, signature, args, arg_types);
        let rest = concat_features(
            args.len() as int,
            |i: int| spec_arg_unavailable(version, signature, args, arg_types, i),
        );
        assert(all_need_later(points, version));
        assert forall|j: int| 0 <= j < (points + rest).len() implies #[trigger] (points + rest)[j].1
            > version by {
            if j < points.len() {
                assert((points + rest)[j] == points[j]);
            } else {
                assert((points + rest)[j] == rest[j - points.len()]);
            }
        }
    }
}

} // verus!
