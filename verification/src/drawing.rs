//! Parameter lists and overload selection of `label.new`, `line.new` and `box.new`.
use vstd::prelude::*;
use vstd::string::*;

use crate::accepts::Accepts;
use crate::signatures::{first_index_of, lemma_first_index_of_bounds, lemma_first_index_prefix};
use crate::strings::{opt_string_view, str_eq};
use crate::syntax::{diags_view, CallArg, DiagView, Diagnostic, Severity, Span};
use crate::types::{PineType, ValueKind};

verus! {

/// One parameter of a drawing constructor overload.
#[derive(Clone, Copy, Debug)]
pub struct DrawingNewParam {
    pub name: &'static str,
    pub accepts: Accepts,
    pub optional: bool,
}

/// A parameter of a `label.new` overload.
pub type LabelNewParam = DrawingNewParam;

/// A parameter of a `line.new` overload.
pub type LineNewParam = DrawingNewParam;

/// A parameter of a `box.new` overload.
pub type BoxNewParam = DrawingNewParam;

/// A parameter as (name, acceptor, optional).
pub type ParamView = (Seq<char>, Accepts, bool);

pub open spec fn params_view(p: Seq<DrawingNewParam>) -> Seq<ParamView> {
    p.map_values(|x: DrawingNewParam| (x.name@, x.accepts, x.optional))
}

pub open spec fn param_names_view(p: Seq<ParamView>) -> Seq<Seq<char>> {
    p.map_values(|x: ParamView| x.0)
}

pub fn label_param(name: &'static str, accepts: Accepts, optional: bool) -> (r: LabelNewParam)
    ensures
        r.name == name,
        r.accepts == accepts,
        r.optional == optional,
{
    DrawingNewParam { name, accepts, optional }
}

pub fn box_param(name: &'static str, accepts: Accepts, optional: bool) -> (r: BoxNewParam)
    ensures
        r.name == name,
        r.accepts == accepts,
        r.optional == optional,
{
    DrawingNewParam { name, accepts, optional }
}

pub open spec fn spec_label_new_scalar_params() -> Seq<ParamView> {
    seq![
        ("x"@, Accepts::IntCompatible, false),
        ("y"@, Accepts::NumericCompatible, false),
        ("text"@, Accepts::StringCompatible, true),
        ("xloc"@, Accepts::ConstString, true),
        ("yloc"@, Accepts::ConstString, true),
        ("color"@, Accepts::ColorCompatible, true),
        ("style"@, Accepts::StringCompatible, true),
        ("textcolor"@, Accepts::ColorCompatible, true),
        ("size"@, Accepts::StringOrIntCompatible, true),
        ("textalign"@, Accepts::ConstString, true),
        ("tooltip"@, Accepts::StringCompatible, true),
        ("text_font_family"@, Accepts::ConstString, true),
        ("force_overlay"@, Accepts::ConstBool, true),
        ("text_formatting"@, Accepts::IntCompatible, true),
    ]
}

/// The parameters of the scalar coordinate overload of `label.new`.
pub fn label_new_scalar_params() -> (r: Vec<DrawingNewParam>)
    ensures
        params_view(r@) == spec_label_new_scalar_params(),
{
    let mut v: Vec<DrawingNewParam> = Vec::new();
    v.push(label_param("x", Accepts::IntCompatible, false));
    v.push(label_param("y", Accepts::NumericCompatible, false));
    v.push(label_param("text", Accepts::StringCompatible, true));
    v.push(label_param("xloc", Accepts::ConstString, true));
    v.push(label_param("yloc", Accepts::ConstString, true));
    v.push(label_param("color", Accepts::ColorCompatible, true));
    v.push(label_param("style", Accepts::StringCompatible, true));
    v.push(label_param("textcolor", Accepts::ColorCompatible, true));
    v.push(label_param("size", Accepts::StringOrIntCompatible, true));
    v.push(label_param("textalign", Accepts::ConstString, true));
    v.push(label_param("tooltip", Accepts::StringCompatible, true));
    v.push(label_param("text_font_family", Accepts::ConstString, true));
    v.push(label_param("force_overlay", Accepts::ConstBool, true));
    v.push(label_param("text_formatting", Accepts::IntCompatible, true));
    assert(params_view(v@) =~= spec_label_new_scalar_params());
    v
}

pub open spec fn spec_label_new_point_params() -> Seq<ParamView> {
    seq![
        ("point"@, Accepts::ChartPointCompatible, false),
        ("text"@, Accepts::StringCompatible, true),
        ("xloc"@, Accepts::ConstString, true),
        ("yloc"@, Accepts::ConstString, true),
        ("color"@, Accepts::ColorCompatible, true),
        ("style"@, Accepts::StringCompatible, true),
        ("textcolor"@, Accepts::ColorCompatible, true),
        ("size"@, Accepts::StringOrIntCompatible, true),
        ("textalign"@, Accepts::ConstString, true),
        ("tooltip"@, Accepts::StringCompatible, true),
        ("text_font_family"@, Accepts::ConstString, true),
        ("force_overlay"@, Accepts::ConstBool, true),
        ("text_formatting"@, Accepts::IntCompatible, true),
    ]
}

/// The parameters of the chart.point overload of `label.new`.
pub fn label_new_point_params() -> (r: Vec<DrawingNewParam>)
    ensures
        params_view(r@) == spec_label_new_point_params(),
{
    let mut v: Vec<DrawingNewParam> = Vec::new();
    v.push(label_param("point", Accepts::ChartPointCompatible, false));
    v.push(label_param("text", Accepts::StringCompatible, true));
    v.push(label_param("xloc", Accepts::ConstString, true));
    v.push(label_param("yloc", Accepts::ConstString, true));
    v.push(label_param("color", Accepts::ColorCompatible, true));
    v.push(label_param("style", Accepts::StringCompatible, true));
    v.push(label_param("textcolor", Accepts::ColorCompatible, true));
    v.push(label_param("size", Accepts::StringOrIntCompatible, true));
    v.push(label_param("textalign", Accepts::ConstString, true));
    v.push(label_param("tooltip", Accepts::StringCompatible, true));
    v.push(label_param("text_font_family", Accepts::ConstString, true));
    v.push(label_param("force_overlay", Accepts::ConstBool, true));
    v.push(label_param("text_formatting", Accepts::IntCompatible, true));
    assert(params_view(v@) =~= spec_label_new_point_params());
    v
}

pub open spec fn spec_line_new_scalar_params() -> Seq<ParamView> {
    seq![
        ("x1"@, Accepts::IntCompatible, false),
        ("y1"@, Accepts::NumericCompatible, false),
        ("x2"@, Accepts::IntCompatible, false),
        ("y2"@, Accepts::NumericCompatible, false),
        ("xloc"@, Accepts::ConstString, true),
        ("extend"@, Accepts::StringCompatible, true),
        ("color"@, Accepts::ColorCompatible, true),
        ("style"@, Accepts::StringCompatible, true),
        ("width"@, Accepts::IntCompatible, true),
        ("force_overlay"@, Accepts::ConstBool, true),
    ]
}

/// The parameters of the scalar coordinate overload of `line.new`.
pub fn line_new_scalar_params() -> (r: Vec<DrawingNewParam>)
    ensures
        params_view(r@) == spec_line_new_scalar_params(),
{
    let mut v: Vec<DrawingNewParam> = Vec::new();
    v.push(DrawingNewParam { name: "x1", accepts: Accepts::IntCompatible, optional: false });
    v.push(DrawingNewParam { name: "y1", accepts: Accepts::NumericCompatible, optional: false });
    v.push(DrawingNewParam { name: "x2", accepts: Accepts::IntCompatible, optional: false });
    v.push(DrawingNewParam { name: "y2", accepts: Accepts::NumericCompatible, optional: false });
    v.push(DrawingNewParam { name: "xloc", accepts: Accepts::ConstString, optional: true });
    v.push(DrawingNewParam { name: "extend", accepts: Accepts::StringCompatible, optional: true });
    v.push(DrawingNewParam { name: "color", accepts: Accepts::ColorCompatible, optional: true });
    v.push(DrawingNewParam { name: "style", accepts: Accepts::StringCompatible, optional: true });
    v.push(DrawingNewParam { name: "width", accepts: Accepts::IntCompatible, optional: true });
    v.push(DrawingNewParam { name: "force_overlay", accepts: Accepts::ConstBool, optional: true });
    assert(params_view(v@) =~= spec_line_new_scalar_params());
    v
}

pub open spec fn spec_line_new_point_params() -> Seq<ParamView> {
    seq![
        ("first_point"@, Accepts::ChartPointCompatible, false),
        ("second_point"@, Accepts::ChartPointCompatible, false),
        ("xloc"@, Accepts::ConstString, true),
        ("extend"@, Accepts::StringCompatible, true),
        ("color"@, Accepts::ColorCompatible, true),
        ("style"@, Accepts::StringCompatible, true),
        ("width"@, Accepts::IntCompatible, true),
        ("force_overlay"@, Accepts::ConstBool, true),
    ]
}

/// The parameters of the chart.point overload of `line.new`.
pub fn line_new_point_params() -> (r: Vec<DrawingNewParam>)
    ensures
        params_view(r@) == spec_line_new_point_params(),
{
    let mut v: Vec<DrawingNewParam> = Vec::new();
    v.push(DrawingNewParam { name: "first_point", accepts: Accepts::ChartPointCompatible, optional: false });
    v.push(DrawingNewParam { name: "second_point", accepts: Accepts::ChartPointCompatible, optional: false });
    v.push(DrawingNewParam { name: "xloc", accepts: Accepts::ConstString, optional: true });
    v.push(DrawingNewParam { name: "extend", accepts: Accepts::StringCompatible, optional: true });
    v.push(DrawingNewParam { name: "color", accepts: Accepts::ColorCompatible, optional: true });
    v.push(DrawingNewParam { name: "style", accepts: Accepts::StringCompatible, optional: true });
    v.push(DrawingNewParam { name: "width", accepts: Accepts::IntCompatible, optional: true });
    v.push(DrawingNewParam { name: "force_overlay", accepts: Accepts::ConstBool, optional: true });
    assert(params_view(v@) =~= spec_line_new_point_params());
    v
}

pub open spec fn spec_box_new_scalar_params() -> Seq<ParamView> {
    seq![
        ("left"@, Accepts::IntCompatible, false),
        ("top"@, Accepts::NumericCompatible, false),
        ("right"@, Accepts::IntCompatible, false),
        ("bottom"@, Accepts::NumericCompatible, false),
        ("border_color"@, Accepts::ColorCompatible, true),
        ("border_width"@, Accepts::IntCompatible, true),
        ("border_style"@, Accepts::ConstString, true),
        ("extend"@, Accepts::ConstString, true),
        ("xloc"@, Accepts::ConstString, true),
        ("bgcolor"@, Accepts::ColorCompatible, true),
        ("text"@, Accepts::StringCompatible, true),
        ("text_size"@, Accepts::StringOrIntCompatible, true),
        ("text_color"@, Accepts::ColorCompatible, true),
        ("text_halign"@, Accepts::ConstString, true),
        ("text_valign"@, Accepts::ConstString, true),
        ("text_wrap"@, Accepts::ConstString, true),
        ("text_font_family"@, Accepts::ConstString, true),
        ("force_overlay"@, Accepts::ConstBool, true),
        ("text_formatting"@, Accepts::IntCompatible, true),
    ]
}

/// The parameters of the scalar coordinate overload of `box.new`.
pub fn box_new_scalar_params() -> (r: Vec<DrawingNewParam>)
    ensures
        params_view(r@) == spec_box_new_scalar_params(),
{
    let mut v: Vec<DrawingNewParam> = Vec::new();
    v.push(box_param("left", Accepts::IntCompatible, false));
    v.push(box_param("top", Accepts::NumericCompatible, false));
    v.push(box_param("right", Accepts::IntCompatible, false));
    v.push(box_param("bottom", Accepts::NumericCompatible, false));
    v.push(box_param("border_color", Accepts::ColorCompatible, true));
    v.push(box_param("border_width", Accepts::IntCompatible, true));
    v.push(box_param("border_style", Accepts::ConstString, true));
    v.push(box_param("extend", Accepts::ConstString, true));
    v.push(box_param("xloc", Accepts::ConstString, true));
    v.push(box_param("bgcolor", Accepts::ColorCompatible, true));
    v.push(box_param("text", Accepts::StringCompatible, true));
    v.push(box_param("text_size", Accepts::StringOrIntCompatible, true));
    v.push(box_param("text_color", Accepts::ColorCompatible, true));
    v.push(box_param("text_halign", Accepts::ConstString, true));
    v.push(box_param("text_valign", Accepts::ConstString, true));
    v.push(box_param("text_wrap", Accepts::ConstString, true));
    v.push(box_param("text_font_family", Accepts::ConstString, true));
    v.push(box_param("force_overlay", Accepts::ConstBool, true));
    v.push(box_param("text_formatting", Accepts::IntCompatible, true));
    assert(params_view(v@) =~= spec_box_new_scalar_params());
    v
}

pub open spec fn spec_box_new_point_params() -> Seq<ParamView> {
    seq![
        ("top_left"@, Accepts::ChartPointCompatible, false),
        ("bottom_right"@, Accepts::ChartPointCompatible, false),
        ("border_color"@, Accepts::ColorCompatible, true),
        ("border_width"@, Accepts::IntCompatible, true),
        ("border_style"@, Accepts::ConstString, true),
        ("extend"@, Accepts::ConstString, true),
        ("xloc"@, Accepts::ConstString, true),
        ("bgcolor"@, Accepts::ColorCompatible, true),
        ("text"@, Accepts::StringCompatible, true),
        ("text_size"@, Accepts::StringOrIntCompatible, true),
        ("text_color"@, Accepts::ColorCompatible, true),
        ("text_halign"@, Accepts::ConstString, true),
        ("text_valign"@, Accepts::ConstString, true),
        ("text_wrap"@, Accepts::ConstString, true),
        ("text_font_family"@, Accepts::ConstString, true),
        ("force_overlay"@, Accepts::ConstBool, true),
        ("text_formatting"@, Accepts::IntCompatible, true),
    ]
}

/// The parameters of the chart.point overload of `box.new`.
pub fn box_new_point_params() -> (r: Vec<DrawingNewParam>)
    ensures
        params_view(r@) == spec_box_new_point_params(),
{
    let mut v: Vec<DrawingNewParam> = Vec::new();
    v.push(box_param("top_left", Accepts::ChartPointCompatible, false));
    v.push(box_param("bottom_right", Accepts::ChartPointCompatible, false));
    v.push(box_param("border_color", Accepts::ColorCompatible, true));
    v.push(box_param("border_width", Accepts::IntCompatible, true));
    v.push(box_param("border_style", Accepts::ConstString, true));
    v.push(box_param("extend", Accepts::ConstString, true));
    v.push(box_param("xloc", Accepts::ConstString, true));
    v.push(box_param("bgcolor", Accepts::ColorCompatible, true));
    v.push(box_param("text", Accepts::StringCompatible, true));
    v.push(box_param("text_size", Accepts::StringOrIntCompatible, true));
    v.push(box_param("text_color", Accepts::ColorCompatible, true));
    v.push(box_param("text_halign", Accepts::ConstString, true));
    v.push(box_param("text_valign", Accepts::ConstString, true));
    v.push(box_param("text_wrap", Accepts::ConstString, true));
    v.push(box_param("text_font_family", Accepts::ConstString, true));
    v.push(box_param("force_overlay", Accepts::ConstBool, true));
    v.push(box_param("text_formatting", Accepts::IntCompatible, true));
    assert(params_view(v@) =~= spec_box_new_point_params());
    v
}

pub open spec fn spec_line_xlocs() -> Seq<Seq<char>> {
    seq!["xloc.bar_index"@, "xloc.bar_time"@]
}

/// The values a `line_xlocs` option accepts.
pub fn line_xlocs() -> (r: Vec<&'static str>)
    ensures
        crate::strings::strs_view(r@) == spec_line_xlocs(),
{
    let mut v: Vec<&'static str> = Vec::new();
    v.push("xloc.bar_index");
    v.push("xloc.bar_time");
    assert(crate::strings::strs_view(v@) =~= spec_line_xlocs());
    v
}

pub open spec fn spec_line_extends() -> Seq<Seq<char>> {
    seq!["extend.none"@, "extend.right"@, "extend.left"@, "extend.both"@]
}

/// The values a `line_extends` option accepts.
pub fn line_extends() -> (r: Vec<&'static str>)
    ensures
        crate::strings::strs_view(r@) == spec_line_extends(),
{
    let mut v: Vec<&'static str> = Vec::new();
    v.push("extend.none");
    v.push("extend.right");
    v.push("extend.left");
    v.push("extend.both");
    assert(crate::strings::strs_view(v@) =~= spec_line_extends());
    v
}

pub open spec fn spec_box_xlocs() -> Seq<Seq<char>> {
    seq!["xloc.bar_index"@, "xloc.bar_time"@]
}

/// The values a `box_xlocs` option accepts.
pub fn box_xlocs() -> (r: Vec<&'static str>)
    ensures
        crate::strings::strs_view(r@) == spec_box_xlocs(),
{
    let mut v: Vec<&'static str> = Vec::new();
    v.push("xloc.bar_index");
    v.push("xloc.bar_time");
    assert(crate::strings::strs_view(v@) =~= spec_box_xlocs());
    v
}

pub open spec fn spec_box_border_styles() -> Seq<Seq<char>> {
    seq!["line.style_solid"@, "line.style_dotted"@, "line.style_dashed"@]
}

/// The values a `box_border_styles` option accepts.
pub fn box_border_styles() -> (r: Vec<&'static str>)
    ensures
        crate::strings::strs_view(r@) == spec_box_border_styles(),
{
    let mut v: Vec<&'static str> = Vec::new();
    v.push("line.style_solid");
    v.push("line.style_dotted");
    v.push("line.style_dashed");
    assert(crate::strings::strs_view(v@) =~= spec_box_border_styles());
    v
}

pub open spec fn spec_text_haligns() -> Seq<Seq<char>> {
    seq!["text.align_left"@, "text.align_center"@, "text.align_right"@]
}

/// The values a `text_haligns` option accepts.
pub fn text_haligns() -> (r: Vec<&'static str>)
    ensures
        crate::strings::strs_view(r@) == spec_text_haligns(),
{
    let mut v: Vec<&'static str> = Vec::new();
    v.push("text.align_left");
    v.push("text.align_center");
    v.push("text.align_right");
    assert(crate::strings::strs_view(v@) =~= spec_text_haligns());
    v
}

pub open spec fn spec_text_valigns() -> Seq<Seq<char>> {
    seq!["text.align_top"@, "text.align_center"@, "text.align_bottom"@]
}

/// The values a `text_valigns` option accepts.
pub fn text_valigns() -> (r: Vec<&'static str>)
    ensures
        crate::strings::strs_view(r@) == spec_text_valigns(),
{
    let mut v: Vec<&'static str> = Vec::new();
    v.push("text.align_top");
    v.push("text.align_center");
    v.push("text.align_bottom");
    assert(crate::strings::strs_view(v@) =~= spec_text_valigns());
    v
}

pub open spec fn spec_text_wraps() -> Seq<Seq<char>> {
    seq!["text.wrap_none"@, "text.wrap_auto"@]
}

/// The values a `text_wraps` option accepts.
pub fn text_wraps() -> (r: Vec<&'static str>)
    ensures
        crate::strings::strs_view(r@) == spec_text_wraps(),
{
    let mut v: Vec<&'static str> = Vec::new();
    v.push("text.wrap_none");
    v.push("text.wrap_auto");
    assert(crate::strings::strs_view(v@) =~= spec_text_wraps());
    v
}

pub open spec fn spec_text_font_families() -> Seq<Seq<char>> {
    seq!["font.family_default"@, "font.family_monospace"@]
}

/// The values a `text_font_families` option accepts.
pub fn text_font_families() -> (r: Vec<&'static str>)
    ensures
        crate::strings::strs_view(r@) == spec_text_font_families(),
{
    let mut v: Vec<&'static str> = Vec::new();
    v.push("font.family_default");
    v.push("font.family_monospace");
    assert(crate::strings::strs_view(v@) =~= spec_text_font_families());
    v
}

pub open spec fn spec_text_sizes() -> Seq<Seq<char>> {
    seq!["size.auto"@, "size.tiny"@, "size.small"@, "size.normal"@, "size.large"@, "size.huge"@]
}

/// The values a `text_sizes` option accepts.
pub fn text_sizes() -> (r: Vec<&'static str>)
    ensures
        crate::strings::strs_view(r@) == spec_text_sizes(),
{
    let mut v: Vec<&'static str> = Vec::new();
    v.push("size.auto");
    v.push("size.tiny");
    v.push("size.small");
    v.push("size.normal");
    v.push("size.large");
    v.push("size.huge");
    assert(crate::strings::strs_view(v@) =~= spec_text_sizes());
    v
}

pub open spec fn spec_line_styles() -> Seq<Seq<char>> {
    seq!["line.style_solid"@, "line.style_dotted"@, "line.style_dashed"@, "line.style_arrow_left"@, "line.style_arrow_right"@, "line.style_arrow_both"@]
}

/// The values a `line_styles` option accepts.
pub fn line_styles() -> (r: Vec<&'static str>)
    ensures
        crate::strings::strs_view(r@) == spec_line_styles(),
{
    let mut v: Vec<&'static str> = Vec::new();
    v.push("line.style_solid");
    v.push("line.style_dotted");
    v.push("line.style_dashed");
    v.push("line.style_arrow_left");
    v.push("line.style_arrow_right");
    v.push("line.style_arrow_both");
    assert(crate::strings::strs_view(v@) =~= spec_line_styles());
    v
}

pub open spec fn spec_label_xlocs() -> Seq<Seq<char>> {
    seq!["xloc.bar_index"@, "xloc.bar_time"@]
}

/// The values a `label_xlocs` option accepts.
pub fn label_xlocs() -> (r: Vec<&'static str>)
    ensures
        crate::strings::strs_view(r@) == spec_label_xlocs(),
{
    let mut v: Vec<&'static str> = Vec::new();
    v.push("xloc.bar_index");
    v.push("xloc.bar_time");
    assert(crate::strings::strs_view(v@) =~= spec_label_xlocs());
    v
}

pub open spec fn spec_label_ylocs() -> Seq<Seq<char>> {
    seq!["yloc.price"@, "yloc.abovebar"@, "yloc.belowbar"@]
}

/// The values a `label_ylocs` option accepts.
pub fn label_ylocs() -> (r: Vec<&'static str>)
    ensures
        crate::strings::strs_view(r@) == spec_label_ylocs(),
{
    let mut v: Vec<&'static str> = Vec::new();
    v.push("yloc.price");
    v.push("yloc.abovebar");
    v.push("yloc.belowbar");
    assert(crate::strings::strs_view(v@) =~= spec_label_ylocs());
    v
}

pub open spec fn spec_label_styles() -> Seq<Seq<char>> {
    seq!["label.style_label_down"@, "label.style_label_up"@, "label.style_label_left"@, "label.style_label_right"@, "label.style_label_lower_left"@, "label.style_label_lower_right"@, "label.style_label_upper_left"@, "label.style_label_upper_right"@, "label.style_label_center"@, "label.style_square"@, "label.style_diamond"@, "label.style_circle"@, "label.style_flag"@, "label.style_arrowup"@, "label.style_arrowdown"@, "label.style_cross"@, "label.style_xcross"@, "label.style_none"@]
}

/// The values a `label_styles` option accepts.
pub fn label_styles() -> (r: Vec<&'static str>)
    ensures
        crate::strings::strs_view(r@) == spec_label_styles(),
{
    let mut v: Vec<&'static str> = Vec::new();
    v.push("label.style_label_down");
    v.push("label.style_label_up");
    v.push("label.style_label_left");
    v.push("label.style_label_right");
    v.push("label.style_label_lower_left");
    v.push("label.style_label_lower_right");
    v.push("label.style_label_upper_left");
    v.push("label.style_label_upper_right");
    v.push("label.style_label_center");
    v.push("label.style_square");
    v.push("label.style_diamond");
    v.push("label.style_circle");
    v.push("label.style_flag");
    v.push("label.style_arrowup");
    v.push("label.style_arrowdown");
    v.push("label.style_cross");
    v.push("label.style_xcross");
    v.push("label.style_none");
    assert(crate::strings::strs_view(v@) =~= spec_label_styles());
    v
}

/// Whether argument `i` names a point parameter of `label.new`.
pub open spec fn names_label_point_param(args: Seq<CallArg>, i: int) -> bool {
    opt_string_view(args[i].name) == Some("point"@)
}

/// The chart.point overload of `label.new` is chosen when an argument names
/// one of its point parameters or the first argument is a chart.point.
pub open spec fn spec_label_new_uses_point_overload(args: Seq<CallArg>, arg_types: Seq<Option<PineType>>) -> bool {
    (exists|i: int| 0 <= i < args.len() && #[trigger] names_label_point_param(args, i)) || (arg_types.len() > 0
        && arg_types[0] is Some && arg_types[0].unwrap().kind == ValueKind::ChartPoint)
}

pub fn label_new_uses_point_overload(args: &[CallArg], arg_types: &[Option<PineType>]) -> (r: bool)
    ensures
        r == spec_label_new_uses_point_overload(args@, arg_types@),
{
    let n = args.len();
    let mut i: usize = 0;
    while i < n
        invariant
            n == args@.len(),
            i <= n,
            forall|j: int| 0 <= j < i ==> !names_label_point_param(args@, j),
        decreases n - i,
    {
        let named = match &args[i].name {
            Some(arg_name) => str_eq(arg_name.as_str(), "point"),
            None => false,
        };
        if named {
            assert(names_label_point_param(args@, i as int));
            return true;
        }
        i = i + 1;
    }
    if arg_types.len() > 0 {
        match arg_types[0] {
            Some(t) => t.kind == ValueKind::ChartPoint,
            None => false,
        }
    } else {
        false
    }
}

/// Binds an argument to a `label.new` parameter: by name (reporting an
/// unknown name), or by position.
pub fn label_new_param<'a>(
    params: &'a [DrawingNewParam],
    index: usize,
    arg: &CallArg,
    diagnostics: &mut Vec<Diagnostic>,
) -> (r: Option<&'a DrawingNewParam>)
    ensures
        match spec_bind_drawing_param(params_view(params@), index as int, opt_string_view(arg.name)) {
            Some(k) => r == Some(&params@[k]) && 0 <= k < params@.len(),
            None => r is None,
        },
        diags_view(final(diagnostics)@) == diags_view(old(diagnostics)@) + spec_bind_drawing_param_diags(
            "label.new"@,
            params_view(params@),
            opt_string_view(arg.name),
            arg.span,
        ),
{
    drawing_new_param("label.new", params, index, arg, diagnostics)
}

/// Whether argument `i` names a point parameter of `line.new`.
pub open spec fn names_line_point_param(args: Seq<CallArg>, i: int) -> bool {
    opt_string_view(args[i].name) == Some("first_point"@) || opt_string_view(args[i].name) == Some("second_point"@)
}

/// The chart.point overload of `line.new` is chosen when an argument names
/// one of its point parameters or the first argument is a chart.point.
pub open spec fn spec_line_new_uses_point_overload(args: Seq<CallArg>, arg_types: Seq<Option<PineType>>) -> bool {
    (exists|i: int| 0 <= i < args.len() && #[trigger] names_line_point_param(args, i)) || (arg_types.len() > 0
        && arg_types[0] is Some && arg_types[0].unwrap().kind == ValueKind::ChartPoint)
}

pub fn line_new_uses_point_overload(args: &[CallArg], arg_types: &[Option<PineType>]) -> (r: bool)
    ensures
        r == spec_line_new_uses_point_overload(args@, arg_types@),
{
    let n = args.len();
    let mut i: usize = 0;
    while i < n
        invariant
            n == args@.len(),
            i <= n,
            forall|j: int| 0 <= j < i ==> !names_line_point_param(args@, j),
        decreases n - i,
    {
        let named = match &args[i].name {
            Some(arg_name) => str_eq(arg_name.as_str(), "first_point") || str_eq(arg_name.as_str(), "second_point"),
            None => false,
        };
        if named {
            assert(names_line_point_param(args@, i as int));
            return true;
        }
        i = i + 1;
    }
    if arg_types.len() > 0 {
        match arg_types[0] {
            Some(t) => t.kind == ValueKind::ChartPoint,
            None => false,
        }
    } else {
        false
    }
}

/// Binds an argument to a `line.new` parameter: by name (reporting an
/// unknown name), or by position.
pub fn line_new_param<'a>(
    params: &'a [DrawingNewParam],
    index: usize,
    arg: &CallArg,
    diagnostics: &mut Vec<Diagnostic>,
) -> (r: Option<&'a DrawingNewParam>)
    ensures
        match spec_bind_drawing_param(params_view(params@), index as int, opt_string_view(arg.name)) {
            Some(k) => r == Some(&params@[k]) && 0 <= k < params@.len(),
            None => r is None,
        },
        diags_view(final(diagnostics)@) == diags_view(old(diagnostics)@) + spec_bind_drawing_param_diags(
            "line.new"@,
            params_view(params@),
            opt_string_view(arg.name),
            arg.span,
        ),
{
    drawing_new_param("line.new", params, index, arg, diagnostics)
}

/// Whether argument `i` names a point parameter of `box.new`.
pub open spec fn names_box_point_param(args: Seq<CallArg>, i: int) -> bool {
    opt_string_view(args[i].name) == Some("top_left"@) || opt_string_view(args[i].name) == Some("bottom_right"@)
}

/// The chart.point overload of `box.new` is chosen when an argument names
/// one of its point parameters or the first argument is a chart.point.
pub open spec fn spec_box_new_uses_point_overload(args: Seq<CallArg>, arg_types: Seq<Option<PineType>>) -> bool {
    (exists|i: int| 0 <= i < args.len() && #[trigger] names_box_point_param(args, i)) || (arg_types.len() > 0
        && arg_types[0] is Some && arg_types[0].unwrap().kind == ValueKind::ChartPoint)
}

pub fn box_new_uses_point_overload(args: &[CallArg], arg_types: &[Option<PineType>]) -> (r: bool)
    ensures
        r == spec_box_new_uses_point_overload(args@, arg_types@),
{
    let n = args.len();
    let mut i: usize = 0;
    while i < n
        invariant
            n == args@.len(),
            i <= n,
            forall|j: int| 0 <= j < i ==> !names_box_point_param(args@, j),
        decreases n - i,
    {
        let named = match &args[i].name {
            Some(arg_name) => str_eq(arg_name.as_str(), "top_left") || str_eq(arg_name.as_str(), "bottom_right"),
            None => false,
        };
        if named {
            assert(names_box_point_param(args@, i as int));
            return true;
        }
        i = i + 1;
    }
    if arg_types.len() > 0 {
        match arg_types[0] {
            Some(t) => t.kind == ValueKind::ChartPoint,
            None => false,
        }
    } else {
        false
    }
}

/// Binds an argument to a `box.new` parameter: by name (reporting an
/// unknown name), or by position.
pub fn box_new_param<'a>(
    params: &'a [DrawingNewParam],
    index: usize,
    arg: &CallArg,
    diagnostics: &mut Vec<Diagnostic>,
) -> (r: Option<&'a DrawingNewParam>)
    ensures
        match spec_bind_drawing_param(params_view(params@), index as int, opt_string_view(arg.name)) {
            Some(k) => r == Some(&params@[k]) && 0 <= k < params@.len(),
            None => r is None,
        },
        diags_view(final(diagnostics)@) == diags_view(old(diagnostics)@) + spec_bind_drawing_param_diags(
            "box.new"@,
            params_view(params@),
            opt_string_view(arg.name),
            arg.span,
        ),
{
    drawing_new_param("box.new", params, index, arg, diagnostics)
}

/// The parameter index an argument binds to: the first parameter with its
/// name, or the parameter at its position.
pub open spec fn spec_bind_drawing_param(params: Seq<ParamView>, index: int, name: Option<Seq<char>>) -> Option<int> {
    match name {
        Some(n) => first_index_of(param_names_view(params), n),
        None => if 0 <= index < params.len() {
            Some(index)
        } else {
            None
        },
    }
}

pub open spec fn unknown_argument_diag(call: Seq<char>, name: Seq<char>, span: Span) -> DiagView {
    DiagView {
        severity: Severity::Error,
        code: "E_CALL_ARG_NAME"@,
        message: "`"@ + call + "` has no argument named `"@ + name + "`"@,
        span,
    }
}

/// The diagnostic a binding reports: one for a name no parameter has.
pub open spec fn spec_bind_drawing_param_diags(call: Seq<char>, params: Seq<ParamView>, name: Option<Seq<char>>, span: Span) -> Seq<DiagView> {
    match name {
        Some(n) => if first_index_of(param_names_view(params), n) is None {
            seq![unknown_argument_diag(call, n, span)]
        } else {
            Seq::empty()
        },
        None => Seq::empty(),
    }
}

pub fn drawing_new_param<'a>(
    call: &str,
    params: &'a [DrawingNewParam],
    index: usize,
    arg: &CallArg,
    diagnostics: &mut Vec<Diagnostic>,
) -> (r: Option<&'a DrawingNewParam>)
    ensures
        match spec_bind_drawing_param(params_view(params@), index as int, opt_string_view(arg.name)) {
            Some(k) => r == Some(&params@[k]) && 0 <= k < params@.len(),
            None => r is None,
        },
        diags_view(final(diagnostics)@) == diags_view(old(diagnostics)@) + spec_bind_drawing_param_diags(
            call@,
            params_view(params@),
            opt_string_view(arg.name),
            arg.span,
        ),
{
    let ghost names = param_names_view(params_view(params@));
    proof {
        if arg.name is Some {
            lemma_first_index_of_bounds(names, arg.name.unwrap()@);
        }
    }
    if let Some(name) = &arg.name {
        let n = params.len();
        let mut i: usize = 0;
        while i < n
            invariant
                n == params@.len(),
                names == param_names_view(params_view(params@)),
                i <= n,
                first_index_of(names.take(i as int), name@) is None,
                diagnostics@ == old(diagnostics)@,
                arg.name == Some(*name),
            decreases n - i,
        {
            assert(names.take((i + 1) as int).drop_last() =~= names.take(i as int));
            if str_eq(params[i].name, name.as_str()) {
                assert(names.take((i + 1) as int).last() == name@);
                proof {
                    lemma_first_index_prefix(names, name@, i as int);
                }
                assert(diags_view(diagnostics@) =~= diags_view(old(diagnostics)@) + Seq::<DiagView>::empty());
                return Some(&params[i]);
            }
            assert(names.take((i + 1) as int).last() == params@[i as int].name@);
            i = i + 1;
        }
        assert(names.take(n as int) =~= names);
        let s = String::from_str("`");
        let s = s.concat(call);
        let s = s.concat("` has no argument named `");
        let s = s.concat(name.as_str());
        let s = s.concat("`");
        diagnostics.push(Diagnostic::error("E_CALL_ARG_NAME", s, arg.span));
        assert(diags_view(diagnostics@) =~= diags_view(old(diagnostics)@) + seq![unknown_argument_diag(call@, name@, arg.span)]);
        None
    } else {
        assert(diags_view(diagnostics@) =~= diags_view(old(diagnostics)@) + Seq::<DiagView>::empty());
        if index < params.len() {
            Some(&params[index])
        } else {
            None
        }
    }
}

} // verus!
