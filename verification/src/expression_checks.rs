//! Checks on expressions the analysis types: conditions, loop ranges and
//! steps, and history offsets.
use vstd::prelude::*;
use vstd::string::*;

use crate::compatibility::{
    unsupported, unsupported_diag, unsupported_view, LegacyEmulation, UnsupportedFeature,
    UnsupportedView,
};
use crate::strings::{decimal, spec_decimal};
use crate::syntax::{diags_view, error_view, push_error, BinaryOp, DiagView, Diagnostic, Span};
use crate::types::{
    common_kind, spec_common_kind, spec_strongest_qualifier, spec_type_debug_label,
    spec_value_kind_debug_name, strongest_qualifier, type_debug_label, value_kind_debug_name,
    PineType, ValueKind,
};

verus! {

/// Reports a condition that is not a bool.
pub fn expect_bool(pine_type: PineType, span: Span, diagnostics: &mut Vec<Diagnostic>)
    ensures
        diags_view(final(diagnostics)@) == diags_view(old(diagnostics)@) + if pine_type.kind
            != ValueKind::Bool {
            seq![
                error_view(
                    "E_CONDITION_TYPE"@,
                    "condition must be bool, got "@ + spec_type_debug_label(pine_type),
                    span,
                ),
            ]
        } else {
            Seq::<DiagView>::empty()
        },
{
    if pine_type.kind != ValueKind::Bool {
        let s = String::from_str("condition must be bool, got ");
        let s = s.concat(type_debug_label(pine_type).as_str());
        push_error(diagnostics, "E_CONDITION_TYPE", s, span);
    } else {
        assert(diags_view(diagnostics@) =~= diags_view(diagnostics@) + Seq::<DiagView>::empty());
    }
}

/// Reports a for-loop bound that is not an int.
pub fn expect_int(pine_type: PineType, span: Span, diagnostics: &mut Vec<Diagnostic>)
    ensures
        diags_view(final(diagnostics)@) == diags_view(old(diagnostics)@) + if pine_type.kind
            != ValueKind::Int {
            seq![
                error_view(
                    "E_LOOP_RANGE_TYPE"@,
                    "for loop range must be int, got "@ + spec_type_debug_label(pine_type),
                    span,
                ),
            ]
        } else {
            Seq::<DiagView>::empty()
        },
{
    if pine_type.kind != ValueKind::Int {
        let s = String::from_str("for loop range must be int, got ");
        let s = s.concat(type_debug_label(pine_type).as_str());
        push_error(diagnostics, "E_LOOP_RANGE_TYPE", s, span);
    } else {
        assert(diags_view(diagnostics@) =~= diags_view(diagnostics@) + Seq::<DiagView>::empty());
    }
}

/// Reports a for-loop step whose literal value is zero.
pub fn expect_non_zero_loop_step(step_span: Span, literal: Option<i64>, diagnostics: &mut Vec<Diagnostic>)
    ensures
        diags_view(final(diagnostics)@) == diags_view(old(diagnostics)@) + if literal == Some(
            0i64,
        ) {
            seq![error_view("E_LOOP_STEP"@, "for loop step cannot be zero"@, step_span)]
        } else {
            Seq::<DiagView>::empty()
        },
{
    if literal == Some(0i64) {
        push_error(diagnostics, "E_LOOP_STEP", String::from_str("for loop step cannot be zero"), step_span);
    } else {
        assert(diags_view(diagnostics@) =~= diags_view(diagnostics@) + Seq::<DiagView>::empty());
    }
}

pub open spec fn negative_offset_reason() -> Seq<char> {
    "history offsets must be non-negative in the current supported subset"@
}

pub open spec fn dynamic_offset_reason() -> Seq<char> {
    "dynamic history offsets require an integer expression in the current supported subset"@
}

/// What a history offset is refused for: a negative literal, or a
/// non-literal offset that is not typed int.
pub open spec fn spec_history_offset_refusals(
    span: Span,
    literal: Option<i64>,
    offset_type: Option<PineType>,
) -> Seq<UnsupportedView> {
    match literal {
        Some(v) => if v < 0 {
            seq![("negative_history_offset"@, negative_offset_reason(), span)]
        } else {
            Seq::empty()
        },
        None => match offset_type {
            Some(t) => if t.kind == ValueKind::Int {
                Seq::empty()
            } else {
                seq![("dynamic_history_offset"@, dynamic_offset_reason(), span)]
            },
            None => seq![("dynamic_history_offset"@, dynamic_offset_reason(), span)],
        },
    }
}

/// Checks the offset of a history reference `x[offset]`, given its literal
/// value (if it is one) and its type (if known).
pub fn validate_history_offset(
    offset_span: Span,
    literal: Option<i64>,
    offset_type: Option<PineType>,
    report: &mut Vec<UnsupportedFeature>,
    diagnostics: &mut Vec<Diagnostic>,
)
    ensures
        unsupported_view(final(report)@) == unsupported_view(old(report)@)
            + spec_history_offset_refusals(offset_span, literal, offset_type),
        diags_view(final(diagnostics)@) == diags_view(old(diagnostics)@)
            + spec_history_offset_refusals(offset_span, literal, offset_type).map_values(
            |u: UnsupportedView| unsupported_diag(u.0, u.1, u.2),
        ),
{
    let ghost r0 = unsupported_view(report@);
    let ghost d0 = diags_view(diagnostics@);
    let ghost refusals = spec_history_offset_refusals(offset_span, literal, offset_type);
    let dynamic = match literal {
        Some(v) => {
            if v < 0 {
                unsupported(
                    "negative_history_offset",
                    "history offsets must be non-negative in the current supported subset",
                    offset_span,
                    report,
                    diagnostics,
                );
            }
            false
        },
        None => match offset_type {
            Some(t) => t.kind != ValueKind::Int,
            None => true,
        },
    };
    if dynamic {
        unsupported(
            "dynamic_history_offset",
            "dynamic history offsets require an integer expression in the current supported subset",
            offset_span,
            report,
            diagnostics,
        );
    }
    assert(unsupported_view(report@) =~= r0 + refusals);
    assert(diags_view(diagnostics@) =~= d0 + refusals.map_values(
        |u: UnsupportedView| unsupported_diag(u.0, u.1, u.2),
    ));
}

/// The name a binary operator has in type errors.
pub open spec fn spec_binary_op_debug_name(op: BinaryOp) -> Seq<char> {
    match op {
        BinaryOp::Add => "Add"@,
        BinaryOp::Sub => "Sub"@,
        BinaryOp::Mul => "Mul"@,
        BinaryOp::Div => "Div"@,
        BinaryOp::Mod => "Mod"@,
        BinaryOp::Eq => "Eq"@,
        BinaryOp::NotEq => "NotEq"@,
        BinaryOp::Lt => "Lt"@,
        BinaryOp::Lte => "Lte"@,
        BinaryOp::Gt => "Gt"@,
        BinaryOp::Gte => "Gte"@,
        BinaryOp::And => "And"@,
        BinaryOp::Or => "Or"@,
    }
}

pub fn binary_op_debug_name(op: BinaryOp) -> (r: &'static str)
    ensures
        r@ == spec_binary_op_debug_name(op),
{
    match op {
        BinaryOp::Add => "Add",
        BinaryOp::Sub => "Sub",
        BinaryOp::Mul => "Mul",
        BinaryOp::Div => "Div",
        BinaryOp::Mod => "Mod",
        BinaryOp::Eq => "Eq",
        BinaryOp::NotEq => "NotEq",
        BinaryOp::Lt => "Lt",
        BinaryOp::Lte => "Lte",
        BinaryOp::Gt => "Gt",
        BinaryOp::Gte => "Gte",
        BinaryOp::And => "And",
        BinaryOp::Or => "Or",
    }
}

pub open spec fn operator_error_view(op: BinaryOp, left: PineType, right: PineType, span: Span) -> DiagView {
    error_view(
        "E_OPERATOR_TYPE"@,
        "operator "@ + spec_binary_op_debug_name(op) + " does not accept "@ + spec_type_debug_label(
            left,
        ) + " and "@ + spec_type_debug_label(right),
        span,
    )
}

/// Reports that operator `op` does not accept operands of these types.
pub fn operator_error(
    op: BinaryOp,
    left_type: PineType,
    right_type: PineType,
    span: Span,
    diagnostics: &mut Vec<Diagnostic>,
)
    ensures
        diags_view(final(diagnostics)@) == diags_view(old(diagnostics)@) + seq![
            operator_error_view(op, left_type, right_type, span),
        ],
{
    let s = String::from_str("operator ");
    let s = s.concat(binary_op_debug_name(op));
    let s = s.concat(" does not accept ");
    let s = s.concat(type_debug_label(left_type).as_str());
    let s = s.concat(" and ");
    let s = s.concat(type_debug_label(right_type).as_str());
    push_error(diagnostics, "E_OPERATOR_TYPE", s, span);
}

/// The type of a conditional whose branches have these types: the common
/// kind of the branches, with the most dynamic of the three qualifiers.
pub open spec fn spec_merged_branch_type(condition: PineType, then_type: PineType, else_type: PineType) -> Option<
    PineType,
> {
    match spec_common_kind(then_type.kind, else_type.kind) {
        Some(kind) => Some(
            PineType {
                qualifier: spec_strongest_qualifier(
                    condition.qualifier,
                    spec_strongest_qualifier(then_type.qualifier, else_type.qualifier),
                ),
                kind,
            },
        ),
        None => None,
    }
}

pub open spec fn branch_type_error_view(then_type: PineType, else_type: PineType, span: Span) -> DiagView {
    error_view(
        "E_BRANCH_TYPE"@,
        "ternary branches have incompatible types "@ + spec_value_kind_debug_name(then_type.kind)
            + " and "@ + spec_value_kind_debug_name(else_type.kind),
        span,
    )
}

/// Merges the branch types of a conditional; where the branches have no
/// common kind, reports it and gives `None`.
pub fn merge_branch_types(
    condition_type: PineType,
    then_type: PineType,
    else_type: PineType,
    span: Span,
    diagnostics: &mut Vec<Diagnostic>,
) -> (r: Option<PineType>)
    ensures
        r == spec_merged_branch_type(condition_type, then_type, else_type),
        diags_view(final(diagnostics)@) == diags_view(old(diagnostics)@) + if r is None {
            seq![branch_type_error_view(then_type, else_type, span)]
        } else {
            Seq::<DiagView>::empty()
        },
{
    match common_kind(then_type.kind, else_type.kind) {
        None => {
            let s = String::from_str("ternary branches have incompatible types ");
            let s = s.concat(value_kind_debug_name(then_type.kind));
            let s = s.concat(" and ");
            let s = s.concat(value_kind_debug_name(else_type.kind));
            push_error(diagnostics, "E_BRANCH_TYPE", s, span);
            None
        },
        Some(kind) => {
            assert(diags_view(diagnostics@) =~= diags_view(diagnostics@) + Seq::<DiagView>::empty());
            Some(
                PineType::new(
                    strongest_qualifier(
                        condition_type.qualifier,
                        strongest_qualifier(then_type.qualifier, else_type.qualifier),
                    ),
                    kind,
                ),
            )
        },
    }
}

/// A legacy emulation as plain values: (feature, behavior, span).
pub open spec fn emulations_view(s: Seq<LegacyEmulation>) -> Seq<(Seq<char>, Seq<char>, Span)> {
    s.map_values(|e: LegacyEmulation| (e.feature@, e.behavior@, e.span))
}

pub open spec fn bool_to_float_emulation(version: u32) -> (Seq<char>, Seq<char>) {
    (
        "v"@ + spec_decimal(version as nat) + ".bool_arithmetic"@,
        "Pine v"@ + spec_decimal(version as nat)
            + " boolean arithmetic converts true to 1.0, false to 0.0, and unavailable boolean values to canonical na before applying the numeric operator"@,
    )
}

pub open spec fn numeric_to_bool_emulation(version: u32) -> (Seq<char>, Seq<char>) {
    (
        "v"@ + spec_decimal(version as nat) + ".numeric_to_bool"@,
        "Pine v"@ + spec_decimal(version as nat)
            + " condition conversion treats zero and na as false and every other finite numeric value as true"@,
    )
}

/// Records that the bool operand at `span` of a script of language version
/// `version` is converted to a float for arithmetic.
pub fn record_bool_to_float_coercion(span: Span, version: u32, emulations: &mut Vec<LegacyEmulation>)
    ensures
        emulations_view(final(emulations)@) == emulations_view(old(emulations)@) + seq![
            (bool_to_float_emulation(version).0, bool_to_float_emulation(version).1, span),
        ],
{
    let ghost before = emulations_view(emulations@);
    let v = decimal(version as usize);
    let feature = String::from_str("v");
    let feature = feature.concat(v.as_str());
    let feature = feature.concat(".bool_arithmetic");
    let behavior = String::from_str("Pine v");
    let behavior = behavior.concat(v.as_str());
    let behavior = behavior.concat(
        " boolean arithmetic converts true to 1.0, false to 0.0, and unavailable boolean values to canonical na before applying the numeric operator",
    );
    emulations.push(LegacyEmulation { feature, behavior, span });
    assert(emulations_view(emulations@) =~= before + seq![
        (bool_to_float_emulation(version).0, bool_to_float_emulation(version).1, span),
    ]);
}

/// Records that the numeric operand at `span` of a script of language
/// version `version` is converted to a bool as a condition.
pub fn record_numeric_to_bool_coercion(span: Span, version: u32, emulations: &mut Vec<LegacyEmulation>)
    ensures
        emulations_view(final(emulations)@) == emulations_view(old(emulations)@) + seq![
            (numeric_to_bool_emulation(version).0, numeric_to_bool_emulation(version).1, span),
        ],
{
    let ghost before = emulations_view(emulations@);
    let v = decimal(version as usize);
    let feature = String::from_str("v");
    let feature = feature.concat(v.as_str());
    let feature = feature.concat(".numeric_to_bool");
    let behavior = String::from_str("Pine v");
    let behavior = behavior.concat(v.as_str());
    let behavior = behavior.concat(
        " condition conversion treats zero and na as false and every other finite numeric value as true",
    );
    emulations.push(LegacyEmulation { feature, behavior, span });
    assert(emulations_view(emulations@) =~= before + seq![
        (numeric_to_bool_emulation(version).0, numeric_to_bool_emulation(version).1, span),
    ]);
}


/// A conditional is at least as dynamic as its condition and as each of its
/// branches, and its value has a kind both branches share: a bar-by-bar
/// condition never yields a compile-time constant.
pub proof fn lemma_conditional_is_as_dynamic_as_its_parts(condition: PineType, then_type: PineType, else_type: PineType)
    ensures
        spec_merged_branch_type(condition, then_type, else_type) matches Some(m) ==> {
            &&& crate::types::qualifier_rank(m.qualifier) >= crate::types::qualifier_rank(condition.qualifier)
            &&& crate::types::qualifier_rank(m.qualifier) >= crate::types::qualifier_rank(then_type.qualifier)
            &&& crate::types::qualifier_rank(m.qualifier) >= crate::types::qualifier_rank(else_type.qualifier)
            &&& (m.qualifier == condition.qualifier || m.qualifier == then_type.qualifier
                || m.qualifier == else_type.qualifier)
            &&& (m.kind == then_type.kind || m.kind == else_type.kind)
        },
        then_type.kind == else_type.kind ==> (spec_merged_branch_type(condition, then_type, else_type) matches Some(m)
            && m.kind == then_type.kind),
{
}

} // verus!
