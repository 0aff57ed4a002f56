//! The types of unary and binary operator expressions, and the error an
//! operand of the wrong kind gets.
use vstd::prelude::*;
use vstd::string::*;

use crate::expression_checks::{operator_error, operator_error_view};
use crate::syntax::{diags_view, error_view, push_error, BinaryOp, DiagView, Diagnostic, Span, UnaryOp};
use crate::type_queries::{is_arithmetic, numeric_result_kind, spec_numeric_result_kind};
use crate::types::{spec_strongest_qualifier, spec_type_debug_label, strongest_qualifier, type_debug_label, PineType, ValueKind};

verus! {

/// A numeric operand: an int or a float.
pub open spec fn spec_is_numeric(kind: ValueKind) -> bool {
    kind == ValueKind::Int || kind == ValueKind::Float
}

pub open spec fn spec_unary_op_debug_name(op: UnaryOp) -> Seq<char> {
    match op {
        UnaryOp::Plus => "Plus"@,
        UnaryOp::Minus => "Minus"@,
        UnaryOp::Not => "Not"@,
    }
}

fn unary_op_debug_name(op: UnaryOp) -> (r: &'static str)
    ensures
        r@ == spec_unary_op_debug_name(op),
{
    match op {
        UnaryOp::Plus => "Plus",
        UnaryOp::Minus => "Minus",
        UnaryOp::Not => "Not",
    }
}

/// The type of a unary operator applied to an operand of type `t`: signs
/// keep a numeric operand's type, `not` keeps a bool's; any other operand
/// has none.
pub open spec fn spec_infer_unary(op: UnaryOp, t: PineType) -> Option<PineType> {
    match op {
        UnaryOp::Plus | UnaryOp::Minus => if spec_is_numeric(t.kind) {
            Some(t)
        } else {
            None
        },
        UnaryOp::Not => if t.kind == ValueKind::Bool {
            Some(t)
        } else {
            None
        },
    }
}

pub open spec fn unary_error_view(op: UnaryOp, t: PineType, span: Span) -> DiagView {
    error_view(
        "E_OPERATOR_TYPE"@,
        "operator "@ + spec_unary_op_debug_name(op) + " does not accept "@ + spec_type_debug_label(t),
        span,
    )
}

/// What a unary operator reports of an operand of type `t` at `span`.
pub open spec fn unary_diags(op: UnaryOp, t: PineType, span: Span) -> Seq<DiagView> {
    if spec_infer_unary(op, t) is None {
        seq![unary_error_view(op, t, span)]
    } else {
        Seq::empty()
    }
}

/// The type of a binary operator expression over operands of types `l` and
/// `r`: arithmetic over numbers gives a number of the more dynamic
/// qualifier (see `spec_numeric_result_kind`), comparisons give a bool, and
/// `and`/`or` over bools give a bool; other operands give none.
pub open spec fn spec_infer_binary(op: BinaryOp, l: PineType, r: PineType) -> Option<PineType> {
    let q = spec_strongest_qualifier(l.qualifier, r.qualifier);
    if is_arithmetic(op) {
        if spec_is_numeric(l.kind) && spec_is_numeric(r.kind) {
            Some(PineType { qualifier: q, kind: spec_numeric_result_kind(op, l.kind, r.kind) })
        } else {
            None
        }
    } else if op == BinaryOp::And || op == BinaryOp::Or {
        if l.kind == ValueKind::Bool && r.kind == ValueKind::Bool {
            Some(PineType { qualifier: q, kind: ValueKind::Bool })
        } else {
            None
        }
    } else {
        Some(PineType { qualifier: q, kind: ValueKind::Bool })
    }
}

/// What a binary operator reports of operands of types `l` and `r`.
pub open spec fn binary_diags(op: BinaryOp, l: PineType, r: PineType, span: Span) -> Seq<DiagView> {
    if spec_infer_binary(op, l, r) is None {
        seq![operator_error_view(op, l, r, span)]
    } else {
        Seq::empty()
    }
}

/// The type of unary operator `op` on an operand of type `t` at `span`;
/// an operand it does not accept is reported.
pub fn infer_unary(op: UnaryOp, t: PineType, span: Span, diagnostics: &mut Vec<Diagnostic>) -> (r: Option<PineType>)
    ensures
        r == spec_infer_unary(op, t),
        diags_view(final(diagnostics)@) == diags_view(old(diagnostics)@) + unary_diags(op, t, span),
{
    let numeric = t.kind == ValueKind::Int || t.kind == ValueKind::Float;
    let ok = match op {
        UnaryOp::Plus | UnaryOp::Minus => numeric,
        UnaryOp::Not => t.kind == ValueKind::Bool,
    };
    if ok {
        assert(diags_view(diagnostics@) =~= diags_view(diagnostics@) + Seq::<DiagView>::empty());
        Some(t)
    } else {
        let s = String::from_str("operator ");
        let s = s.concat(unary_op_debug_name(op));
        let s = s.concat(" does not accept ");
        let s = s.concat(type_debug_label(t).as_str());
        push_error(diagnostics, "E_OPERATOR_TYPE", s, span);
        None
    }
}

/// The type of binary operator `op` on operands of types `l` and `r` at
/// `span`; operands it does not accept are reported.
pub fn infer_binary(op: BinaryOp, l: PineType, r: PineType, span: Span, diagnostics: &mut Vec<Diagnostic>) -> (res:
    Option<PineType>)
    ensures
        res == spec_infer_binary(op, l, r),
        diags_view(final(diagnostics)@) == diags_view(old(diagnostics)@) + binary_diags(op, l, r, span),
{
    let q = strongest_qualifier(l.qualifier, r.qualifier);
    let arithmetic = match op {
        BinaryOp::Add | BinaryOp::Sub | BinaryOp::Mul | BinaryOp::Div | BinaryOp::Mod => true,
        _ => false,
    };
    let logical = match op {
        BinaryOp::And | BinaryOp::Or => true,
        _ => false,
    };
    let res = if arithmetic {
        if (l.kind == ValueKind::Int || l.kind == ValueKind::Float) && (r.kind == ValueKind::Int || r.kind
            == ValueKind::Float) {
            Some(PineType::new(q, numeric_result_kind(op, l.kind, r.kind)))
        } else {
            None
        }
    } else if logical {
        if l.kind == ValueKind::Bool && r.kind == ValueKind::Bool {
            Some(PineType::new(q, ValueKind::Bool))
        } else {
            None
        }
    } else {
        Some(PineType::new(q, ValueKind::Bool))
    };
    if res.is_none() {
        operator_error(op, l, r, span, diagnostics);
    } else {
        assert(diags_view(diagnostics@) =~= diags_view(diagnostics@) + Seq::<DiagView>::empty());
    }
    res
}


/// An operator's result is at least as dynamic as each operand: a sign
/// keeps its operand's type; arithmetic gives an int only from two ints and
/// never from a division, a float otherwise; comparisons and `and`/`or`
/// give a bool.
pub proof fn lemma_operators_are_as_dynamic_as_their_operands(op: BinaryOp, uop: UnaryOp, l: PineType, r: PineType)
    ensures
        spec_infer_binary(op, l, r) matches Some(t) ==> {
            &&& crate::types::qualifier_rank(t.qualifier) >= crate::types::qualifier_rank(l.qualifier)
            &&& crate::types::qualifier_rank(t.qualifier) >= crate::types::qualifier_rank(r.qualifier)
            &&& (t.qualifier == l.qualifier || t.qualifier == r.qualifier)
            &&& is_arithmetic(op) ==> (t.kind == ValueKind::Int <==> (l.kind == ValueKind::Int && r.kind
                == ValueKind::Int && op != BinaryOp::Div))
            &&& is_arithmetic(op) ==> (t.kind == ValueKind::Int || t.kind == ValueKind::Float)
            &&& !is_arithmetic(op) ==> t.kind == ValueKind::Bool
        },
        is_arithmetic(op) ==> (spec_infer_binary(op, l, r) is Some <==> (spec_is_numeric(l.kind) && spec_is_numeric(
            r.kind,
        ))),
        !is_arithmetic(op) && op != BinaryOp::And && op != BinaryOp::Or ==> spec_infer_binary(op, l, r) is Some,
        spec_infer_unary(uop, l) matches Some(t) ==> t == l,
{
}

} // verus!
