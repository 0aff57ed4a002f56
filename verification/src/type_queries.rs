//! The type of an expression from what the analysis already knows: the
//! types it recorded by span, the types of function parameters, and the
//! types of the names in scope.
use vstd::prelude::*;

use crate::call_helpers::{expr_name, spec_expr_name};
use crate::strings::str_eq;
use crate::syntax::{BinaryOp, Expr, ExprKind, Literal, Span, StmtKind, SwitchArm};
use crate::types::{
    common_kind, merge_result_types, spec_common_kind, spec_merge_result_types, spec_strongest_qualifier,
    strongest_qualifier, PineType, Qualifier, ValueKind,
};

verus! {

/// The type of a literal: a constant of the literal's kind.
pub open spec fn spec_literal_type(l: Literal) -> PineType {
    PineType {
        qualifier: Qualifier::Const,
        kind: match l {
            Literal::Int(_) => ValueKind::Int,
            Literal::Float(_) => ValueKind::Float,
            Literal::Bool(_) => ValueKind::Bool,
            Literal::Str(_) => ValueKind::String,
            Literal::Color(_) => ValueKind::Color,
            Literal::Na => ValueKind::Na,
        },
    }
}

pub fn literal_type(l: &Literal) -> (r: PineType)
    ensures
        r == spec_literal_type(*l),
{
    let kind = match l {
        Literal::Int(_) => ValueKind::Int,
        Literal::Float(_) => ValueKind::Float,
        Literal::Bool(_) => ValueKind::Bool,
        Literal::Str(_) => ValueKind::String,
        Literal::Color(_) => ValueKind::Color,
        Literal::Na => ValueKind::Na,
    };
    PineType::new(Qualifier::Const, kind)
}

/// The type of a tuple value.
pub open spec fn spec_tuple_type() -> PineType {
    PineType { qualifier: Qualifier::Series, kind: ValueKind::Tuple }
}

/// The kind of an arithmetic result: an int when both operands are ints and
/// the operator is not a division, a float otherwise.
pub open spec fn spec_numeric_result_kind(op: BinaryOp, left: ValueKind, right: ValueKind) -> ValueKind {
    if left == ValueKind::Int && right == ValueKind::Int && op != BinaryOp::Div {
        ValueKind::Int
    } else {
        ValueKind::Float
    }
}

pub fn numeric_result_kind(op: BinaryOp, left: ValueKind, right: ValueKind) -> (r: ValueKind)
    ensures
        r == spec_numeric_result_kind(op, left, right),
{
    if left == ValueKind::Int && right == ValueKind::Int && op != BinaryOp::Div {
        ValueKind::Int
    } else {
        ValueKind::Float
    }
}

pub open spec fn is_arithmetic(op: BinaryOp) -> bool {
    op == BinaryOp::Add || op == BinaryOp::Sub || op == BinaryOp::Mul || op == BinaryOp::Div || op == BinaryOp::Mod
}

/// The first entry under `span`.
pub open spec fn span_type(types: Seq<(Span, PineType)>, span: Span) -> Option<PineType>
    decreases types.len(),
{
    if types.len() == 0 {
        None
    } else if types[0].0 == span {
        Some(types[0].1)
    } else {
        span_type(types.skip(1), span)
    }
}

/// The first entry under `name`.
pub open spec fn name_type(entries: Seq<(String, PineType)>, name: Seq<char>) -> Option<PineType>
    decreases entries.len(),
{
    if entries.len() == 0 {
        None
    } else if entries[0].0@ == name {
        Some(entries[0].1)
    } else {
        name_type(entries.skip(1), name)
    }
}

/// What the analysis already knows: the types it recorded by expression
/// span, and the type of each name in scope (for a qualified name, the value
/// or field it resolved the dotted name to).
pub struct KnownTypes {
    pub types: Vec<(Span, PineType)>,
    pub names: Vec<(String, PineType)>,
}

/// The type of `e`: the type recorded for it; else, for a literal its type,
/// for a name the parameter's type or the name's type, for an operator,
/// conditional, switch, loop, tuple or history reference the type its parts
/// give. A call is known only by its recorded type.
pub open spec fn spec_type_of_expr(k: KnownTypes, params: Seq<(String, PineType)>, e: Expr) -> Option<PineType>
    decreases e, 2nat,
{
    match span_type(k.types@, e.span) {
        Some(t) => Some(t),
        None => match e.kind {
            ExprKind::Literal(l) => Some(spec_literal_type(l)),
            ExprKind::Identifier(name) => match name_type(params, name@) {
                Some(t) => Some(t),
                None => name_type(k.names@, name@),
            },
            ExprKind::QualifiedName(_) => match spec_expr_name(e) {
                Some(n) => name_type(k.names@, n),
                None => None,
            },
            ExprKind::Unary { expr, .. } => spec_type_of_expr(k, params, *expr),
            ExprKind::Binary { op, left, right } => match (spec_type_of_expr(k, params, *left), spec_type_of_expr(k, params, *right)) {
                (Some(l), Some(r)) => Some(
                    PineType {
                        qualifier: spec_strongest_qualifier(l.qualifier, r.qualifier),
                        kind: if is_arithmetic(op) {
                            spec_numeric_result_kind(op, l.kind, r.kind)
                        } else {
                            ValueKind::Bool
                        },
                    },
                ),
                _ => None,
            },
            ExprKind::Ternary { condition, then_expr, else_expr } => match (
                spec_type_of_expr(k, params, *condition),
                spec_type_of_expr(k, params, *then_expr),
                spec_type_of_expr(k, params, *else_expr),
            ) {
                (Some(c), Some(t), Some(f)) => match spec_common_kind(t.kind, f.kind) {
                    Some(kind) => Some(PineType {
                        qualifier: spec_strongest_qualifier(c.qualifier, spec_strongest_qualifier(t.qualifier, f.qualifier)),
                        kind,
                    }),
                    None => None,
                },
                _ => None,
            },
            ExprKind::Switch { selector, arms } => match selector {
                Some(s) => match spec_type_of_expr(k, params, *s) {
                    Some(st) => spec_switch_type(k, params, arms@, 0, st.qualifier, None),
                    None => None,
                },
                None => spec_switch_type(k, params, arms@, 0, Qualifier::Const, None),
            },
            ExprKind::For { body, .. } => if body@.len() > 0 {
                match body@.last().kind {
                    StmtKind::Expr(last) => spec_type_of_expr(k, params, last),
                    _ => None,
                }
            } else {
                None
            },
            ExprKind::Tuple(items) => if spec_items_typed(k, params, items@) {
                Some(spec_tuple_type())
            } else {
                None
            },
            ExprKind::History { expr, .. } => match spec_type_of_expr(k, params, *expr) {
                Some(t) => Some(PineType { qualifier: Qualifier::Series, kind: t.kind }),
                None => None,
            },
            ExprKind::Call { .. } => None,
        },
    }
}

/// Every item has a type.
pub open spec fn spec_items_typed(k: KnownTypes, params: Seq<(String, PineType)>, items: Seq<Expr>) -> bool
    decreases items, 0nat,
{
    if items.len() == 0 {
        true
    } else {
        spec_items_typed(k, params, items.drop_last()) && spec_type_of_expr(k, params, items.last()) is Some
    }
}

/// A switch's type from arm `i` on, where `cq` is the most dynamic
/// qualifier of the selector and the conditions so far and `acc` the merged
/// type of the arms so far: every condition and result must have a type and
/// the results a common kind.
pub open spec fn spec_switch_type(
    k: KnownTypes,
    params: Seq<(String, PineType)>,
    arms: Seq<SwitchArm>,
    i: int,
    cq: Qualifier,
    acc: Option<PineType>,
) -> Option<PineType>
    decreases arms, arms.len() - i,
{
    if i < 0 || i >= arms.len() {
        match acc {
            Some(t) => Some(PineType { qualifier: spec_strongest_qualifier(cq, t.qualifier), kind: t.kind }),
            None => None,
        }
    } else {
        let q = match arms[i].condition {
            Some(c) => match spec_type_of_expr(k, params, c) {
                Some(ct) => Some(spec_strongest_qualifier(cq, ct.qualifier)),
                None => None,
            },
            None => Some(cq),
        };
        match q {
            None => None,
            Some(q) => match spec_type_of_expr(k, params, arms[i].result) {
                None => None,
                Some(at) => match spec_merge_result_types(acc, at) {
                    None => None,
                    Some(m) => spec_switch_type(k, params, arms, i + 1, q, Some(m)),
                },
            },
        }
    }
}

fn find_span_type(types: &Vec<(Span, PineType)>, span: Span) -> (r: Option<PineType>)
    ensures
        r == span_type(types@, span),
{
    let n = types.len();
    let mut i: usize = 0;
    assert(types@.skip(0) =~= types@);
    while i < n
        invariant
            n == types@.len(),
            i <= n,
            span_type(types@, span) == span_type(types@.skip(i as int), span),
        decreases n - i,
    {
        assert(types@.skip(i as int).skip(1) =~= types@.skip((i + 1) as int));
        if types[i].0 == span {
            return Some(types[i].1);
        }
        i = i + 1;
    }
    None
}

fn find_name_type(entries: &[(String, PineType)], name: &str) -> (r: Option<PineType>)
    ensures
        r == name_type(entries@, name@),
{
    let n = entries.len();
    let mut i: usize = 0;
    assert(entries@.skip(0) =~= entries@);
    while i < n
        invariant
            n == entries@.len(),
            i <= n,
            name_type(entries@, name@) == name_type(entries@.skip(i as int), name@),
        decreases n - i,
    {
        assert(entries@.skip(i as int).skip(1) =~= entries@.skip((i + 1) as int));
        if str_eq(entries[i].0.as_str(), name) {
            return Some(entries[i].1);
        }
        i = i + 1;
    }
    None
}

/// The type of `expr` from what the analysis already knows, with the
/// parameter types `params` (see `spec_type_of_expr`).
pub fn type_of_expr_with_params(known: &KnownTypes, params: &[(String, PineType)], expr: &Expr) -> (r: Option<PineType>)
    ensures
        r == spec_type_of_expr(*known, params@, *expr),
    decreases *expr, 2nat,
{
    if let Some(t) = find_span_type(&known.types, expr.span) {
        return Some(t);
    }
    match &expr.kind {
        ExprKind::Literal(l) => Some(literal_type(l)),
        ExprKind::Identifier(name) => match find_name_type(params, name.as_str()) {
            Some(t) => Some(t),
            None => find_name_type(known.names.as_slice(), name.as_str()),
        },
        ExprKind::QualifiedName(_) => match expr_name(expr) {
            Some(n) => find_name_type(known.names.as_slice(), n.as_str()),
            None => None,
        },
        ExprKind::Unary { expr: inner, .. } => type_of_expr_with_params(known, params, inner),
        ExprKind::Binary { op, left, right } => {
            let l = type_of_expr_with_params(known, params, left);
            let r = type_of_expr_with_params(known, params, right);
            match (l, r) {
                (Some(l), Some(r)) => {
                    let arithmetic = *op == BinaryOp::Add || *op == BinaryOp::Sub || *op == BinaryOp::Mul
                        || *op == BinaryOp::Div || *op == BinaryOp::Mod;
                    let kind = if arithmetic {
                        numeric_result_kind(*op, l.kind, r.kind)
                    } else {
                        ValueKind::Bool
                    };
                    Some(PineType::new(strongest_qualifier(l.qualifier, r.qualifier), kind))
                },
                _ => None,
            }
        },
        ExprKind::Ternary { condition, then_expr, else_expr } => {
            let c = type_of_expr_with_params(known, params, condition);
            let t = type_of_expr_with_params(known, params, then_expr);
            let f = type_of_expr_with_params(known, params, else_expr);
            match (c, t, f) {
                (Some(c), Some(t), Some(f)) => match common_kind(t.kind, f.kind) {
                    Some(kind) => Some(PineType::new(
                        strongest_qualifier(c.qualifier, strongest_qualifier(t.qualifier, f.qualifier)),
                        kind,
                    )),
                    None => None,
                },
                _ => None,
            }
        },
        ExprKind::Switch { selector, arms } => match selector {
            Some(s) => match type_of_expr_with_params(known, params, s) {
                Some(st) => switch_type(known, params, arms, 0, st.qualifier, None),
                None => None,
            },
            None => switch_type(known, params, arms, 0, Qualifier::Const, None),
        },
        ExprKind::For { body, .. } => {
            if body.len() == 0 {
                return None;
            }
            match &body[body.len() - 1].kind {
                StmtKind::Expr(last) => type_of_expr_with_params(known, params, last),
                _ => None,
            }
        },
        ExprKind::Tuple(items) => {
            if items_typed(known, params, items) {
                Some(PineType::new(Qualifier::Series, ValueKind::Tuple))
            } else {
                None
            }
        },
        ExprKind::History { expr: inner, .. } => match type_of_expr_with_params(known, params, inner) {
            Some(t) => Some(PineType::new(Qualifier::Series, t.kind)),
            None => None,
        },
        ExprKind::Call { .. } => None,
    }
}

proof fn lemma_items_prefix(k: KnownTypes, params: Seq<(String, PineType)>, s: Seq<Expr>, j: int)
    requires
        0 <= j <= s.len(),
        !spec_items_typed(k, params, s.take(j)),
    ensures
        !spec_items_typed(k, params, s),
    decreases s.len(),
{
    if j < s.len() {
        assert(s.drop_last().take(j) =~= s.take(j));
        lemma_items_prefix(k, params, s.drop_last(), j);
    } else {
        assert(s.take(j) =~= s);
    }
}

fn items_typed(known: &KnownTypes, params: &[(String, PineType)], items: &Vec<Expr>) -> (r: bool)
    ensures
        r == spec_items_typed(*known, params@, items@),
    decreases items@, 0nat,
{
    let n = items.len();
    let mut i: usize = 0;
    while i < n
        invariant
            n == items@.len(),
            i <= n,
            spec_items_typed(*known, params@, items@.take(i as int)),
        decreases n - i,
    {
        assert(items@.take((i + 1) as int).drop_last() =~= items@.take(i as int));
        if type_of_expr_with_params(known, params, &items[i]).is_none() {
            proof {
                lemma_items_prefix(*known, params@, items@, (i + 1) as int);
            }
            return false;
        }
        i = i + 1;
    }
    assert(items@.take(n as int) =~= items@);
    true
}

fn switch_type(
    known: &KnownTypes,
    params: &[(String, PineType)],
    arms: &Vec<SwitchArm>,
    i: usize,
    cq: Qualifier,
    acc: Option<PineType>,
) -> (r: Option<PineType>)
    requires
        i <= arms@.len(),
    ensures
        r == spec_switch_type(*known, params@, arms@, i as int, cq, acc),
    decreases arms@, arms@.len() - i,
{
    if i >= arms.len() {
        return match acc {
            Some(t) => Some(PineType::new(strongest_qualifier(cq, t.qualifier), t.kind)),
            None => None,
        };
    }
    let q = match &arms[i].condition {
        Some(c) => match type_of_expr_with_params(known, params, c) {
            Some(ct) => strongest_qualifier(cq, ct.qualifier),
            None => return None,
        },
        None => cq,
    };
    let at = match type_of_expr_with_params(known, params, &arms[i].result) {
        Some(at) => at,
        None => return None,
    };
    match merge_result_types(acc, at) {
        None => None,
        Some(m) => switch_type(known, params, arms, i + 1, q, Some(m)),
    }
}

} // verus!
