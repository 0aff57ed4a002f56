//! Integer constant evaluation: the value an expression is known to have
//! from literals, the script's integer constants and the conditions and
//! switch keys the analysis could evaluate, with checked arithmetic.
use vstd::prelude::*;

use crate::strings::str_eq;
use crate::syntax::{BinaryOp, Expr, ExprKind, Literal, Span, SwitchArm, UnaryOp};

verus! {

/// What the analysis knows of the script's constants: the integer bound to
/// each constant name in scope, the value of each condition it could
/// evaluate and the key of each switch selector or arm condition it could
/// evaluate (equal keys for equal constant values), by expression span.
pub struct ConstFacts {
    pub ints: Vec<(String, i64)>,
    pub bools: Vec<(Span, bool)>,
    pub keys: Vec<(Span, u64)>,
}

pub open spec fn lookup_int(ints: Seq<(String, i64)>, name: Seq<char>) -> Option<i64>
    decreases ints.len(),
{
    if ints.len() == 0 {
        None
    } else if ints[0].0@ == name {
        Some(ints[0].1)
    } else {
        lookup_int(ints.skip(1), name)
    }
}

pub open spec fn lookup_span<T>(facts: Seq<(Span, T)>, span: Span) -> Option<T>
    decreases facts.len(),
{
    if facts.len() == 0 {
        None
    } else if facts[0].0 == span {
        Some(facts[0].1)
    } else {
        lookup_span(facts.skip(1), span)
    }
}

/// The constant integer `e` is known to be: an integer literal, or what the
/// constants give it.
pub open spec fn spec_known_int(f: ConstFacts, e: Expr) -> Option<i64>
    decreases e, 4nat,
{
    match e.kind {
        ExprKind::Literal(Literal::Int(v)) => Some(v),
        _ => spec_int_from_symbols(f, e),
    }
}

/// The constant integer a name, a sign, an arithmetic operation (`+`, `-`,
/// `*`, `%`, none overflowing and no remainder by zero), a conditional or a
/// switch is known to be.
pub open spec fn spec_int_from_symbols(f: ConstFacts, e: Expr) -> Option<i64>
    decreases e, 3nat,
{
    match e.kind {
        ExprKind::Identifier(name) => lookup_int(f.ints@, name@),
        ExprKind::Unary { op, expr } => match op {
            UnaryOp::Plus => spec_known_int(f, *expr),
            UnaryOp::Minus => match spec_known_int(f, *expr) {
                Some(v) => if v == i64::MIN {
                    None
                } else {
                    Some((-v) as i64)
                },
                None => None,
            },
            UnaryOp::Not => None,
        },
        ExprKind::Binary { op, left, right } => match (spec_known_int(f, *left), spec_known_int(f, *right)) {
            (Some(a), Some(b)) => match op {
                BinaryOp::Add => a.checked_add(b),
                BinaryOp::Sub => a.checked_sub(b),
                BinaryOp::Mul => a.checked_mul(b),
                BinaryOp::Mod => a.checked_rem(b),
                _ => None,
            },
            _ => None,
        },
        ExprKind::Ternary { condition, then_expr, else_expr } => match lookup_span(f.bools@, (*condition).span) {
            Some(true) => spec_known_int(f, *then_expr),
            Some(false) => spec_known_int(f, *else_expr),
            None => match (spec_known_int(f, *then_expr), spec_known_int(f, *else_expr)) {
                (Some(a), Some(b)) => if a == b {
                    Some(a)
                } else {
                    None
                },
                _ => None,
            },
        },
        ExprKind::Switch { selector, arms } => match selector {
            Some(s) => match lookup_span(f.keys@, (*s).span) {
                Some(k) => spec_keyed_switch(f, k, arms@, 0),
                None => spec_all_with_default(f, arms@, 0),
            },
            None => spec_condition_switch(f, arms@, 0),
        },
        _ => None,
    }
}

/// The common value of arms `i..` where all are known and agree.
pub open spec fn spec_agreeing_arms(f: ConstFacts, arms: Seq<SwitchArm>, i: int, expected: Option<i64>) -> Option<i64>
    decreases arms, arms.len() - i,
{
    if i < 0 || i >= arms.len() {
        expected
    } else {
        match spec_known_int(f, arms[i].result) {
            None => None,
            Some(v) => match expected {
                Some(x) => if x != v {
                    None
                } else {
                    spec_agreeing_arms(f, arms, i + 1, expected)
                },
                None => spec_agreeing_arms(f, arms, i + 1, Some(v)),
            },
        }
    }
}

/// Arms `i..` among which a default arm stands: their common known value.
pub open spec fn spec_all_with_default(f: ConstFacts, arms: Seq<SwitchArm>, i: int) -> Option<i64>
    decreases arms, arms.len() - i + 1,
{
    if exists|j: int| i <= j < arms.len() && (#[trigger] arms[j]).condition is None {
        spec_agreeing_arms(f, arms, i, None)
    } else {
        None
    }
}

/// A switch on a selector with known key `key`, from arm `i`: the first arm
/// whose condition has that key, or the default arm; where an arm's
/// condition key is unknown, the common value of the arms from it.
pub open spec fn spec_keyed_switch(f: ConstFacts, key: u64, arms: Seq<SwitchArm>, i: int) -> Option<i64>
    decreases arms, arms.len() - i + 2,
{
    if i < 0 || i >= arms.len() {
        None
    } else {
        match arms[i].condition {
            Some(c) => match lookup_span(f.keys@, c.span) {
                Some(ck) => if ck == key {
                    spec_known_int(f, arms[i].result)
                } else {
                    spec_keyed_switch(f, key, arms, i + 1)
                },
                None => spec_all_with_default(f, arms, i),
            },
            None => spec_known_int(f, arms[i].result),
        }
    }
}

/// A switch without selector, from arm `i`: the first arm whose condition
/// is known true, or the default arm; where a condition is unknown, the
/// common value of the arms from it.
pub open spec fn spec_condition_switch(f: ConstFacts, arms: Seq<SwitchArm>, i: int) -> Option<i64>
    decreases arms, arms.len() - i + 2,
{
    if i < 0 || i >= arms.len() {
        None
    } else {
        match arms[i].condition {
            Some(c) => match lookup_span(f.bools@, c.span) {
                Some(true) => spec_known_int(f, arms[i].result),
                Some(false) => spec_condition_switch(f, arms, i + 1),
                None => spec_all_with_default(f, arms, i),
            },
            None => spec_known_int(f, arms[i].result),
        }
    }
}

fn find_int(ints: &Vec<(String, i64)>, name: &str) -> (r: Option<i64>)
    ensures
        r == lookup_int(ints@, name@),
{
    let n = ints.len();
    let mut i: usize = 0;
    assert(ints@.skip(0) =~= ints@);
    while i < n
        invariant
            n == ints@.len(),
            i <= n,
            lookup_int(ints@, name@) == lookup_int(ints@.skip(i as int), name@),
        decreases n - i,
    {
        assert(ints@.skip(i as int).skip(1) =~= ints@.skip((i + 1) as int));
        if str_eq(ints[i].0.as_str(), name) {
            return Some(ints[i].1);
        }
        i = i + 1;
    }
    None
}

fn find_bool(facts: &Vec<(Span, bool)>, span: Span) -> (r: Option<bool>)
    ensures
        r == lookup_span(facts@, span),
{
    let n = facts.len();
    let mut i: usize = 0;
    assert(facts@.skip(0) =~= facts@);
    while i < n
        invariant
            n == facts@.len(),
            i <= n,
            lookup_span(facts@, span) == lookup_span(facts@.skip(i as int), span),
        decreases n - i,
    {
        assert(facts@.skip(i as int).skip(1) =~= facts@.skip((i + 1) as int));
        if facts[i].0 == span {
            return Some(facts[i].1);
        }
        i = i + 1;
    }
    None
}

fn find_key(facts: &Vec<(Span, u64)>, span: Span) -> (r: Option<u64>)
    ensures
        r == lookup_span(facts@, span),
{
    let n = facts.len();
    let mut i: usize = 0;
    assert(facts@.skip(0) =~= facts@);
    while i < n
        invariant
            n == facts@.len(),
            i <= n,
            lookup_span(facts@, span) == lookup_span(facts@.skip(i as int), span),
        decreases n - i,
    {
        assert(facts@.skip(i as int).skip(1) =~= facts@.skip((i + 1) as int));
        if facts[i].0 == span {
            return Some(facts[i].1);
        }
        i = i + 1;
    }
    None
}

/// The constant integer `expr` is known to be (see `spec_known_int`).
pub fn known_const_int_value(facts: &ConstFacts, expr: &Expr) -> (r: Option<i64>)
    ensures
        r == spec_known_int(*facts, *expr),
    decreases *expr, 4nat,
{
    match &expr.kind {
        ExprKind::Literal(Literal::Int(v)) => Some(*v),
        _ => known_const_int_value_from_symbols(facts, expr),
    }
}

/// The constant integer a name, sign, arithmetic operation, conditional or
/// switch is known to be (see `spec_int_from_symbols`).
pub fn known_const_int_value_from_symbols(facts: &ConstFacts, expr: &Expr) -> (r: Option<i64>)
    ensures
        r == spec_int_from_symbols(*facts, *expr),
    decreases *expr, 3nat,
{
    match &expr.kind {
        ExprKind::Identifier(name) => find_int(&facts.ints, name.as_str()),
        ExprKind::Unary { op, expr: inner } => match op {
            UnaryOp::Plus => known_const_int_value(facts, inner),
            UnaryOp::Minus => match known_const_int_value(facts, inner) {
                Some(v) => if v == i64::MIN {
                    None
                } else {
                    Some(-v)
                },
                None => None,
            },
            UnaryOp::Not => None,
        },
        ExprKind::Binary { op, left, right } => {
            let a = match known_const_int_value(facts, left) {
                Some(a) => a,
                None => return None,
            };
            let b = match known_const_int_value(facts, right) {
                Some(b) => b,
                None => return None,
            };
            match op {
                BinaryOp::Add => a.checked_add(b),
                BinaryOp::Sub => a.checked_sub(b),
                BinaryOp::Mul => a.checked_mul(b),
                BinaryOp::Mod => a.checked_rem(b),
                _ => None,
            }
        },
        ExprKind::Ternary { condition, then_expr, else_expr } => match find_bool(&facts.bools, condition.span) {
            Some(true) => known_const_int_value(facts, then_expr),
            Some(false) => known_const_int_value(facts, else_expr),
            None => {
                let a = known_const_int_value(facts, then_expr);
                let b = known_const_int_value(facts, else_expr);
                match (a, b) {
                    (Some(a), Some(b)) => if a == b {
                        Some(a)
                    } else {
                        None
                    },
                    _ => None,
                }
            },
        },
        ExprKind::Switch { selector, arms } => match selector {
            Some(s) => match find_key(&facts.keys, s.span) {
                Some(k) => known_const_int_keyed_switch(facts, k, arms, 0),
                None => known_const_int_all_switch_results_with_default(facts, arms, 0),
            },
            None => known_const_int_condition_switch(facts, arms, 0),
        },
        _ => None,
    }
}

fn known_const_int_agreeing_arms(facts: &ConstFacts, arms: &Vec<SwitchArm>, i: usize, expected: Option<i64>) -> (r:
    Option<i64>)
    ensures
        r == spec_agreeing_arms(*facts, arms@, i as int, expected),
    decreases arms@, arms@.len() - i,
{
    if i >= arms.len() {
        return expected;
    }
    match known_const_int_value(facts, &arms[i].result) {
        None => None,
        Some(v) => match expected {
            Some(x) => if x != v {
                None
            } else {
                known_const_int_agreeing_arms(facts, arms, i + 1, expected)
            },
            None => known_const_int_agreeing_arms(facts, arms, i + 1, Some(v)),
        },
    }
}

/// The common known value of the arms from `i`, where a default arm stands
/// among them (see `spec_all_with_default`).
fn known_const_int_all_switch_results_with_default(facts: &ConstFacts, arms: &Vec<SwitchArm>, i: usize) -> (r:
    Option<i64>)
    requires
        i <= arms@.len(),
    ensures
        r == spec_all_with_default(*facts, arms@, i as int),
    decreases arms@, arms@.len() - i + 1,
{
    let n = arms.len();
    let mut j: usize = i;
    let mut has_default = false;
    while j < n
        invariant
            n == arms@.len(),
            i <= j <= n,
            has_default == exists|q: int| i <= q < j && (#[trigger] arms@[q]).condition is None,
        decreases n - j,
    {
        if arms[j].condition.is_none() {
            has_default = true;
        }
        j = j + 1;
    }
    if !has_default {
        return None;
    }
    known_const_int_agreeing_arms(facts, arms, i, None)
}

fn known_const_int_keyed_switch(facts: &ConstFacts, key: u64, arms: &Vec<SwitchArm>, i: usize) -> (r: Option<i64>)
    requires
        i <= arms@.len(),
    ensures
        r == spec_keyed_switch(*facts, key, arms@, i as int),
    decreases arms@, arms@.len() - i + 2,
{
    if i >= arms.len() {
        return None;
    }
    match &arms[i].condition {
        Some(c) => match find_key(&facts.keys, c.span) {
            Some(ck) => if ck == key {
                known_const_int_value(facts, &arms[i].result)
            } else {
                known_const_int_keyed_switch(facts, key, arms, i + 1)
            },
            None => known_const_int_all_switch_results_with_default(facts, arms, i),
        },
        None => known_const_int_value(facts, &arms[i].result),
    }
}

fn known_const_int_condition_switch(facts: &ConstFacts, arms: &Vec<SwitchArm>, i: usize) -> (r: Option<i64>)
    requires
        i <= arms@.len(),
    ensures
        r == spec_condition_switch(*facts, arms@, i as int),
    decreases arms@, arms@.len() - i + 2,
{
    if i >= arms.len() {
        return None;
    }
    match &arms[i].condition {
        Some(c) => match find_bool(&facts.bools, c.span) {
            Some(true) => known_const_int_value(facts, &arms[i].result),
            Some(false) => known_const_int_condition_switch(facts, arms, i + 1),
            None => known_const_int_all_switch_results_with_default(facts, arms, i),
        },
        None => known_const_int_value(facts, &arms[i].result),
    }
}


/// A conditional whose condition is known picks its branch: known true, its
/// value is the then branch's; known false, the else branch's. With the
/// condition unknown, a known value is one both branches are known to have.
pub proof fn lemma_known_conditional_picks_its_branch(f: ConstFacts, e: Expr)
    requires
        e.kind is Ternary,
    ensures
        ({
            let condition = e.kind->condition;
            let then_expr = e.kind->then_expr;
            let else_expr = e.kind->else_expr;
            &&& lookup_span(f.bools@, (*condition).span) == Some(true) ==> spec_known_int(f, e)
                == spec_known_int(f, *then_expr)
            &&& lookup_span(f.bools@, (*condition).span) == Some(false) ==> spec_known_int(f, e)
                == spec_known_int(f, *else_expr)
            &&& lookup_span(f.bools@, (*condition).span) is None ==> (spec_known_int(f, e) matches Some(v)
                ==> spec_known_int(f, *then_expr) == Some(v) && spec_known_int(f, *else_expr) == Some(v))
        }),
{
}


/// Known arithmetic is exact: the sum, difference or product of two known
/// operands is known to be the mathematical result whenever it fits in an
/// `i64`, and unknown when it overflows; a comparison or logical operator is
/// never a known integer; an operand that is not known leaves the result
/// unknown.
pub proof fn lemma_known_arithmetic_is_exact(f: ConstFacts, e: Expr)
    requires
        e.kind is Binary,
    ensures
        ({
            let op = e.kind->Binary_op;
            let l = spec_known_int(f, *e.kind->Binary_left);
            let r = spec_known_int(f, *e.kind->Binary_right);
            let k = spec_known_int(f, e);
            &&& (l is None || r is None) ==> k is None
            &&& (l is Some && r is Some && op == BinaryOp::Add) ==> (if i64::MIN <= l.unwrap() + r.unwrap()
                <= i64::MAX {
                k == Some((l.unwrap() + r.unwrap()) as i64)
            } else {
                k is None
            })
            &&& (l is Some && r is Some && op == BinaryOp::Sub) ==> (if i64::MIN <= l.unwrap() - r.unwrap()
                <= i64::MAX {
                k == Some((l.unwrap() - r.unwrap()) as i64)
            } else {
                k is None
            })
            &&& (l is Some && r is Some && op == BinaryOp::Mul) ==> (if i64::MIN <= l.unwrap() * r.unwrap()
                <= i64::MAX {
                k == Some((l.unwrap() * r.unwrap()) as i64)
            } else {
                k is None
            })
            &&& (op != BinaryOp::Add && op != BinaryOp::Sub && op != BinaryOp::Mul && op != BinaryOp::Mod) ==> k is None
        }),
{
}

/// A sign keeps a known value (`+`) or negates it (`-`, unknown where the
/// negation overflows); `not` is never a known integer.
pub proof fn lemma_known_sign_is_exact(f: ConstFacts, e: Expr)
    requires
        e.kind is Unary,
    ensures
        ({
            let op = e.kind->Unary_op;
            let x = spec_known_int(f, *e.kind->Unary_expr);
            let k = spec_known_int(f, e);
            &&& op == UnaryOp::Plus ==> k == x
            &&& (op == UnaryOp::Minus && x is Some) ==> (if x.unwrap() == i64::MIN {
                k is None
            } else {
                k == Some((-x.unwrap()) as i64)
            })
            &&& op == UnaryOp::Minus ==> (x is None ==> k is None)
            &&& op == UnaryOp::Not ==> k is None
        }),
{
}

} // verus!
