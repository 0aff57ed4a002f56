//! Call-shape helpers used when bounding history offsets.
use vstd::prelude::*;
use vstd::string::*;

use crate::call_helpers::{expr_name, spec_expr_name};
use crate::strings::{opt_string_view, spec_starts_with, starts_with, str_eq};
use crate::syntax::{CallArg, Expr, ExprKind};

verus! {

pub open spec fn spec_is_array_new_call(name: Seq<char>) -> bool {
    spec_starts_with(name, "array.new_"@) || spec_starts_with(name, "array.new<"@)
}

/// `array.new_<kind>` and `array.new<type>` constructors.
pub fn is_array_new_call(name: &str) -> (r: bool)
    ensures
        r == spec_is_array_new_call(name@),
{
    starts_with(name, "array.new_") || starts_with(name, "array.new<")
}

/// `matrix.new<type>` constructors.
pub fn is_matrix_new_call(name: &str) -> (r: bool)
    ensures
        r == spec_starts_with(name@, "matrix.new<"@),
{
    starts_with(name, "matrix.new<")
}

/// The dotted name of an identifier or qualified name.
pub fn history_offset_expr_name(expr: &Expr) -> (r: Option<String>)
    ensures
        opt_string_view(r) == spec_expr_name(*expr),
{
    expr_name(expr)
}

pub open spec fn arg_named(args: Seq<CallArg>, i: int, name: Seq<char>) -> bool {
    opt_string_view(args[i].name) == Some(name)
}

/// The first argument named `name`, or else the positional argument at `index`.
pub open spec fn spec_history_offset_call_arg(args: Seq<CallArg>, index: int, name: Seq<char>) -> Option<
    int,
> {
    if exists|i: int| 0 <= i < args.len() && #[trigger] arg_named(args, i, name) {
        Some(choose|i: int| 0 <= i < args.len() && #[trigger] arg_named(args, i, name) && forall|j: int|
            0 <= j < i ==> !arg_named(args, j, name))
    } else if 0 <= index < args.len() && args[index].name is None {
        Some(index)
    } else {
        None
    }
}

pub fn history_offset_call_arg<'a>(args: &'a [CallArg], index: usize, name: &str) -> (r: Option<
    &'a Expr,
>)
    ensures
        match r {
            Some(e) => exists|i: int|
                spec_history_offset_call_arg(args@, index as int, name@) == Some(i) && *e
                    == args@[i].value,
            None => spec_history_offset_call_arg(args@, index as int, name@) is None,
        },
{
    let n = args.len();
    let mut i: usize = 0;
    while i < n
        invariant
            n == args@.len(),
            i <= n,
            forall|j: int| 0 <= j < i ==> !arg_named(args@, j, name@),
        decreases n - i,
    {
        let matches = match &args[i].name {
            Some(arg_name) => str_eq(arg_name.as_str(), name),
            None => false,
        };
        if matches {
            assert(arg_named(args@, i as int, name@));
            let ghost chosen = choose|k: int|
                0 <= k < args@.len() && #[trigger] arg_named(args@, k, name@) && forall|j: int|
                    0 <= j < k ==> !arg_named(args@, j, name@);
            assert(0 <= i < args@.len() && arg_named(args@, i as int, name@) && forall|j: int|
                0 <= j < i ==> !arg_named(args@, j, name@));
            assert(chosen == i) by {
                if chosen < i {
                    assert(!arg_named(args@, chosen, name@));
                } else if chosen > i {
                    assert(!arg_named(args@, i as int, name@));
                }
            }
            return Some(&args[i].value);
        }
        i = i + 1;
    }
    if index < n && args[index].name.is_none() {
        Some(&args[index].value)
    } else {
        None
    }
}

/// `recv.method` turned into the receiver identifier `recv`.
pub open spec fn spec_history_offset_method_receiver(e: Expr, method: Seq<char>) -> Option<Seq<char>> {
    match e.kind {
        ExprKind::QualifiedName(parts) => if parts@.len() == 2 && parts@[1]@ == method {
            Some(parts@[0]@)
        } else {
            None
        },
        _ => None,
    }
}

pub fn history_offset_method_receiver(expr: &Expr, method: &str) -> (r: Option<Expr>)
    ensures
        match r {
            Some(e) => {
                &&& spec_history_offset_method_receiver(*expr, method@) is Some
                &&& e.span == expr.span
                &&& e.kind matches ExprKind::Identifier(n)
                &&& n@ == spec_history_offset_method_receiver(*expr, method@).unwrap()
            },
            None => spec_history_offset_method_receiver(*expr, method@) is None,
        },
{
    match &expr.kind {
        ExprKind::QualifiedName(parts) => {
            if parts.len() == 2 && str_eq(parts[1].as_str(), method) {
                Some(Expr { kind: ExprKind::Identifier(parts[0].clone()), span: expr.span })
            } else {
                None
            }
        },
        _ => None,
    }
}

} // verus!
