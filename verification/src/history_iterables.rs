//! Whether the iterable of a `for...in` loop is known to be non-empty, for
//! the history-offset analysis: arrays built from arguments, arrays and
//! matrices of a known size, copies, and what the analysis knows of named
//! collections and of the other collection calls.
use vstd::prelude::*;

use crate::call_helpers::spec_expr_name;
use crate::const_eval::{known_const_int_value, spec_known_int, ConstFacts};
use crate::history_offsets::{
    history_offset_call_arg, history_offset_expr_name, is_array_new_call, is_matrix_new_call,
    spec_history_offset_call_arg, spec_is_array_new_call,
};
use crate::strings::{opt_string_view, spec_starts_with, str_eq};
use crate::syntax::{CallArg, Expr, ExprKind, Span};

verus! {

/// What the history-offset analysis knows: the constants that size
/// collections, whether each named collection is non-empty (from its
/// initializer), and the size or row count it found for other collection
/// calls (by span).
pub struct HistoryFacts {
    pub consts: ConstFacts,
    pub names: Vec<(String, bool)>,
    pub sizes: Vec<(Span, i64)>,
}

pub open spec fn named_non_empty(names: Seq<(String, bool)>, name: Seq<char>) -> Option<bool>
    decreases names.len(),
{
    if names.len() == 0 {
        None
    } else if names[0].0@ == name {
        Some(names[0].1)
    } else {
        named_non_empty(names.skip(1), name)
    }
}

pub open spec fn known_size(sizes: Seq<(Span, i64)>, span: Span) -> Option<i64>
    decreases sizes.len(),
{
    if sizes.len() == 0 {
        None
    } else if sizes[0].0 == span {
        Some(sizes[0].1)
    } else {
        known_size(sizes.skip(1), span)
    }
}

/// The known size given by argument `name` (or the first argument, where
/// positional) of a collection constructor.
pub open spec fn spec_collection_size_arg(f: HistoryFacts, args: Seq<CallArg>, name: Seq<char>) -> Option<i64> {
    match spec_history_offset_call_arg(args, 0, name) {
        Some(i) => spec_known_int(f.consts, args[i].value),
        None => None,
    }
}

pub open spec fn positive(o: Option<i64>) -> Option<bool> {
    match o {
        Some(n) => Some(n > 0),
        None => None,
    }
}

/// The receiver `r` of a method call `r.copy`.
pub open spec fn copy_receiver(callee: Expr) -> Option<Seq<char>> {
    match callee.kind {
        ExprKind::QualifiedName(parts) => if parts@.len() == 2 && parts@[1]@ == "copy"@ {
            Some(parts@[0]@)
        } else {
            None
        },
        _ => None,
    }
}

fn copy_receiver_of(callee: &Expr) -> (r: Option<&str>)
    ensures
        crate::arg_facts::opt_str_view(r) == copy_receiver(*callee),
{
    match &callee.kind {
        ExprKind::QualifiedName(parts) => {
            if parts.len() == 2 && str_eq(parts[1].as_str(), "copy") {
                Some(parts[0].as_str())
            } else {
                None
            }
        },
        _ => None,
    }
}

/// Whether the iterable `e` is known to be non-empty: a named collection as
/// the analysis knows it; `array.from` with arguments; an array or matrix
/// constructor with a known positive size or row count; a copy of a known
/// collection (`array.copy(x)` or `x.copy()`); any other collection call by the size the analysis found.
pub open spec fn spec_for_in_iterable_non_empty(f: HistoryFacts, e: Expr) -> Option<bool>
    decreases e,
{
    match e.kind {
        ExprKind::Identifier(n) => named_non_empty(f.names@, n@),
        ExprKind::Call { callee, args } => match spec_expr_name(*callee) {
            None => None,
            Some(name) => if name == "array.from"@ {
                Some(args@.len() > 0)
            } else if spec_is_array_new_call(name) {
                positive(spec_collection_size_arg(f, args@, "size"@))
            } else if spec_starts_with(name, "matrix.new<"@) {
                positive(spec_collection_size_arg(f, args@, "rows"@))
            } else if name == "array.copy"@ || name == "matrix.copy"@ {
                if args@.len() > 0 && (args@[0].name matches Some(n) ==> n@ == "id"@) {
                    spec_for_in_iterable_non_empty(f, args@[0].value)
                } else {
                    None
                }
            } else if args@.len() == 0 && copy_receiver(*callee) is Some {
                named_non_empty(f.names@, copy_receiver(*callee).unwrap())
            } else {
                positive(known_size(f.sizes@, e.span))
            },
        },
        _ => None,
    }
}

fn find_named(names: &Vec<(String, bool)>, name: &str) -> (r: Option<bool>)
    ensures
        r == named_non_empty(names@, name@),
{
    let n = names.len();
    let mut i: usize = 0;
    assert(names@.skip(0) =~= names@);
    while i < n
        invariant
            n == names@.len(),
            i <= n,
            named_non_empty(names@, name@) == named_non_empty(names@.skip(i as int), name@),
        decreases n - i,
    {
        assert(names@.skip(i as int).skip(1) =~= names@.skip((i + 1) as int));
        if str_eq(names[i].0.as_str(), name) {
            return Some(names[i].1);
        }
        i = i + 1;
    }
    None
}

fn find_size(sizes: &Vec<(Span, i64)>, span: Span) -> (r: Option<i64>)
    ensures
        r == known_size(sizes@, span),
{
    let n = sizes.len();
    let mut i: usize = 0;
    assert(sizes@.skip(0) =~= sizes@);
    while i < n
        invariant
            n == sizes@.len(),
            i <= n,
            known_size(sizes@, span) == known_size(sizes@.skip(i as int), span),
        decreases n - i,
    {
        assert(sizes@.skip(i as int).skip(1) =~= sizes@.skip((i + 1) as int));
        if sizes[i].0 == span {
            return Some(sizes[i].1);
        }
        i = i + 1;
    }
    None
}

/// The known size a collection constructor's argument `name` gives.
pub fn known_history_offset_collection_size_arg(facts: &HistoryFacts, args: &[CallArg], name: &str) -> (r: Option<i64>)
    ensures
        r == spec_collection_size_arg(*facts, args@, name@),
{
    match history_offset_call_arg(args, 0, name) {
        Some(e) => known_const_int_value(&facts.consts, e),
        None => None,
    }
}

fn positive_of(o: Option<i64>) -> (r: Option<bool>)
    ensures
        r == positive(o),
{
    match o {
        Some(n) => Some(n > 0),
        None => None,
    }
}

/// Whether the iterable of a `for...in` loop is known to be non-empty
/// (see `spec_for_in_iterable_non_empty`).
pub fn known_history_offset_for_in_iterable_non_empty(facts: &HistoryFacts, iterable: &Expr) -> (r: Option<bool>)
    ensures
        r == spec_for_in_iterable_non_empty(*facts, *iterable),
    decreases *iterable,
{
    match &iterable.kind {
        ExprKind::Identifier(n) => find_named(&facts.names, n.as_str()),
        ExprKind::Call { callee, args } => {
            let name = match history_offset_expr_name(callee) {
                Some(name) => name,
                None => return None,
            };
            if str_eq(name.as_str(), "array.from") {
                Some(args.len() > 0)
            } else if is_array_new_call(name.as_str()) {
                positive_of(known_history_offset_collection_size_arg(facts, args.as_slice(), "size"))
            } else if is_matrix_new_call(name.as_str()) {
                positive_of(known_history_offset_collection_size_arg(facts, args.as_slice(), "rows"))
            } else if str_eq(name.as_str(), "array.copy") || str_eq(name.as_str(), "matrix.copy") {
                if args.len() == 0 {
                    return None;
                }
                let id_ok = match &args[0].name {
                    Some(n) => str_eq(n.as_str(), "id"),
                    None => true,
                };
                if id_ok {
                    known_history_offset_for_in_iterable_non_empty(facts, &args[0].value)
                } else {
                    None
                }
            } else if args.len() == 0 && copy_receiver_of(callee).is_some() {
                match copy_receiver_of(callee) {
                    Some(r) => find_named(&facts.names, r),
                    None => None,
                }
            } else {
                positive_of(find_size(&facts.sizes, iterable.span))
            }
        },
        _ => None,
    }
}

} // verus!
