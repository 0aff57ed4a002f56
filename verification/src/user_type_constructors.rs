//! Binding the arguments of a user-defined type constructor `T.new(...)` to
//! the type's fields.
use vstd::prelude::*;
use vstd::string::*;

use crate::strings::{decimal, spec_decimal, str_eq};
use crate::syntax::{diags_view, error_view, push_error, CallArg, DiagView, Diagnostic, Span};
use crate::user_types::{UserTypeFieldInfo, UserTypeInfo};

verus! {

/// Where binding stands after some arguments: the argument bound to each
/// field, whether positional arguments may still come, and the next field a
/// positional argument fills.
pub struct BindState {
    pub resolved: Seq<Option<int>>,
    pub positional_open: bool,
    pub next_positional: int,
}

/// The position of the first field named `name`.
pub open spec fn spec_field_position(fields: Seq<UserTypeFieldInfo>, name: Seq<char>, k: int) -> Option<int>
    decreases fields.len() - k,
{
    if k < 0 || k >= fields.len() {
        None
    } else if fields[k].name@ == name {
        Some(k)
    } else {
        spec_field_position(fields, name, k + 1)
    }
}

pub open spec fn constructor_error(message: Seq<char>, span: Span) -> DiagView {
    error_view("E_UDT_CONSTRUCTOR_ARG"@, message, span)
}

/// Binding the first `i` arguments of a constructor of `info`: a named
/// argument binds the field of that name (an unknown or already bound field
/// is an error) and closes positional binding; a positional argument binds
/// the next field, and is an error after a named one.
pub open spec fn spec_bind_constructor_args(info: UserTypeInfo, args: Seq<CallArg>, i: int) -> Result<
    BindState,
    DiagView,
>
    decreases i,
{
    if i <= 0 {
        Ok(
            BindState {
                resolved: Seq::new(info.fields@.len(), |k: int| None::<int>),
                positional_open: true,
                next_positional: 0,
            },
        )
    } else {
        match spec_bind_constructor_args(info, args, i - 1) {
            Err(d) => Err(d),
            Ok(st) => {
                let arg = args[i - 1];
                match arg.name {
                    Some(name) => match spec_field_position(info.fields@, name@, 0) {
                        None => Err(
                            constructor_error(
                                "unknown field `"@ + name@ + "` for `"@ + info.name@ + "` constructor"@,
                                arg.span,
                            ),
                        ),
                        Some(k) => if st.resolved[k] is Some {
                            Err(
                                constructor_error(
                                    "duplicate field `"@ + name@ + "` for `"@ + info.name@ + "` constructor"@,
                                    arg.span,
                                ),
                            )
                        } else {
                            Ok(
                                BindState {
                                    resolved: st.resolved.update(k, Some(i - 1)),
                                    positional_open: false,
                                    next_positional: st.next_positional,
                                },
                            )
                        },
                    },
                    None => if !st.positional_open {
                        Err(
                            constructor_error(
                                "positional field argument cannot follow named field argument"@,
                                arg.span,
                            ),
                        )
                    } else {
                        Ok(
                            BindState {
                                resolved: st.resolved.update(st.next_positional, Some(i - 1)),
                                positional_open: true,
                                next_positional: st.next_positional + 1,
                            },
                        )
                    },
                }
            },
        }
    }
}

/// The argument each field of `info` binds to (`None`: left to its default),
/// or the error that stops binding: more arguments than fields, or the first
/// argument that cannot be bound.
pub open spec fn spec_resolve_constructor_args(info: UserTypeInfo, args: Seq<CallArg>, span: Span) -> Result<
    Seq<Option<int>>,
    DiagView,
> {
    if args.len() > info.fields@.len() {
        Err(
            constructor_error(
                "`"@ + info.name@ + ".new` expects "@ + spec_decimal(info.fields@.len()) + " field argument(s), got "@
                    + spec_decimal(args.len()),
                span,
            ),
        )
    } else {
        match spec_bind_constructor_args(info, args, args.len() as int) {
            Ok(st) => Ok(st.resolved),
            Err(d) => Err(d),
        }
    }
}

pub open spec fn opt_indices_view(v: Seq<Option<usize>>) -> Seq<Option<int>> {
    v.map_values(|o: Option<usize>| match o {
        Some(x) => Some(x as int),
        None => None,
    })
}

proof fn lemma_field_position_in_range(fields: Seq<UserTypeFieldInfo>, name: Seq<char>, k: int)
    requires
        0 <= k,
    ensures
        spec_field_position(fields, name, k) matches Some(p) ==> k <= p < fields.len(),
    decreases fields.len() - k,
{
    if 0 <= k < fields.len() && fields[k].name@ != name {
        lemma_field_position_in_range(fields, name, k + 1);
    }
}

proof fn lemma_positional_prefix(info: UserTypeInfo, args: Seq<CallArg>, i: int)
    requires
        0 <= i <= args.len(),
        args.len() <= info.fields@.len(),
        spec_bind_constructor_args(info, args, i) is Ok,
    ensures
        spec_bind_constructor_args(info, args, i) matches Ok(st) && st.resolved.len() == info.fields@.len()
            && 0 <= st.next_positional <= i,
    decreases i,
{
    if i > 0 {
        lemma_positional_prefix(info, args, i - 1);
        if let Some(name) = args[i - 1].name {
            lemma_field_position_in_range(info.fields@, name@, 0);
        }
    }
}

proof fn lemma_bind_error_persists(info: UserTypeInfo, args: Seq<CallArg>, i: int, j: int, d: DiagView)
    requires
        0 <= i <= j,
        spec_bind_constructor_args(info, args, i) == Err::<BindState, DiagView>(d),
    ensures
        spec_bind_constructor_args(info, args, j) == Err::<BindState, DiagView>(d),
    decreases j - i,
{
    if i < j {
        lemma_bind_error_persists(info, args, i, j - 1, d);
    }
}

fn field_position(fields: &Vec<UserTypeFieldInfo>, name: &str) -> (r: Option<usize>)
    ensures
        match r {
            Some(k) => spec_field_position(fields@, name@, 0) == Some(k as int) && k < fields@.len(),
            None => spec_field_position(fields@, name@, 0) is None,
        },
{
    let n = fields.len();
    let mut k: usize = 0;
    while k < n
        invariant
            n == fields@.len(),
            k <= n,
            spec_field_position(fields@, name@, 0) == spec_field_position(fields@, name@, k as int),
        decreases n - k,
    {
        if str_eq(fields[k].name.as_str(), name) {
            return Some(k);
        }
        k = k + 1;
    }
    None
}

/// Binds the arguments of a constructor of `info` to its fields (see
/// `spec_resolve_constructor_args`), reporting what stops the binding at
/// `span` or at the argument at fault.
pub fn resolve_constructor_args(
    info: &UserTypeInfo,
    args: &[CallArg],
    span: Span,
    diagnostics: &mut Vec<Diagnostic>,
) -> (r: Option<Vec<Option<usize>>>)
    ensures
        match spec_resolve_constructor_args(*info, args@, span) {
            Ok(resolved) => r matches Some(v) && opt_indices_view(v@) == resolved && diags_view(
                final(diagnostics)@,
            ) == diags_view(old(diagnostics)@),
            Err(d) => r is None && diags_view(final(diagnostics)@) == diags_view(old(diagnostics)@)
                + seq![d],
        },
{
    let n_fields = info.fields.len();
    if args.len() > n_fields {
        let s = String::from_str("`");
        let s = s.concat(info.name.as_str());
        let s = s.concat(".new` expects ");
        let s = s.concat(decimal(n_fields).as_str());
        let s = s.concat(" field argument(s), got ");
        let s = s.concat(decimal(args.len()).as_str());
        push_error(diagnostics, "E_UDT_CONSTRUCTOR_ARG", s, span);
        return None;
    }
    let mut resolved: Vec<Option<usize>> = Vec::new();
    let mut k: usize = 0;
    while k < n_fields
        invariant
            n_fields == info.fields@.len(),
            k <= n_fields,
            resolved@.len() == k,
            forall|j: int| 0 <= j < k ==> resolved@[j] is None,
        decreases n_fields - k,
    {
        resolved.push(None);
        k = k + 1;
    }
    assert(opt_indices_view(resolved@) =~= Seq::new(info.fields@.len(), |k: int| None::<int>));
    let mut positional_open = true;
    let mut next_positional: usize = 0;
    let n = args.len();
    let mut i: usize = 0;
    while i < n
        invariant
            n == args@.len(),
            n <= n_fields,
            n_fields == info.fields@.len(),
            i <= n,
            diags_view(diagnostics@) == diags_view(old(diagnostics)@),
            spec_bind_constructor_args(*info, args@, i as int) matches Ok(st) && opt_indices_view(resolved@)
                == st.resolved && st.positional_open == positional_open && st.next_positional
                == next_positional as int,
        decreases n - i,
    {
        proof {
            lemma_positional_prefix(*info, args@, i as int);
        }
        let arg = &args[i];
        match &arg.name {
            Some(name) => {
                let k = match field_position(&info.fields, name.as_str()) {
                    Some(k) => k,
                    None => {
                        let s = String::from_str("unknown field `");
                        let s = s.concat(name.as_str());
                        let s = s.concat("` for `");
                        let s = s.concat(info.name.as_str());
                        let s = s.concat("` constructor");
                        push_error(diagnostics, "E_UDT_CONSTRUCTOR_ARG", s, arg.span);
                        proof {
                            let d = error_view("E_UDT_CONSTRUCTOR_ARG"@, s@, arg.span);
                            assert(spec_bind_constructor_args(*info, args@, (i + 1) as int) == Err::<BindState, DiagView>(d));
                            lemma_bind_error_persists(*info, args@, (i + 1) as int, n as int, d);
                        }
                        return None;
                    },
                };
                if resolved[k].is_some() {
                    let s = String::from_str("duplicate field `");
                    let s = s.concat(name.as_str());
                    let s = s.concat("` for `");
                    let s = s.concat(info.name.as_str());
                    let s = s.concat("` constructor");
                    push_error(diagnostics, "E_UDT_CONSTRUCTOR_ARG", s, arg.span);
                    proof {
                        let d = error_view("E_UDT_CONSTRUCTOR_ARG"@, s@, arg.span);
                        assert(spec_bind_constructor_args(*info, args@, (i + 1) as int) == Err::<BindState, DiagView>(d));
                        lemma_bind_error_persists(*info, args@, (i + 1) as int, n as int, d);
                    }
                    return None;
                }
                let ghost before = resolved@;
                resolved.set(k, Some(i));
                assert(opt_indices_view(resolved@) =~= opt_indices_view(before).update(k as int, Some(i as int)));
                positional_open = false;
            },
            None => {
                if !positional_open {
                    push_error(
                        diagnostics,
                        "E_UDT_CONSTRUCTOR_ARG",
                        String::from_str("positional field argument cannot follow named field argument"),
                        arg.span,
                    );
                    proof {
                        let d = error_view(
                            "E_UDT_CONSTRUCTOR_ARG"@,
                            "positional field argument cannot follow named field argument"@,
                            arg.span,
                        );
                        assert(spec_bind_constructor_args(*info, args@, (i + 1) as int) == Err::<BindState, DiagView>(d));
                        lemma_bind_error_persists(*info, args@, (i + 1) as int, n as int, d);
                    }
                    return None;
                }
                let ghost before = resolved@;
                resolved.set(next_positional, Some(i));
                assert(opt_indices_view(resolved@) =~= opt_indices_view(before).update(
                    next_positional as int,
                    Some(i as int),
                ));
                next_positional = next_positional + 1;
            },
        }
        i = i + 1;
    }
    Some(resolved)
}

/// The argument-to-field map of a binding: every one of the first `i`
/// arguments binds exactly one field, and no field binds any other.
pub open spec fn binds_each_arg_once(resolved: Seq<Option<int>>, i: int) -> bool {
    &&& forall|k: int| 0 <= k < resolved.len() && (#[trigger] resolved[k]) is Some ==> 0 <= resolved[k].unwrap() < i
    &&& forall|k1: int, k2: int|
        0 <= k1 < resolved.len() && 0 <= k2 < resolved.len() && k1 != k2 && (#[trigger] resolved[k1]) is Some
            ==> resolved[k1] != #[trigger] resolved[k2]
    &&& forall|j: int| 0 <= j < i ==> #[trigger] arg_is_bound(resolved, j)
}

/// Some field binds argument `j`.
pub open spec fn arg_is_bound(resolved: Seq<Option<int>>, j: int) -> bool {
    exists|k: int| 0 <= k < resolved.len() && #[trigger] resolved[k] == Some(j)
}

/// The binding state after `i` arguments, where binding has not failed.
pub open spec fn bound_state(info: UserTypeInfo, args: Seq<CallArg>, i: int) -> BindState {
    match spec_bind_constructor_args(info, args, i) {
        Ok(st) => st,
        Err(_) => BindState { resolved: Seq::empty(), positional_open: false, next_positional: 0 },
    }
}

proof fn lemma_binding_prefix(info: UserTypeInfo, args: Seq<CallArg>, i: int)
    requires
        0 <= i <= args.len(),
        args.len() <= info.fields@.len(),
        spec_bind_constructor_args(info, args, i) is Ok,
    ensures
        spec_bind_constructor_args(info, args, i) matches Ok(st) && binds_each_arg_once(st.resolved, i)
            && (st.positional_open ==> forall|k: int| 0 <= k < st.resolved.len() ==> ((#[trigger] st.resolved[k]) is Some <==> k < st.next_positional))
            && (st.positional_open ==> st.next_positional == i),
    decreases i,
{
    lemma_positional_prefix(info, args, i);
    if i > 0 {
        lemma_binding_prefix(info, args, i - 1);
        lemma_positional_prefix(info, args, i - 1);
        let st = bound_state(info, args, i - 1);
        let nst = bound_state(info, args, i);
        let r = st.resolved;
        let nr = nst.resolved;
        match args[i - 1].name {
            Some(name) => {
                lemma_field_position_in_range(info.fields@, name@, 0);
                let k = spec_field_position(info.fields@, name@, 0).unwrap();
                assert(nr == r.update(k, Some(i - 1)));
                assert forall|j: int| 0 <= j < i implies #[trigger] arg_is_bound(nr, j) by {
                    if j == i - 1 {
                        assert(nr[k] == Some(j));
                    } else {
                        assert(arg_is_bound(r, j));
                        let q = choose|q: int| 0 <= q < r.len() && #[trigger] r[q] == Some(j);
                        assert(q != k);
                        assert(nr[q] == Some(j));
                    }
                }
            },
            None => {
                let p = st.next_positional;
                assert(nr == r.update(p, Some(i - 1)));
                assert(p < r.len());
                assert forall|j: int| 0 <= j < i implies #[trigger] arg_is_bound(nr, j) by {
                    if j == i - 1 {
                        assert(nr[p] == Some(j));
                    } else {
                        assert(arg_is_bound(r, j));
                        let q = choose|q: int| 0 <= q < r.len() && #[trigger] r[q] == Some(j);
                        assert(q != p);
                        assert(nr[q] == Some(j));
                    }
                }
            },
        }
    }
}

/// A constructor binding that succeeds gives every argument exactly one
/// field, and every bound field one of the arguments.
pub proof fn lemma_constructor_binding_uses_each_arg_once(info: UserTypeInfo, args: Seq<CallArg>, span: Span)
    requires
        spec_resolve_constructor_args(info, args, span) is Ok,
    ensures
        spec_resolve_constructor_args(info, args, span) matches Ok(resolved) && resolved.len() == info.fields@.len()
            && binds_each_arg_once(resolved, args.len() as int),
{
    assert(args.len() <= info.fields@.len());
    lemma_positional_prefix(info, args, args.len() as int);
    lemma_binding_prefix(info, args, args.len() as int);
}

} // verus!
