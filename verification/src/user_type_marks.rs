//! Which user-defined type each symbol and expression carries, with the
//! identity of that type: the tables the analysis marks as it types
//! constructors, field accesses and arrays, and reads back by span or by
//! symbol.
use vstd::prelude::*;

use crate::strings::{opt_string_view, str_eq};
use crate::syntax::{Expr, ExprKind, Span};
use crate::user_types::{find_user_type, spec_find_user_type, UserTypeIdentity, UserTypeInfo};

verus! {

/// The user-defined types marked on symbols (by symbol id) and on
/// expressions (by span); a later mark of the same symbol or span replaces
/// an earlier one.
pub struct UserTypeMarks {
    pub symbol_user_types: Vec<(u32, String)>,
    pub symbol_user_type_identities: Vec<(u32, UserTypeIdentity)>,
    pub symbol_user_type_arrays: Vec<(u32, String)>,
    pub expr_user_types: Vec<(Span, String)>,
    pub expr_user_type_identities: Vec<(Span, UserTypeIdentity)>,
    pub expr_user_type_arrays: Vec<(Span, String)>,
}

/// An identity as plain values: (source index, name).
pub type IdentityView = (u32, Seq<char>);

pub open spec fn identity_view(i: UserTypeIdentity) -> IdentityView {
    (i.source_id.index, i.name@)
}

/// The value of the latest mark of `k`.
pub open spec fn latest_name<K>(s: Seq<(K, String)>, k: K) -> Option<Seq<char>>
    decreases s.len(),
{
    if s.len() == 0 {
        None
    } else if s.last().0 == k {
        Some(s.last().1@)
    } else {
        latest_name(s.drop_last(), k)
    }
}

pub open spec fn latest_identity<K>(s: Seq<(K, UserTypeIdentity)>, k: K) -> Option<IdentityView>
    decreases s.len(),
{
    if s.len() == 0 {
        None
    } else if s.last().0 == k {
        Some(identity_view(s.last().1))
    } else {
        latest_identity(s.drop_last(), k)
    }
}

/// The identity of the local user-defined type named `name`.
pub open spec fn spec_identity_for_name(types: Seq<UserTypeInfo>, name: Seq<char>) -> Option<IdentityView> {
    match spec_find_user_type(types, name) {
        Some(k) => Some(identity_view(types[k].identity)),
        None => None,
    }
}

pub open spec fn opt_identity_view(o: Option<UserTypeIdentity>) -> Option<IdentityView> {
    match o {
        Some(i) => Some(identity_view(i)),
        None => None,
    }
}

fn copy_identity(i: &UserTypeIdentity) -> (r: UserTypeIdentity)
    ensures
        identity_view(r) == identity_view(*i),
{
    UserTypeIdentity { source_id: i.source_id, name: i.name.clone() }
}

/// The identity of the local user-defined type named `udt_name`.
pub fn user_type_identity_for_name(user_types: &[UserTypeInfo], udt_name: &str) -> (r: Option<UserTypeIdentity>)
    ensures
        opt_identity_view(r) == spec_identity_for_name(user_types@, udt_name@),
{
    match find_user_type(user_types, udt_name) {
        Some(info) => Some(copy_identity(&info.identity)),
        None => None,
    }
}

fn latest_name_by_span(s: &Vec<(Span, String)>, k: Span) -> (r: Option<String>)
    ensures
        opt_string_view(r) == latest_name(s@, k),
{
    let mut i: usize = s.len();
    assert(s@.take(s@.len() as int) =~= s@);
    while i > 0
        invariant
            i <= s@.len(),
            latest_name(s@, k) == latest_name(s@.take(i as int), k),
        decreases i,
    {
        assert(s@.take((i - 1) as int) =~= s@.take(i as int).drop_last());
        if s[i - 1].0 == k {
            return Some(s[i - 1].1.clone());
        }
        i = i - 1;
    }
    None
}

fn latest_name_by_symbol(s: &Vec<(u32, String)>, k: u32) -> (r: Option<String>)
    ensures
        opt_string_view(r) == latest_name(s@, k),
{
    let mut i: usize = s.len();
    assert(s@.take(s@.len() as int) =~= s@);
    while i > 0
        invariant
            i <= s@.len(),
            latest_name(s@, k) == latest_name(s@.take(i as int), k),
        decreases i,
    {
        assert(s@.take((i - 1) as int) =~= s@.take(i as int).drop_last());
        if s[i - 1].0 == k {
            return Some(s[i - 1].1.clone());
        }
        i = i - 1;
    }
    None
}

fn latest_identity_by_span(s: &Vec<(Span, UserTypeIdentity)>, k: Span) -> (r: Option<UserTypeIdentity>)
    ensures
        opt_identity_view(r) == latest_identity(s@, k),
{
    let mut i: usize = s.len();
    assert(s@.take(s@.len() as int) =~= s@);
    while i > 0
        invariant
            i <= s@.len(),
            latest_identity(s@, k) == latest_identity(s@.take(i as int), k),
        decreases i,
    {
        assert(s@.take((i - 1) as int) =~= s@.take(i as int).drop_last());
        if s[i - 1].0 == k {
            return Some(copy_identity(&s[i - 1].1));
        }
        i = i - 1;
    }
    None
}

fn latest_identity_by_symbol(s: &Vec<(u32, UserTypeIdentity)>, k: u32) -> (r: Option<UserTypeIdentity>)
    ensures
        opt_identity_view(r) == latest_identity(s@, k),
{
    let mut i: usize = s.len();
    assert(s@.take(s@.len() as int) =~= s@);
    while i > 0
        invariant
            i <= s@.len(),
            latest_identity(s@, k) == latest_identity(s@.take(i as int), k),
        decreases i,
    {
        assert(s@.take((i - 1) as int) =~= s@.take(i as int).drop_last());
        if s[i - 1].0 == k {
            return Some(copy_identity(&s[i - 1].1));
        }
        i = i - 1;
    }
    None
}

impl UserTypeMarks {
    /// No marks.
    pub fn new() -> (r: UserTypeMarks)
        ensures
            r.symbol_user_types@.len() == 0,
            r.symbol_user_type_identities@.len() == 0,
            r.symbol_user_type_arrays@.len() == 0,
            r.expr_user_types@.len() == 0,
            r.expr_user_type_identities@.len() == 0,
            r.expr_user_type_arrays@.len() == 0,
    {
        UserTypeMarks {
            symbol_user_types: Vec::new(),
            symbol_user_type_identities: Vec::new(),
            symbol_user_type_arrays: Vec::new(),
            expr_user_types: Vec::new(),
            expr_user_type_identities: Vec::new(),
            expr_user_type_arrays: Vec::new(),
        }
    }
}

/// Marks the expression at `span` as of the user-defined type `udt_name`,
/// and, where it is a local type, with that type's identity.
pub fn mark_expr_user_type(marks: &mut UserTypeMarks, user_types: &[UserTypeInfo], span: Span, udt_name: String)
    ensures
        latest_name(final(marks).expr_user_types@, span) == Some(udt_name@),
        forall|other: Span| other != span ==> latest_name(final(marks).expr_user_types@, other) == latest_name(
            old(marks).expr_user_types@,
            other,
        ),
        latest_identity(final(marks).expr_user_type_identities@, span) == match spec_identity_for_name(
            user_types@,
            udt_name@,
        ) {
            Some(i) => Some(i),
            None => latest_identity(old(marks).expr_user_type_identities@, span),
        },
        final(marks).symbol_user_types == old(marks).symbol_user_types,
        final(marks).symbol_user_type_identities == old(marks).symbol_user_type_identities,
        final(marks).symbol_user_type_arrays == old(marks).symbol_user_type_arrays,
        final(marks).expr_user_type_arrays == old(marks).expr_user_type_arrays,
{
    let identity = user_type_identity_for_name(user_types, udt_name.as_str());
    let ghost before = marks.expr_user_types@;
    marks.expr_user_types.push((span, udt_name));
    assert(marks.expr_user_types@.drop_last() =~= before);
    if let Some(identity) = identity {
        let ghost b = marks.expr_user_type_identities@;
        marks.expr_user_type_identities.push((span, identity));
        assert(marks.expr_user_type_identities@.drop_last() =~= b);
    }
}

/// Marks the expression at `span` as an array of the user-defined type
/// `udt_name`.
pub fn mark_expr_user_type_array(marks: &mut UserTypeMarks, span: Span, udt_name: String)
    ensures
        latest_name(final(marks).expr_user_type_arrays@, span) == Some(udt_name@),
        forall|other: Span| other != span ==> latest_name(final(marks).expr_user_type_arrays@, other)
            == latest_name(old(marks).expr_user_type_arrays@, other),
        final(marks).symbol_user_types == old(marks).symbol_user_types,
        final(marks).symbol_user_type_identities == old(marks).symbol_user_type_identities,
        final(marks).symbol_user_type_arrays == old(marks).symbol_user_type_arrays,
        final(marks).expr_user_types == old(marks).expr_user_types,
        final(marks).expr_user_type_identities == old(marks).expr_user_type_identities,
{
    let ghost before = marks.expr_user_type_arrays@;
    marks.expr_user_type_arrays.push((span, udt_name));
    assert(marks.expr_user_type_arrays@.drop_last() =~= before);
}

/// Marks symbol `symbol_id` as of the user-defined type `udt_name`, and,
/// where it is a local type, with that type's identity.
pub fn mark_symbol_id_user_type(
    marks: &mut UserTypeMarks,
    user_types: &[UserTypeInfo],
    symbol_id: u32,
    udt_name: String,
)
    ensures
        latest_name(final(marks).symbol_user_types@, symbol_id) == Some(udt_name@),
        forall|other: u32| other != symbol_id ==> latest_name(final(marks).symbol_user_types@, other)
            == latest_name(old(marks).symbol_user_types@, other),
        latest_identity(final(marks).symbol_user_type_identities@, symbol_id) == match spec_identity_for_name(
            user_types@,
            udt_name@,
        ) {
            Some(i) => Some(i),
            None => latest_identity(old(marks).symbol_user_type_identities@, symbol_id),
        },
        final(marks).symbol_user_type_arrays == old(marks).symbol_user_type_arrays,
        final(marks).expr_user_types == old(marks).expr_user_types,
        final(marks).expr_user_type_identities == old(marks).expr_user_type_identities,
        final(marks).expr_user_type_arrays == old(marks).expr_user_type_arrays,
{
    let identity = user_type_identity_for_name(user_types, udt_name.as_str());
    let ghost before = marks.symbol_user_types@;
    marks.symbol_user_types.push((symbol_id, udt_name));
    assert(marks.symbol_user_types@.drop_last() =~= before);
    if let Some(identity) = identity {
        let ghost b = marks.symbol_user_type_identities@;
        marks.symbol_user_type_identities.push((symbol_id, identity));
        assert(marks.symbol_user_type_identities@.drop_last() =~= b);
    }
}

/// Marks the symbol `symbol_id` as of the user-defined type `udt_name` (see
/// `mark_symbol_id_user_type`).
pub fn mark_symbol_user_type(marks: &mut UserTypeMarks, user_types: &[UserTypeInfo], symbol_id: u32, udt_name: String)
    ensures
        latest_name(final(marks).symbol_user_types@, symbol_id) == Some(udt_name@),
        forall|other: u32| other != symbol_id ==> latest_name(final(marks).symbol_user_types@, other)
            == latest_name(old(marks).symbol_user_types@, other),
        latest_identity(final(marks).symbol_user_type_identities@, symbol_id) == match spec_identity_for_name(
            user_types@,
            udt_name@,
        ) {
            Some(i) => Some(i),
            None => latest_identity(old(marks).symbol_user_type_identities@, symbol_id),
        },
        final(marks).symbol_user_type_arrays == old(marks).symbol_user_type_arrays,
        final(marks).expr_user_types == old(marks).expr_user_types,
        final(marks).expr_user_type_identities == old(marks).expr_user_type_identities,
        final(marks).expr_user_type_arrays == old(marks).expr_user_type_arrays,
{
    mark_symbol_id_user_type(marks, user_types, symbol_id, udt_name);
}

/// Marks symbol `symbol_id` as an array of the user-defined type `udt_name`.
pub fn mark_symbol_user_type_array(marks: &mut UserTypeMarks, symbol_id: u32, udt_name: String)
    ensures
        latest_name(final(marks).symbol_user_type_arrays@, symbol_id) == Some(udt_name@),
        forall|other: u32| other != symbol_id ==> latest_name(final(marks).symbol_user_type_arrays@, other)
            == latest_name(old(marks).symbol_user_type_arrays@, other),
        final(marks).symbol_user_types == old(marks).symbol_user_types,
        final(marks).symbol_user_type_identities == old(marks).symbol_user_type_identities,
        final(marks).expr_user_types == old(marks).expr_user_types,
        final(marks).expr_user_type_identities == old(marks).expr_user_type_identities,
        final(marks).expr_user_type_arrays == old(marks).expr_user_type_arrays,
{
    let ghost before = marks.symbol_user_type_arrays@;
    marks.symbol_user_type_arrays.push((symbol_id, udt_name));
    assert(marks.symbol_user_type_arrays@.drop_last() =~= before);
}

/// The user-defined type marked on the expression's span.
pub fn expr_user_type_name(marks: &UserTypeMarks, expr: &Expr) -> (r: Option<String>)
    ensures
        opt_string_view(r) == latest_name(marks.expr_user_types@, expr.span),
{
    latest_name_by_span(&marks.expr_user_types, expr.span)
}

/// The identity of the user-defined type marked on the expression's span.
pub fn expr_user_type_identity(marks: &UserTypeMarks, expr: &Expr) -> (r: Option<UserTypeIdentity>)
    ensures
        opt_identity_view(r) == latest_identity(marks.expr_user_type_identities@, expr.span),
{
    latest_identity_by_span(&marks.expr_user_type_identities, expr.span)
}

/// The element type of the user-defined type array marked on the
/// expression's span.
pub fn expr_user_type_array_name(marks: &UserTypeMarks, expr: &Expr) -> (r: Option<String>)
    ensures
        opt_string_view(r) == latest_name(marks.expr_user_type_arrays@, expr.span),
{
    latest_name_by_span(&marks.expr_user_type_arrays, expr.span)
}

/// The user-defined type marked on symbol `symbol_id`.
pub fn symbol_user_type_name(marks: &UserTypeMarks, symbol_id: u32) -> (r: Option<String>)
    ensures
        opt_string_view(r) == latest_name(marks.symbol_user_types@, symbol_id),
{
    latest_name_by_symbol(&marks.symbol_user_types, symbol_id)
}

/// The identity of the user-defined type marked on symbol `symbol_id`.
pub fn symbol_user_type_identity(marks: &UserTypeMarks, symbol_id: u32) -> (r: Option<UserTypeIdentity>)
    ensures
        opt_identity_view(r) == latest_identity(marks.symbol_user_type_identities@, symbol_id),
{
    latest_identity_by_symbol(&marks.symbol_user_type_identities, symbol_id)
}

/// The symbol a name resolves to in `scope` (names with their symbol ids,
/// innermost last): its latest binding.
pub open spec fn spec_resolve(scope: Seq<(String, u32)>, name: Seq<char>) -> Option<u32>
    decreases scope.len(),
{
    if scope.len() == 0 {
        None
    } else if scope.last().0@ == name {
        Some(scope.last().1)
    } else {
        spec_resolve(scope.drop_last(), name)
    }
}

fn resolve(scope: &[(String, u32)], name: &str) -> (r: Option<u32>)
    ensures
        r == spec_resolve(scope@, name@),
{
    let mut i: usize = scope.len();
    assert(scope@.take(scope@.len() as int) =~= scope@);
    while i > 0
        invariant
            i <= scope@.len(),
            spec_resolve(scope@, name@) == spec_resolve(scope@.take(i as int), name@),
        decreases i,
    {
        assert(scope@.take((i - 1) as int) =~= scope@.take(i as int).drop_last());
        if str_eq(scope[i - 1].0.as_str(), name) {
            return Some(scope[i - 1].1);
        }
        i = i - 1;
    }
    None
}

/// The element type of the user-defined type array an expression gives:
/// the one marked on its span; else, for a name, the one marked on the
/// symbol it resolves to in `scope`; for a history reference, that of its
/// series.
pub open spec fn spec_user_type_array_name_of_expr(marks: UserTypeMarks, scope: Seq<(String, u32)>, e: Expr) -> Option<
    Seq<char>,
>
    decreases e,
{
    match latest_name(marks.expr_user_type_arrays@, e.span) {
        Some(n) => Some(n),
        None => match e.kind {
            ExprKind::Identifier(name) => match spec_resolve(scope, name@) {
                Some(id) => latest_name(marks.symbol_user_type_arrays@, id),
                None => None,
            },
            ExprKind::QualifiedName(parts) => if parts@.len() == 1 {
                match spec_resolve(scope, parts@[0]@) {
                    Some(id) => latest_name(marks.symbol_user_type_arrays@, id),
                    None => None,
                }
            } else {
                None
            },
            ExprKind::History { expr, .. } => spec_user_type_array_name_of_expr(marks, scope, *expr),
            _ => None,
        },
    }
}

/// The element type of the user-defined type array an expression gives
/// (see `spec_user_type_array_name_of_expr`).
pub fn user_type_array_name_of_expr(marks: &UserTypeMarks, scope: &[(String, u32)], expr: &Expr) -> (r: Option<
    String,
>)
    ensures
        opt_string_view(r) == spec_user_type_array_name_of_expr(*marks, scope@, *expr),
    decreases *expr,
{
    if let Some(n) = expr_user_type_array_name(marks, expr) {
        return Some(n);
    }
    match &expr.kind {
        ExprKind::Identifier(name) => match resolve(scope, name.as_str()) {
            Some(id) => latest_name_by_symbol(&marks.symbol_user_type_arrays, id),
            None => None,
        },
        ExprKind::QualifiedName(parts) => {
            if parts.len() == 1 {
                match resolve(scope, parts[0].as_str()) {
                    Some(id) => latest_name_by_symbol(&marks.symbol_user_type_arrays, id),
                    None => None,
                }
            } else {
                None
            }
        },
        ExprKind::History { expr: inner, .. } => user_type_array_name_of_expr(marks, scope, inner),
        _ => None,
    }
}

} // verus!
