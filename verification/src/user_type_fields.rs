//! Fields of the script's own user-defined types: looking a field up,
//! walking a path of fields through nested types, and the field types a
//! declaration may name.
use vstd::prelude::*;
use vstd::string::*;

use crate::strings::{opt_string_view, str_eq};
use crate::syntax::{
    diags_view, error_view, push_error, spec_merge_spans, DiagView, Diagnostic, Span, Stmt, StmtKind,
    UserTypeDecl, UserTypeFieldDecl,
};
use crate::types::{PineType, Qualifier, ValueKind};
use crate::user_types::{
    find_user_type, spec_find_user_type, SourceId, UserTypeFieldInfo, UserTypeIdentity, UserTypeInfo,
};

verus! {

/// One step of a field path: the field's position in its type and the type
/// it has there.
#[derive(Clone, Copy, Debug, PartialEq, Eq, Structural)]
pub struct UdtFieldAccessStep {
    pub index: usize,
    pub pine_type: PineType,
}

/// The position of the first field named `name`.
pub open spec fn spec_field_index_from(fields: Seq<UserTypeFieldInfo>, name: Seq<char>, i: int) -> Option<int>
    decreases fields.len() - i,
{
    if i < 0 || i >= fields.len() {
        None
    } else if fields[i].name@ == name {
        Some(i)
    } else {
        spec_field_index_from(fields, name, i + 1)
    }
}

/// The field `field_name` of the type `udt_name`: its position and itself.
pub open spec fn spec_user_type_field(
    types: Seq<UserTypeInfo>,
    udt_name: Seq<char>,
    field_name: Seq<char>,
) -> Option<(int, UserTypeFieldInfo)> {
    match spec_find_user_type(types, udt_name) {
        Some(k) => match spec_field_index_from(types[k].fields@, field_name, 0) {
            Some(i) => Some((i, types[k].fields@[i])),
            None => None,
        },
        None => None,
    }
}

proof fn lemma_field_index_from(fields: Seq<UserTypeFieldInfo>, name: Seq<char>, i: int)
    requires
        0 <= i,
    ensures
        spec_field_index_from(fields, name, i) matches Some(k) ==> i <= k < fields.len()
            && fields[k].name@ == name,
    decreases fields.len() - i,
{
    if i < fields.len() && fields[i].name@ != name {
        lemma_field_index_from(fields, name, i + 1);
    }
}

/// The field `field_name` of the user-defined type `udt_name`, with its
/// position among the type's fields.
pub fn user_type_field<'a>(user_types: &'a [UserTypeInfo], udt_name: &str, field_name: &str) -> (r:
    Option<(usize, &'a UserTypeFieldInfo)>)
    ensures
        match r {
            Some((i, f)) => spec_user_type_field(user_types@, udt_name@, field_name@) == Some(
                (i as int, *f),
            ),
            None => spec_user_type_field(user_types@, udt_name@, field_name@) is None,
        },
{
    let info = match find_user_type(user_types, udt_name) {
        Some(info) => info,
        None => return None,
    };
    let n = info.fields.len();
    let mut i: usize = 0;
    while i < n
        invariant
            n == info.fields@.len(),
            i <= n,
            spec_find_user_type(user_types@, udt_name@) matches Some(k) && *info == user_types@[k],
            spec_field_index_from(info.fields@, field_name@, 0) == spec_field_index_from(
                info.fields@,
                field_name@,
                i as int,
            ),
        decreases n - i,
    {
        if str_eq(info.fields[i].name.as_str(), field_name) {
            assert(spec_field_index_from(info.fields@, field_name@, i as int) == Some(i as int));
            return Some((i, &info.fields[i]));
        }
        i = i + 1;
    }
    None
}

/// A field path's result: the last field's type and user-defined type name,
/// and the steps taken.
pub type FieldPathView = (PineType, Option<Seq<char>>, Seq<UdtFieldAccessStep>);

pub open spec fn prepend_step(step: UdtFieldAccessStep, rest: Option<FieldPathView>) -> Option<FieldPathView> {
    match rest {
        Some((t, u, steps)) => Some((t, u, seq![step] + steps)),
        None => None,
    }
}

/// The path `names` through fields of nested user-defined types, starting
/// at the type `udt_name`: each field has the receiver's `qualifier` and
/// its own kind; every field but the last must be of a user-defined type.
/// `None` for an empty path or one that leaves the types.
pub open spec fn spec_field_path(
    types: Seq<UserTypeInfo>,
    udt_name: Seq<char>,
    qualifier: Qualifier,
    names: Seq<Seq<char>>,
) -> Option<FieldPathView>
    decreases names.len(),
{
    if names.len() == 0 {
        None
    } else {
        match spec_user_type_field(types, udt_name, names[0]) {
            None => None,
            Some((i, f)) => {
                let t = PineType { qualifier, kind: f.pine_type.kind };
                let step = UdtFieldAccessStep { index: i as usize, pine_type: t };
                if names.len() == 1 {
                    Some((t, opt_string_view(f.user_type_name), seq![step]))
                } else {
                    match f.user_type_name {
                        Some(next) => prepend_step(
                            step,
                            spec_field_path(types, next@, qualifier, names.skip(1)),
                        ),
                        None => None,
                    }
                }
            },
        }
    }
}

pub open spec fn names_view(names: Seq<String>) -> Seq<Seq<char>> {
    names.map_values(|n: String| n@)
}

pub open spec fn path_view(r: Option<(PineType, Option<String>, Vec<UdtFieldAccessStep>)>) -> Option<
    FieldPathView,
> {
    match r {
        Some((t, u, steps)) => Some((t, opt_string_view(u), steps@)),
        None => None,
    }
}

pub open spec fn prepend_steps(steps: Seq<UdtFieldAccessStep>, rest: Option<FieldPathView>) -> Option<FieldPathView> {
    match rest {
        Some((t, u, s)) => Some((t, u, steps + s)),
        None => None,
    }
}

/// The type, user-defined type name and steps of the field path
/// `field_names` from a receiver of the local user-defined type `udt_name`
/// qualified `qualifier`.
pub fn user_type_field_path(
    user_types: &[UserTypeInfo],
    udt_name: &str,
    qualifier: Qualifier,
    field_names: &[String],
) -> (r: Option<(PineType, Option<String>, Vec<UdtFieldAccessStep>)>)
    ensures
        path_view(r) == spec_field_path(user_types@, udt_name@, qualifier, names_view(field_names@)),
{
    let ghost names = names_view(field_names@);
    let n = field_names.len();
    if n == 0 {
        return None;
    }
    let mut steps: Vec<UdtFieldAccessStep> = Vec::new();
    let mut current: String = String::from_str(udt_name);
    let mut i: usize = 0;
    assert(names.skip(0) =~= names);
    assert(steps@ + Seq::<UdtFieldAccessStep>::empty() =~= Seq::<UdtFieldAccessStep>::empty());
    while i < n
        invariant
            n == field_names@.len(),
            names == names_view(field_names@),
            0 < n,
            i < n,
            spec_field_path(user_types@, udt_name@, qualifier, names) == prepend_steps(
                steps@,
                spec_field_path(user_types@, current@, qualifier, names.skip(i as int)),
            ),
        decreases n - i,
    {
        let ghost rest = names.skip(i as int);
        assert(rest[0] == field_names@[i as int]@);
        let (index, field) = match user_type_field(user_types, current.as_str(), field_names[i].as_str()) {
            Some(found) => found,
            None => return None,
        };
        let t = PineType::new(qualifier, field.pine_type.kind);
        let step = UdtFieldAccessStep { index, pine_type: t };
        let ghost before = steps@;
        steps.push(step);
        if i + 1 == n {
            assert(rest.len() == 1);
            assert(before + seq![step] =~= steps@);
            return Some((t, field.user_type_name.clone(), steps));
        }
        let next = match &field.user_type_name {
            Some(next) => next.clone(),
            None => return None,
        };
        assert(rest.skip(1) =~= names.skip((i + 1) as int));
        assert(before + (seq![step] + Seq::<UdtFieldAccessStep>::empty()) =~= steps@);
        proof {
            match spec_field_path(user_types@, next@, qualifier, names.skip((i + 1) as int)) {
                Some((pt, pu, ps)) => {
                    assert(before + (seq![step] + ps) =~= steps@ + ps);
                },
                None => {},
            }
        }
        current = next;
        i = i + 1;
    }
    None
}

pub open spec fn unknown_field_error(field: Seq<char>, owner: Seq<char>, span: Span) -> DiagView {
    error_view("E_UDT_UNKNOWN_FIELD"@, "unknown field `"@ + field + "` on `"@ + owner + "`"@, span)
}

pub open spec fn not_user_type_field_error(field: Seq<char>, owner: Seq<char>, span: Span) -> DiagView {
    error_view(
        "E_UDT_UNKNOWN_FIELD"@,
        "field `"@ + field + "` on `"@ + owner + "` is not a user-defined type"@,
        span,
    )
}

/// What is wrong with the field path `names` from the type `udt_name`, if
/// anything: the first field that its type does not have, or the first
/// field before the last that is not of a user-defined type.
pub open spec fn spec_field_path_error(
    types: Seq<UserTypeInfo>,
    udt_name: Seq<char>,
    names: Seq<Seq<char>>,
    span: Span,
) -> Option<DiagView>
    decreases names.len(),
{
    if names.len() == 0 {
        None
    } else {
        match spec_user_type_field(types, udt_name, names[0]) {
            None => Some(unknown_field_error(names[0], udt_name, span)),
            Some((_, f)) => if names.len() == 1 {
                None
            } else {
                match f.user_type_name {
                    Some(next) => spec_field_path_error(types, next@, names.skip(1), span),
                    None => Some(not_user_type_field_error(names[0], udt_name, span)),
                }
            },
        }
    }
}

/// Walks the field path `field_names` from the type `udt_name`, reporting at
/// `span` the first field that does not resolve; gives the path where every
/// field does.
pub fn resolve_user_type_field_path(
    user_types: &[UserTypeInfo],
    udt_name: &str,
    qualifier: Qualifier,
    field_names: &[String],
    span: Span,
    diagnostics: &mut Vec<Diagnostic>,
) -> (r: Option<(PineType, Option<String>, Vec<UdtFieldAccessStep>)>)
    ensures
        path_view(r) == if spec_field_path_error(user_types@, udt_name@, names_view(field_names@), span) is Some {
            None
        } else {
            spec_field_path(user_types@, udt_name@, qualifier, names_view(field_names@))
        },
        diags_view(final(diagnostics)@) == diags_view(old(diagnostics)@) + match spec_field_path_error(
            user_types@,
            udt_name@,
            names_view(field_names@),
            span,
        ) {
            Some(d) => seq![d],
            None => Seq::<DiagView>::empty(),
        },
{
    let ghost names = names_view(field_names@);
    let ghost d0 = diags_view(diagnostics@);
    let n = field_names.len();
    let mut current: String = String::from_str(udt_name);
    let mut i: usize = 0;
    assert(names.skip(0) =~= names);
    while i < n
        invariant
            n == field_names@.len(),
            names == names_view(field_names@),
            i <= n,
            diags_view(diagnostics@) == d0,
            d0 == diags_view(old(diagnostics)@),
            spec_field_path_error(user_types@, udt_name@, names, span) == spec_field_path_error(
                user_types@,
                current@,
                names.skip(i as int),
                span,
            ),
        decreases n - i,
    {
        let ghost rest = names.skip(i as int);
        assert(rest.len() == n - i);
        assert(rest[0] == field_names@[i as int]@);
        let field = match user_type_field(user_types, current.as_str(), field_names[i].as_str()) {
            Some((_, field)) => field,
            None => {
                assert(spec_field_path_error(user_types@, current@, rest, span) == Some(
                    unknown_field_error(field_names@[i as int]@, current@, span),
                ));
                let s = String::from_str("unknown field `");
                let s = s.concat(field_names[i].as_str());
                let s = s.concat("` on `");
                let s = s.concat(current.as_str());
                let s = s.concat("`");
                push_error(diagnostics, "E_UDT_UNKNOWN_FIELD", s, span);
                assert(s@ == unknown_field_error(field_names@[i as int]@, current@, span).message);
                assert(diags_view(diagnostics@) =~= d0 + seq![
                    unknown_field_error(field_names@[i as int]@, current@, span),
                ]);
                return None;
            },
        };
        if i + 1 < n {
            let next = match &field.user_type_name {
                Some(next) => next.clone(),
                None => {
                    assert(spec_field_path_error(user_types@, current@, rest, span) == Some(
                        not_user_type_field_error(field_names@[i as int]@, current@, span),
                    ));
                    let s = String::from_str("field `");
                    let s = s.concat(field_names[i].as_str());
                    let s = s.concat("` on `");
                    let s = s.concat(current.as_str());
                    let s = s.concat("` is not a user-defined type");
                    push_error(diagnostics, "E_UDT_UNKNOWN_FIELD", s, span);
                    assert(diags_view(diagnostics@) =~= d0 + seq![
                        not_user_type_field_error(field_names@[i as int]@, current@, span),
                    ]);
                    return None;
                },
            };
            assert(rest.skip(1) =~= names.skip((i + 1) as int));
            current = next;
        } else {
            assert(rest.len() == 1);
            assert(spec_field_path_error(user_types@, current@, rest, span) is None);
        }
        i = i + 1;
    }
    if n == 0 {
        assert(spec_field_path_error(user_types@, udt_name@, names, span) is None);
    }
    assert(d0 =~= d0 + Seq::<DiagView>::empty());
    user_type_field_path(user_types, udt_name, qualifier, field_names)
}

/// The names of the registered types.
pub open spec fn info_names(types: Seq<UserTypeInfo>) -> Seq<Seq<char>> {
    types.map_values(|t: UserTypeInfo| t.name@)
}

/// The type a field declared with type `name` has: the series scalar it
/// names, or a series user-defined type among those `registered`.
pub open spec fn spec_field_type_of(registered: Seq<Seq<char>>, name: Seq<char>) -> Option<
    (PineType, Option<Seq<char>>),
> {
    let series = |kind: ValueKind| PineType { qualifier: Qualifier::Series, kind };
    if name == "int"@ {
        Some((series(ValueKind::Int), None))
    } else if name == "float"@ {
        Some((series(ValueKind::Float), None))
    } else if name == "bool"@ {
        Some((series(ValueKind::Bool), None))
    } else if name == "string"@ {
        Some((series(ValueKind::String), None))
    } else if name == "color"@ {
        Some((series(ValueKind::Color), None))
    } else if registered.contains(name) {
        Some((series(ValueKind::UserType), Some(name)))
    } else {
        None
    }
}

pub open spec fn field_type_error(name: Seq<char>, span: Span) -> DiagView {
    error_view(
        "E_UDT_FIELD_TYPE"@,
        "unsupported or unknown user-defined type field type `"@ + name + "`"@,
        span,
    )
}

pub open spec fn field_type_view(r: Option<(PineType, Option<String>)>) -> Option<(PineType, Option<Seq<char>>)> {
    match r {
        Some((t, u)) => Some((t, opt_string_view(u))),
        None => None,
    }
}

fn is_registered(user_types: &[UserTypeInfo], name: &str) -> (r: bool)
    ensures
        r == info_names(user_types@).contains(name@),
{
    let n = user_types.len();
    let mut i: usize = 0;
    while i < n
        invariant
            n == user_types@.len(),
            i <= n,
            forall|k: int| 0 <= k < i ==> (#[trigger] user_types@[k]).name@ != name@,
        decreases n - i,
    {
        if str_eq(user_types[i].name.as_str(), name) {
            assert(info_names(user_types@)[i as int] == name@);
            return true;
        }
        i = i + 1;
    }
    assert(!info_names(user_types@).contains(name@)) by {
        if info_names(user_types@).contains(name@) {
            let k = choose|k: int| 0 <= k < info_names(user_types@).len() && info_names(user_types@)[k] == name@;
            assert(user_types@[k].name@ == name@);
        }
    }
    false
}

/// The type of a field declared with type `name`; an unknown type is
/// reported at `span`.
pub fn user_type_field_type(
    user_types: &[UserTypeInfo],
    name: &str,
    span: Span,
    diagnostics: &mut Vec<Diagnostic>,
) -> (r: Option<(PineType, Option<String>)>)
    ensures
        field_type_view(r) == spec_field_type_of(info_names(user_types@), name@),
        diags_view(final(diagnostics)@) == diags_view(old(diagnostics)@) + if r is None {
            seq![field_type_error(name@, span)]
        } else {
            Seq::<DiagView>::empty()
        },
{
    let ghost d0 = diags_view(diagnostics@);
    let kind = if str_eq(name, "int") {
        ValueKind::Int
    } else if str_eq(name, "float") {
        ValueKind::Float
    } else if str_eq(name, "bool") {
        ValueKind::Bool
    } else if str_eq(name, "string") {
        ValueKind::String
    } else if str_eq(name, "color") {
        ValueKind::Color
    } else if is_registered(user_types, name) {
        assert(d0 =~= d0 + Seq::<DiagView>::empty());
        return Some((PineType::new(Qualifier::Series, ValueKind::UserType), Some(String::from_str(name))));
    } else {
        let s = String::from_str("unsupported or unknown user-defined type field type `");
        let s = s.concat(name);
        let s = s.concat("`");
        push_error(diagnostics, "E_UDT_FIELD_TYPE", s, span);
        return None;
    };
    assert(d0 =~= d0 + Seq::<DiagView>::empty());
    Some((PineType::new(Qualifier::Series, kind), None))
}

/// A registered field as plain values: (name, type, user-defined type name).
pub type FieldView = (Seq<char>, PineType, Option<Seq<char>>);

/// A registered type as plain values: (identity's source, identity's name,
/// name, fields).
pub type UserTypeView = (u32, Seq<char>, Seq<char>, Seq<FieldView>);

pub open spec fn field_view(f: UserTypeFieldInfo) -> FieldView {
    (f.name@, f.pine_type, opt_string_view(f.user_type_name))
}

pub open spec fn user_type_view(t: UserTypeInfo) -> UserTypeView {
    (t.identity.source_id.index, t.identity.name@, t.name@, t.fields@.map_values(|f: UserTypeFieldInfo| field_view(f)))
}

pub open spec fn user_types_view(s: Seq<UserTypeInfo>) -> Seq<UserTypeView> {
    s.map_values(|t: UserTypeInfo| user_type_view(t))
}

pub open spec fn view_names(v: Seq<UserTypeView>) -> Seq<Seq<char>> {
    v.map_values(|t: UserTypeView| t.2)
}

/// The position of the latest field before `j` with field `j`'s name.
pub open spec fn spec_last_same_name_below(fields: Seq<UserTypeFieldDecl>, j: int, p: int) -> Option<int>
    decreases p,
{
    if p <= 0 {
        None
    } else if fields[p - 1].name@ == fields[j].name@ {
        Some(p - 1)
    } else {
        spec_last_same_name_below(fields, j, p - 1)
    }
}

pub open spec fn duplicate_field_error(field: Seq<char>, owner: Seq<char>, span: Span) -> DiagView {
    error_view("E_UDT_FIELD_DUPLICATE"@, "duplicate field `"@ + field + "` in `"@ + owner + "`"@, span)
}

pub open spec fn duplicate_type_error(name: Seq<char>, span: Span) -> DiagView {
    error_view("E_UDT_DUPLICATE"@, "duplicate user-defined type `"@ + name + "`"@, span)
}

/// The fields the first `j` field declarations of type `owner` register,
/// and what they report: a repeated field name (over the span from its
/// previous declaration), or a field type that is neither a scalar nor a
/// type among `registered`; either way the field is left out.
pub open spec fn spec_register_fields(
    registered: Seq<Seq<char>>,
    owner: Seq<char>,
    fields: Seq<UserTypeFieldDecl>,
    j: int,
) -> (Seq<FieldView>, Seq<DiagView>)
    decreases j,
{
    if j <= 0 {
        (Seq::empty(), Seq::empty())
    } else {
        let (fs, ds) = spec_register_fields(registered, owner, fields, j - 1);
        let f = fields[j - 1];
        match spec_last_same_name_below(fields, j - 1, j - 1) {
            Some(p) => (fs, ds.push(duplicate_field_error(f.name@, owner, spec_merge_spans(fields[p].span, f.span)))),
            None => match spec_field_type_of(registered, f.field_type@) {
                Some((t, u)) => (fs.push((f.name@, t, u)), ds),
                None => (fs, ds.push(field_type_error(f.field_type@, f.span))),
            },
        }
    }
}

/// The types after registering declaration `decl`, and what it reports: a
/// type name already registered is refused; else the type is registered,
/// from the root source, with the fields that register.
pub open spec fn spec_register_decl(v: Seq<UserTypeView>, decl: UserTypeDecl) -> (Seq<UserTypeView>, Seq<DiagView>) {
    if view_names(v).contains(decl.name@) {
        (v, seq![duplicate_type_error(decl.name@, decl.name_span)])
    } else {
        let (fs, ds) = spec_register_fields(view_names(v), decl.name@, decl.fields@, decl.fields@.len() as int);
        (v.push((0u32, decl.name@, decl.name@, fs)), ds)
    }
}

/// The types after registering the type declarations among the first `i`
/// statements, in order, and what they report.
pub open spec fn spec_register_stmts(v: Seq<UserTypeView>, stmts: Seq<Stmt>, i: int) -> (Seq<UserTypeView>, Seq<DiagView>)
    decreases i,
{
    if i <= 0 {
        (v, Seq::empty())
    } else {
        let (v1, d1) = spec_register_stmts(v, stmts, i - 1);
        match stmts[i - 1].kind {
            StmtKind::UserType(decl) => {
                let (v2, d2) = spec_register_decl(v1, decl);
                (v2, d1 + d2)
            },
            _ => (v1, d1),
        }
    }
}

fn last_same_name_before(fields: &Vec<UserTypeFieldDecl>, j: usize) -> (r: Option<usize>)
    requires
        j < fields@.len(),
    ensures
        match r {
            Some(p) => p < j && spec_last_same_name_below(fields@, j as int, j as int) == Some(p as int),
            None => spec_last_same_name_below(fields@, j as int, j as int) is None,
        },
{
    let mut p: usize = j;
    while p > 0
        invariant
            p <= j,
            j < fields@.len(),
            spec_last_same_name_below(fields@, j as int, j as int) == spec_last_same_name_below(
                fields@,
                j as int,
                p as int,
            ),
        decreases p,
    {
        if str_eq(fields[p - 1].name.as_str(), fields[j].name.as_str()) {
            return Some(p - 1);
        }
        p = p - 1;
    }
    None
}

proof fn lemma_names_of_view(s: Seq<UserTypeInfo>)
    ensures
        view_names(user_types_view(s)) == info_names(s),
{
    assert(view_names(user_types_view(s)) =~= info_names(s));
}

fn register_decl(decl: &UserTypeDecl, user_types: &mut Vec<UserTypeInfo>, diagnostics: &mut Vec<Diagnostic>)
    ensures
        user_types_view(final(user_types)@) == spec_register_decl(user_types_view(old(user_types)@), *decl).0,
        diags_view(final(diagnostics)@) == diags_view(old(diagnostics)@) + spec_register_decl(
            user_types_view(old(user_types)@),
            *decl,
        ).1,
{
    let ghost v0 = user_types_view(user_types@);
    let ghost d0 = diags_view(diagnostics@);
    proof {
        lemma_names_of_view(user_types@);
    }
    if is_registered(user_types.as_slice(), decl.name.as_str()) {
        let s = String::from_str("duplicate user-defined type `");
        let s = s.concat(decl.name.as_str());
        let s = s.concat("`");
        push_error(diagnostics, "E_UDT_DUPLICATE", s, decl.name_span);
        return;
    }
    let ghost registered = info_names(user_types@);
    let mut fields: Vec<UserTypeFieldInfo> = Vec::new();
    let n = decl.fields.len();
    let mut j: usize = 0;
    while j < n
        invariant
            n == decl.fields@.len(),
            j <= n,
            registered == info_names(user_types@),
            d0 == diags_view(old(diagnostics)@),
            v0 == user_types_view(user_types@),
            ({
                let (fs, ds) = spec_register_fields(registered, decl.name@, decl.fields@, j as int);
                &&& fields@.map_values(|f: UserTypeFieldInfo| field_view(f)) == fs
                &&& diags_view(diagnostics@) == d0 + ds
            }),
        decreases n - j,
    {
        let ghost before_fields = fields@.map_values(|f: UserTypeFieldInfo| field_view(f));
        let ghost before_diags = diags_view(diagnostics@);
        let field = &decl.fields[j];
        match last_same_name_before(&decl.fields, j) {
            Some(p) => {
                let s = String::from_str("duplicate field `");
                let s = s.concat(field.name.as_str());
                let s = s.concat("` in `");
                let s = s.concat(decl.name.as_str());
                let s = s.concat("`");
                push_error(diagnostics, "E_UDT_FIELD_DUPLICATE", s, decl.fields[p].span.merge(field.span));
            },
            None => {
                match user_type_field_type(user_types.as_slice(), field.field_type.as_str(), field.span, diagnostics) {
                    Some((pine_type, user_type_name)) => {
                        fields.push(UserTypeFieldInfo { name: field.name.clone(), pine_type, user_type_name });
                        assert(fields@.map_values(|f: UserTypeFieldInfo| field_view(f)) =~= before_fields.push(
                            (field.name@, pine_type, opt_string_view(user_type_name)),
                        ));
                        assert(diags_view(diagnostics@) =~= before_diags);
                    },
                    None => {},
                }
            },
        }
        j = j + 1;
    }
    let ghost fs = fields@.map_values(|f: UserTypeFieldInfo| field_view(f));
    let info = UserTypeInfo {
        identity: UserTypeIdentity { source_id: SourceId::root(), name: decl.name.clone() },
        name: decl.name.clone(),
        fields,
    };
    user_types.push(info);
    assert(user_types_view(user_types@) =~= v0.push((0u32, decl.name@, decl.name@, fs)));
}

/// Registers the user-defined types the statements declare, in order, after
/// those already in `user_types` (see `spec_register_stmts`).
pub fn register_user_types(statements: &[Stmt], user_types: &mut Vec<UserTypeInfo>, diagnostics: &mut Vec<Diagnostic>)
    ensures
        ({
            let (v, d) = spec_register_stmts(user_types_view(old(user_types)@), statements@, statements@.len() as int);
            &&& user_types_view(final(user_types)@) == v
            &&& diags_view(final(diagnostics)@) == diags_view(old(diagnostics)@) + d
        }),
{
    let ghost v0 = user_types_view(user_types@);
    let ghost d0 = diags_view(diagnostics@);
    let n = statements.len();
    let mut i: usize = 0;
    assert(d0 =~= d0 + Seq::<DiagView>::empty());
    while i < n
        invariant
            n == statements@.len(),
            i <= n,
            v0 == user_types_view(old(user_types)@),
            d0 == diags_view(old(diagnostics)@),
            ({
                let (v, d) = spec_register_stmts(v0, statements@, i as int);
                &&& user_types_view(user_types@) == v
                &&& diags_view(diagnostics@) == d0 + d
            }),
        decreases n - i,
    {
        let ghost before = diags_view(diagnostics@);
        match &statements[i].kind {
            StmtKind::UserType(decl) => {
                register_decl(decl, user_types, diagnostics);
                proof {
                    let (v1, d1) = spec_register_stmts(v0, statements@, i as int);
                    let (v2, d2) = spec_register_decl(v1, *decl);
                    assert(d0 + d1 + d2 =~= d0 + (d1 + d2));
                }
            },
            _ => {},
        }
        i = i + 1;
    }
}

/// No two fields share a name.
pub open spec fn fields_distinct(fs: Seq<FieldView>) -> bool {
    forall|a: int, b: int| 0 <= a < b < fs.len() ==> (#[trigger] fs[a]).0 != (#[trigger] fs[b]).0
}

/// A registry of user-defined types in which no two types share a name and
/// no type has two fields with one name.
pub open spec fn is_wf_registry(v: Seq<UserTypeView>) -> bool {
    &&& forall|a: int, b: int| 0 <= a < b < v.len() ==> (#[trigger] v[a]).2 != (#[trigger] v[b]).2
    &&& forall|k: int| 0 <= k < v.len() ==> fields_distinct((#[trigger] v[k]).3)
}

proof fn lemma_no_same_name_below(fields: Seq<UserTypeFieldDecl>, j: int, p: int)
    requires
        0 <= p <= j < fields.len(),
        spec_last_same_name_below(fields, j, p) is None,
    ensures
        forall|q: int| 0 <= q < p ==> (#[trigger] fields[q]).name@ != fields[j].name@,
    decreases p,
{
    if p > 0 {
        lemma_no_same_name_below(fields, j, p - 1);
    }
}

proof fn lemma_registered_fields_distinct(
    registered: Seq<Seq<char>>,
    owner: Seq<char>,
    fields: Seq<UserTypeFieldDecl>,
    j: int,
)
    requires
        0 <= j <= fields.len(),
    ensures
        fields_distinct(spec_register_fields(registered, owner, fields, j).0),
        forall|a: int| 0 <= a < spec_register_fields(registered, owner, fields, j).0.len() ==> exists|q: int|
            0 <= q < j && (#[trigger] fields[q]).name@ == (#[trigger] spec_register_fields(registered, owner, fields, j).0[a]).0,
    decreases j,
{
    if j > 0 {
        lemma_registered_fields_distinct(registered, owner, fields, j - 1);
        let (fs, ds) = spec_register_fields(registered, owner, fields, j - 1);
        let f = fields[j - 1];
        match spec_last_same_name_below(fields, j - 1, j - 1) {
            Some(p) => {
                assert forall|a: int| #![trigger fs[a]] 0 <= a < fs.len() implies exists|q: int|
                    0 <= q < j && (#[trigger] fields[q]).name@ == fs[a].0 by {
                    let q = choose|q: int| 0 <= q < j - 1 && (#[trigger] fields[q]).name@ == fs[a].0;
                    assert(fields[q].name@ == fs[a].0);
                }
            },
            None => {
                lemma_no_same_name_below(fields, j - 1, j - 1);
                match spec_field_type_of(registered, f.field_type@) {
                    Some((t, u)) => {
                        let nfs = fs.push((f.name@, t, u));
                        assert forall|a: int, b: int| 0 <= a < b < nfs.len() implies (#[trigger] nfs[a]).0
                            != (#[trigger] nfs[b]).0 by {
                            if b == nfs.len() - 1 {
                                let q = choose|q: int| 0 <= q < j - 1 && (#[trigger] fields[q]).name@ == fs[a].0;
                                assert(fields[q].name@ != f.name@);
                            } else {
                                assert(fs[a].0 != fs[b].0);
                            }
                        }
                        assert forall|a: int| #![trigger nfs[a]] 0 <= a < nfs.len() implies exists|q: int|
                            0 <= q < j && (#[trigger] fields[q]).name@ == nfs[a].0 by {
                            if a == nfs.len() - 1 {
                                assert(fields[j - 1].name@ == nfs[a].0);
                            } else {
                                let q = choose|q: int| 0 <= q < j - 1 && (#[trigger] fields[q]).name@ == fs[a].0;
                                assert(fields[q].name@ == nfs[a].0);
                            }
                        }
                    },
                    None => {
                        assert forall|a: int| #![trigger fs[a]] 0 <= a < fs.len() implies exists|q: int|
                            0 <= q < j && (#[trigger] fields[q]).name@ == fs[a].0 by {
                            let q = choose|q: int| 0 <= q < j - 1 && (#[trigger] fields[q]).name@ == fs[a].0;
                            assert(fields[q].name@ == fs[a].0);
                        }
                    },
                }
            },
        }
    }
}

/// Registering user-defined types keeps the registry well formed: type names
/// stay unique, and every registered type has fields with distinct names.
pub proof fn lemma_registration_keeps_registry_wf(v: Seq<UserTypeView>, stmts: Seq<Stmt>, i: int)
    requires
        is_wf_registry(v),
        0 <= i <= stmts.len(),
    ensures
        is_wf_registry(spec_register_stmts(v, stmts, i).0),
    decreases i,
{
    if i > 0 {
        lemma_registration_keeps_registry_wf(v, stmts, i - 1);
        let (v1, d1) = spec_register_stmts(v, stmts, i - 1);
        match stmts[i - 1].kind {
            StmtKind::UserType(decl) => {
                if !view_names(v1).contains(decl.name@) {
                    let (fs, ds) = spec_register_fields(
                        view_names(v1),
                        decl.name@,
                        decl.fields@,
                        decl.fields@.len() as int,
                    );
                    lemma_registered_fields_distinct(view_names(v1), decl.name@, decl.fields@, decl.fields@.len() as int);
                    let v2 = v1.push((0u32, decl.name@, decl.name@, fs));
                    assert forall|a: int, b: int| 0 <= a < b < v2.len() implies (#[trigger] v2[a]).2
                        != (#[trigger] v2[b]).2 by {
                        if b == v2.len() - 1 {
                            assert(view_names(v1)[a] == v1[a].2);
                        }
                    }
                    assert forall|k: int| 0 <= k < v2.len() implies fields_distinct((#[trigger] v2[k]).3) by {
                        if k < v1.len() {
                            assert(v2[k] == v1[k]);
                        }
                    }
                }
            },
            _ => {},
        }
    }
}

} // verus!
