//! Constructors of user-defined types imported from libraries: finding a
//! `lib.T.new` constructor's type, and planning which argument fills each
//! field.
use vstd::prelude::*;

use crate::strings::{str_eq, strip_suffix, spec_ends_with};
use crate::syntax::{CallArg, Span};
use crate::types::PineType;
use crate::user_type_constructors::BindState;
use crate::user_types::UserTypeIdentity;

verus! {

/// A field of an imported user-defined type: its name, the name of its
/// declared type, its type where that is a builtin type, and where it is
/// declared.
#[derive(Clone, Debug)]
pub struct ImportedUserTypeFieldInfo {
    pub name: String,
    pub field_type: String,
    pub pine_type: Option<PineType>,
    pub span: Span,
}

/// A user-defined type a library exports.
#[derive(Clone, Debug)]
pub struct ImportedUserTypeInfo {
    pub identity: UserTypeIdentity,
    pub fields: Vec<ImportedUserTypeFieldInfo>,
    pub span: Span,
}

/// Why the arguments of an imported constructor cannot be planned.
#[derive(Clone, Debug, PartialEq, Eq)]
pub enum ImportedUdtConstructorArgError {
    TooManyArgs { expected: usize, actual: usize },
    UnknownField(String),
    DuplicateField(String),
    PositionalAfterNamed,
    MissingField(String),
}

/// The argument that fills each field of an imported constructor, in field
/// order, and whether every field has a supported type.
#[derive(Clone, Debug, PartialEq, Eq)]
pub struct ImportedUdtConstructorArgPlan {
    pub scalar_fields: bool,
    pub field_arg_indices: Vec<usize>,
}

/// The imported type a constructor name `T.new` names: the first entry of
/// `imported` (qualified type name, type) whose name is `T`.
pub open spec fn spec_lookup_imported(imported: Seq<(String, ImportedUserTypeInfo)>, name: Seq<char>) -> Option<int>
    decreases imported.len(),
{
    if imported.len() == 0 {
        None
    } else if imported.last().0@ == name && spec_lookup_imported(imported.drop_last(), name) is None {
        Some(imported.len() - 1)
    } else {
        spec_lookup_imported(imported.drop_last(), name)
    }
}

pub open spec fn spec_constructor_type_name(callee: Seq<char>) -> Option<Seq<char>> {
    if spec_ends_with(callee, ".new"@) {
        Some(callee.take(callee.len() - 4))
    } else {
        None
    }
}

/// The position in `imported` of the type a constructor `callee` builds.
pub open spec fn spec_imported_constructor(imported: Seq<(String, ImportedUserTypeInfo)>, callee: Seq<char>) -> Option<int> {
    match spec_constructor_type_name(callee) {
        Some(t) => spec_lookup_imported(imported, t),
        None => None,
    }
}

/// The imported type the constructor `callee_name` builds, if any.
pub fn imported_user_type_constructor_metadata<'a>(
    imported: &'a [(String, ImportedUserTypeInfo)],
    callee_name: &str,
) -> (r: Option<&'a ImportedUserTypeInfo>)
    ensures
        match r {
            Some(info) => spec_imported_constructor(imported@, callee_name@) matches Some(k) && *info == imported@[k].1,
            None => spec_imported_constructor(imported@, callee_name@) is None,
        },
{
    proof {
        reveal_strlit(".new");
    }
    let name = match strip_suffix(callee_name, ".new") {
        Some(n) => n,
        None => return None,
    };
    let n = imported.len();
    let mut i: usize = 0;
    while i < n
        invariant
            n == imported@.len(),
            i <= n,
            spec_lookup_imported(imported@.take(i as int), name@) is None,
            spec_constructor_type_name(callee_name@) == Some(name@),
        decreases n - i,
    {
        assert(imported@.take((i + 1) as int).drop_last() =~= imported@.take(i as int));
        if str_eq(imported[i].0.as_str(), name) {
            proof {
                lemma_lookup_prefix_found(imported@, name@, (i + 1) as int);
            }
            return Some(&imported[i].1);
        }
        i = i + 1;
    }
    assert(imported@.take(n as int) =~= imported@);
    None
}

proof fn lemma_lookup_prefix_found(s: Seq<(String, ImportedUserTypeInfo)>, name: Seq<char>, k: int)
    requires
        0 < k <= s.len(),
        spec_lookup_imported(s.take(k - 1), name) is None,
        s[k - 1].0@ == name,
    ensures
        spec_lookup_imported(s, name) == Some(k - 1),
    decreases s.len() - k,
{
    assert(s.take(k).drop_last() =~= s.take(k - 1));
    if k < s.len() {
        assert(s.drop_last().take(k - 1) =~= s.take(k - 1));
        assert(s.drop_last()[k - 1] == s[k - 1]);
        lemma_lookup_prefix_found(s.drop_last(), name, k);
    } else {
        assert(s.take(k) =~= s);
    }
}

/// An argument-plan error as plain values.
pub enum PlanErrorView {
    TooManyArgs { expected: nat, actual: nat },
    UnknownField(Seq<char>),
    DuplicateField(Seq<char>),
    PositionalAfterNamed,
    MissingField(Seq<char>),
}

impl ImportedUdtConstructorArgError {
    pub open spec fn view(&self) -> PlanErrorView {
        match self {
            ImportedUdtConstructorArgError::TooManyArgs { expected, actual } => PlanErrorView::TooManyArgs {
                expected: *expected as nat,
                actual: *actual as nat,
            },
            ImportedUdtConstructorArgError::UnknownField(n) => PlanErrorView::UnknownField(n@),
            ImportedUdtConstructorArgError::DuplicateField(n) => PlanErrorView::DuplicateField(n@),
            ImportedUdtConstructorArgError::PositionalAfterNamed => PlanErrorView::PositionalAfterNamed,
            ImportedUdtConstructorArgError::MissingField(n) => PlanErrorView::MissingField(n@),
        }
    }
}

pub open spec fn field_names(fields: Seq<ImportedUserTypeFieldInfo>) -> Seq<Seq<char>> {
    fields.map_values(|f: ImportedUserTypeFieldInfo| f.name@)
}

pub open spec fn name_position(names: Seq<Seq<char>>, name: Seq<char>, k: int) -> Option<int>
    decreases names.len() - k,
{
    if k < 0 || k >= names.len() {
        None
    } else if names[k] == name {
        Some(k)
    } else {
        name_position(names, name, k + 1)
    }
}

/// Binding the first `i` arguments to fields named `names`: a named
/// argument fills the field of its name (an unknown or already filled field
/// is an error) and ends positional filling; a positional argument fills the
/// next field, and is an error after a named one.
pub open spec fn spec_plan_bind(names: Seq<Seq<char>>, args: Seq<CallArg>, i: int) -> Result<BindState, PlanErrorView>
    decreases i,
{
    if i <= 0 {
        Ok(BindState { resolved: Seq::new(names.len(), |k: int| None::<int>), positional_open: true, next_positional: 0 })
    } else {
        match spec_plan_bind(names, args, i - 1) {
            Err(e) => Err(e),
            Ok(st) => match args[i - 1].name {
                Some(n) => match name_position(names, n@, 0) {
                    None => Err(PlanErrorView::UnknownField(n@)),
                    Some(k) => if st.resolved[k] is Some {
                        Err(PlanErrorView::DuplicateField(n@))
                    } else {
                        Ok(BindState { resolved: st.resolved.update(k, Some(i - 1)), positional_open: false, next_positional: st.next_positional })
                    },
                },
                None => if !st.positional_open {
                    Err(PlanErrorView::PositionalAfterNamed)
                } else {
                    Ok(BindState {
                        resolved: st.resolved.update(st.next_positional, Some(i - 1)),
                        positional_open: true,
                        next_positional: st.next_positional + 1,
                    })
                },
            },
        }
    }
}

pub open spec fn first_unfilled(resolved: Seq<Option<int>>, k: int) -> Option<int>
    decreases resolved.len() - k,
{
    if k < 0 || k >= resolved.len() {
        None
    } else if resolved[k] is None {
        Some(k)
    } else {
        first_unfilled(resolved, k + 1)
    }
}

/// The argument filling each field, in field order, or the first error:
/// more arguments than fields, a binding error, or the first field no
/// argument fills.
pub open spec fn spec_arg_plan(names: Seq<Seq<char>>, args: Seq<CallArg>) -> Result<Seq<int>, PlanErrorView> {
    if args.len() > names.len() {
        Err(PlanErrorView::TooManyArgs { expected: names.len(), actual: args.len() })
    } else {
        match spec_plan_bind(names, args, args.len() as int) {
            Err(e) => Err(e),
            Ok(st) => match first_unfilled(st.resolved, 0) {
                Some(k) => Err(PlanErrorView::MissingField(names[k])),
                None => Ok(st.resolved.map_values(|o: Option<int>| match o {
                    Some(x) => x,
                    None => 0,
                })),
            },
        }
    }
}

proof fn lemma_plan_prefix(names: Seq<Seq<char>>, args: Seq<CallArg>, i: int)
    requires
        0 <= i <= args.len(),
        args.len() <= names.len(),
        spec_plan_bind(names, args, i) is Ok,
    ensures
        spec_plan_bind(names, args, i) matches Ok(st) && st.resolved.len() == names.len() && 0 <= st.next_positional <= i,
    decreases i,
{
    if i > 0 {
        lemma_plan_prefix(names, args, i - 1);
        if let Some(n) = args[i - 1].name {
            lemma_name_position_in_range(names, n@, 0);
        }
    }
}

proof fn lemma_name_position_in_range(names: Seq<Seq<char>>, name: Seq<char>, k: int)
    requires
        0 <= k,
    ensures
        name_position(names, name, k) matches Some(p) ==> k <= p < names.len(),
    decreases names.len() - k,
{
    if 0 <= k < names.len() && names[k] != name {
        lemma_name_position_in_range(names, name, k + 1);
    }
}

proof fn lemma_plan_error_persists(names: Seq<Seq<char>>, args: Seq<CallArg>, i: int, j: int, e: PlanErrorView)
    requires
        0 <= i <= j,
        spec_plan_bind(names, args, i) == Err::<BindState, PlanErrorView>(e),
    ensures
        spec_plan_bind(names, args, j) == Err::<BindState, PlanErrorView>(e),
    decreases j - i,
{
    if i < j {
        lemma_plan_error_persists(names, args, i, j - 1, e);
    }
}

pub open spec fn plan_view(r: Result<ImportedUdtConstructorArgPlan, ImportedUdtConstructorArgError>) -> Result<
    Seq<int>,
    PlanErrorView,
> {
    match r {
        Ok(p) => Ok(p.field_arg_indices@.map_values(|x: usize| x as int)),
        Err(e) => Err(e.view()),
    }
}

fn position_of(fields: &Vec<ImportedUserTypeFieldInfo>, name: &str) -> (r: Option<usize>)
    ensures
        match r {
            Some(k) => name_position(field_names(fields@), name@, 0) == Some(k as int) && k < fields@.len(),
            None => name_position(field_names(fields@), name@, 0) is None,
        },
{
    let ghost names = field_names(fields@);
    let n = fields.len();
    let mut k: usize = 0;
    while k < n
        invariant
            n == fields@.len(),
            names == field_names(fields@),
            k <= n,
            name_position(names, name@, 0) == name_position(names, name@, k as int),
        decreases n - k,
    {
        if str_eq(fields[k].name.as_str(), name) {
            return Some(k);
        }
        k = k + 1;
    }
    None
}

/// Plans which argument fills each field of the imported type that the
/// constructor `callee_name` builds (`None` when it builds none; see
/// `spec_arg_plan`); `scalar_fields` is whether the analysis found every
/// field of that type supported.
pub fn imported_user_type_constructor_arg_plan(
    imported: &[(String, ImportedUserTypeInfo)],
    callee_name: &str,
    args: &[CallArg],
    scalar_fields: bool,
) -> (r: Option<Result<ImportedUdtConstructorArgPlan, ImportedUdtConstructorArgError>>)
    ensures
        match spec_imported_constructor(imported@, callee_name@) {
            None => r is None,
            Some(k) => r matches Some(res) && plan_view(res) == spec_arg_plan(field_names(imported@[k].1.fields@), args@)
                && (res matches Ok(p) ==> p.scalar_fields == scalar_fields),
        },
{
    let info = match imported_user_type_constructor_metadata(imported, callee_name) {
        Some(info) => info,
        None => return None,
    };
    let ghost names = field_names(info.fields@);
    let n_fields = info.fields.len();
    if args.len() > n_fields {
        return Some(Err(ImportedUdtConstructorArgError::TooManyArgs { expected: n_fields, actual: args.len() }));
    }
    let mut resolved: Vec<Option<usize>> = Vec::new();
    let mut k: usize = 0;
    while k < n_fields
        invariant
            n_fields == info.fields@.len(),
            k <= n_fields,
            resolved@.len() == k,
            forall|j: int| 0 <= j < k ==> resolved@[j] is None,
        decreases n_fields - k,
    {
        resolved.push(None);
        k = k + 1;
    }
    assert(crate::user_type_constructors::opt_indices_view(resolved@) =~= Seq::new(names.len(), |k: int| None::<int>));
    let mut positional_open = true;
    let mut next_positional: usize = 0;
    let n = args.len();
    let mut i: usize = 0;
    while i < n
        invariant
            n == args@.len(),
            n <= n_fields,
            n_fields == info.fields@.len(),
            names == field_names(info.fields@),
            names.len() == n_fields,
            spec_imported_constructor(imported@, callee_name@) matches Some(kk) && *info == imported@[kk].1,
            i <= n,
            spec_plan_bind(names, args@, i as int) matches Ok(st) && crate::user_type_constructors::opt_indices_view(resolved@)
                == st.resolved && st.positional_open == positional_open && st.next_positional == next_positional as int,
        decreases n - i,
    {
        proof {
            lemma_plan_prefix(names, args@, i as int);
        }
        let arg = &args[i];
        match &arg.name {
            Some(name) => {
                let k = match position_of(&info.fields, name.as_str()) {
                    Some(k) => k,
                    None => {
                        proof {
                            assert(spec_plan_bind(names, args@, (i + 1) as int) == Err::<BindState, PlanErrorView>(PlanErrorView::UnknownField(name@)));
                            lemma_plan_error_persists(names, args@, (i + 1) as int, n as int, PlanErrorView::UnknownField(name@));
                        }
                        return Some(Err(ImportedUdtConstructorArgError::UnknownField(name.clone())));
                    },
                };
                if resolved[k].is_some() {
                    proof {
                        assert(spec_plan_bind(names, args@, (i + 1) as int) == Err::<BindState, PlanErrorView>(PlanErrorView::DuplicateField(name@)));
                        lemma_plan_error_persists(names, args@, (i + 1) as int, n as int, PlanErrorView::DuplicateField(name@));
                    }
                    return Some(Err(ImportedUdtConstructorArgError::DuplicateField(name.clone())));
                }
                let ghost before = resolved@;
                resolved.set(k, Some(i));
                assert(crate::user_type_constructors::opt_indices_view(resolved@) =~= crate::user_type_constructors::opt_indices_view(before).update(k as int, Some(i as int)));
                positional_open = false;
            },
            None => {
                if !positional_open {
                    proof {
                        assert(spec_plan_bind(names, args@, (i + 1) as int) == Err::<BindState, PlanErrorView>(PlanErrorView::PositionalAfterNamed));
                        lemma_plan_error_persists(names, args@, (i + 1) as int, n as int, PlanErrorView::PositionalAfterNamed);
                    }
                    return Some(Err(ImportedUdtConstructorArgError::PositionalAfterNamed));
                }
                let ghost before = resolved@;
                resolved.set(next_positional, Some(i));
                assert(crate::user_type_constructors::opt_indices_view(resolved@) =~= crate::user_type_constructors::opt_indices_view(before).update(
                    next_positional as int,
                    Some(i as int),
                ));
                next_positional = next_positional + 1;
            },
        }
        i = i + 1;
    }
    proof {
        lemma_plan_prefix(names, args@, n as int);
    }
    let ghost st_resolved = crate::user_type_constructors::opt_indices_view(resolved@);
    assert(resolved@.len() == st_resolved.len());
    let mut indices: Vec<usize> = Vec::new();
    let mut j: usize = 0;
    while j < n_fields
        invariant
            n_fields == resolved@.len(),
            n_fields == info.fields@.len(),
            names == field_names(info.fields@),
            st_resolved == crate::user_type_constructors::opt_indices_view(resolved@),
            spec_plan_bind(names, args@, args@.len() as int) matches Ok(st) && st.resolved == st_resolved,
            args@.len() <= names.len(),
            spec_imported_constructor(imported@, callee_name@) matches Some(kk) && *info == imported@[kk].1,
            j <= n_fields,
            first_unfilled(st_resolved, 0) == first_unfilled(st_resolved, j as int),
            indices@.len() == j,
            forall|q: int| 0 <= q < j ==> resolved@[q] == Some(#[trigger] indices@[q]),
        decreases n_fields - j,
    {
        match resolved[j] {
            Some(a) => {
                indices.push(a);
            },
            None => {
                assert(first_unfilled(st_resolved, j as int) == Some(j as int));
                assert(names[j as int] == info.fields@[j as int].name@);
                return Some(Err(ImportedUdtConstructorArgError::MissingField(info.fields[j].name.clone())));
            },
        }
        j = j + 1;
    }
    assert(indices@.map_values(|x: usize| x as int) =~= st_resolved.map_values(|o: Option<int>| match o {
        Some(x) => x,
        None => 0,
    }));
    Some(Ok(ImportedUdtConstructorArgPlan { scalar_fields, field_arg_indices: indices }))
}

pub open spec fn is_scalar_field(f: ImportedUserTypeFieldInfo) -> bool {
    match f.pine_type {
        Some(t) => t.kind == crate::types::ValueKind::Int || t.kind == crate::types::ValueKind::Float || t.kind
            == crate::types::ValueKind::Bool || t.kind == crate::types::ValueKind::String || t.kind
            == crate::types::ValueKind::Color,
        None => false,
    }
}

/// Every field of the imported type has a builtin scalar type: int, float,
/// bool, string or color.
pub open spec fn spec_has_scalar_fields(info: ImportedUserTypeInfo) -> bool {
    forall|i: int| 0 <= i < info.fields@.len() ==> #[trigger] is_scalar_field(info.fields@[i])
}

/// Whether every field of the imported type has a builtin scalar type.
pub fn imported_user_type_has_scalar_fields(info: &ImportedUserTypeInfo) -> (r: bool)
    ensures
        r == spec_has_scalar_fields(*info),
{
    let n = info.fields.len();
    let mut i: usize = 0;
    while i < n
        invariant
            n == info.fields@.len(),
            i <= n,
            forall|j: int| 0 <= j < i ==> #[trigger] is_scalar_field(info.fields@[j]),
        decreases n - i,
    {
        let scalar = match info.fields[i].pine_type {
            Some(t) => t.kind == crate::types::ValueKind::Int || t.kind == crate::types::ValueKind::Float
                || t.kind == crate::types::ValueKind::Bool || t.kind == crate::types::ValueKind::String
                || t.kind == crate::types::ValueKind::Color,
            None => false,
        };
        if !scalar {
            assert(!is_scalar_field(info.fields@[i as int]));
            return false;
        }
        i = i + 1;
    }
    true
}

/// Whether the imported type the constructor `callee_name` builds has only
/// scalar fields; `None` where it builds no imported type.
pub fn imported_user_type_constructor_has_scalar_fields(
    imported: &[(String, ImportedUserTypeInfo)],
    callee_name: &str,
) -> (r: Option<bool>)
    ensures
        r == match spec_imported_constructor(imported@, callee_name@) {
            Some(k) => Some(spec_has_scalar_fields(imported@[k].1)),
            None => None,
        },
{
    match imported_user_type_constructor_metadata(imported, callee_name) {
        Some(info) => Some(imported_user_type_has_scalar_fields(info)),
        None => None,
    }
}

} // verus!
