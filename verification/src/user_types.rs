//! User-defined type metadata and the classification of user-defined type
//! array elements.
use vstd::prelude::*;

use crate::strings::{str_eq};
use crate::types::{PineType, ValueKind};

verus! {

/// The source a declaration comes from; the root script is source 0.
#[derive(Clone, Copy, Debug, PartialEq, Eq, Structural, Hash)]
pub struct SourceId {
    pub index: u32,
}

impl SourceId {
    pub fn root() -> (r: SourceId)
        ensures
            r.index == 0,
    {
        SourceId { index: 0 }
    }

    /// The source of the library imported `n`-th: sources are numbered with
    /// the root script first.
    pub fn library(n: u32) -> (r: SourceId)
        requires
            n < u32::MAX,
        ensures
            r.index == n + 1,
    {
        SourceId { index: n + 1 }
    }
}

#[derive(Clone, Debug)]
pub struct UserTypeIdentity {
    pub source_id: SourceId,
    pub name: String,
}

#[derive(Clone, Debug)]
pub struct UserTypeFieldInfo {
    pub name: String,
    pub pine_type: PineType,
    pub user_type_name: Option<String>,
}

/// A field of an imported user-defined type as the analysis reads it: its
/// name and, where the field has a builtin type, that type.
#[derive(Clone, Debug)]
pub struct ImportedFieldInfo {
    pub name: String,
    pub pine_type: Option<PineType>,
}

#[derive(Clone, Debug)]
pub struct UserTypeInfo {
    pub identity: UserTypeIdentity,
    pub name: String,
    pub fields: Vec<UserTypeFieldInfo>,
}

/// What the elements of a user-defined type array literal turned out to be.
#[derive(Clone, Debug, PartialEq, Eq)]
pub enum UserTypeArrayElementInference {
    SameScalarLocal(String),
    SameScalarImported(String),
    MixedLocal,
    UnsupportedFieldType(String),
    UnknownUserTypeName,
}

/// The same classification over character sequences.
pub enum InferenceView {
    SameScalarLocal(Seq<char>),
    SameScalarImported(Seq<char>),
    MixedLocal,
    UnsupportedFieldType(Seq<char>),
    UnknownUserTypeName,
}

impl UserTypeArrayElementInference {
    pub open spec fn view(&self) -> InferenceView {
        match self {
            UserTypeArrayElementInference::SameScalarLocal(n) => InferenceView::SameScalarLocal(n@),
            UserTypeArrayElementInference::SameScalarImported(n) => InferenceView::SameScalarImported(
                n@,
            ),
            UserTypeArrayElementInference::MixedLocal => InferenceView::MixedLocal,
            UserTypeArrayElementInference::UnsupportedFieldType(n) => InferenceView::UnsupportedFieldType(
                n@,
            ),
            UserTypeArrayElementInference::UnknownUserTypeName => InferenceView::UnknownUserTypeName,
        }
    }
}

/// A field an array element may carry: an int, float, bool, string or color
/// that is not itself a user-defined type.
pub open spec fn spec_is_scalar_user_type_array_field(field: UserTypeFieldInfo) -> bool {
    field.user_type_name is None && (field.pine_type.kind == ValueKind::Int || field.pine_type.kind
        == ValueKind::Float || field.pine_type.kind == ValueKind::Bool || field.pine_type.kind
        == ValueKind::String || field.pine_type.kind == ValueKind::Color)
}

pub fn is_scalar_user_type_array_field(field: &UserTypeFieldInfo) -> (r: bool)
    ensures
        r == spec_is_scalar_user_type_array_field(*field),
{
    field.user_type_name.is_none() && matches!(
        field.pine_type.kind,
        ValueKind::Int | ValueKind::Float | ValueKind::Bool | ValueKind::String | ValueKind::Color
    )
}

/// The index of the first registered type named `name`.
pub open spec fn spec_find_user_type_from(types: Seq<UserTypeInfo>, name: Seq<char>, i: int) -> Option<
    int,
>
    decreases types.len() - i,
{
    if i < 0 || i >= types.len() {
        None
    } else if types[i].name@ == name {
        Some(i)
    } else {
        spec_find_user_type_from(types, name, i + 1)
    }
}

pub open spec fn spec_find_user_type(types: Seq<UserTypeInfo>, name: Seq<char>) -> Option<int> {
    spec_find_user_type_from(types, name, 0)
}

/// The registered type named `name`, looked up by name.
pub fn find_user_type<'a>(user_types: &'a [UserTypeInfo], name: &str) -> (r: Option<&'a UserTypeInfo>)
    ensures
        match r {
            Some(info) => spec_find_user_type(user_types@, name@) matches Some(k) && *info
                == user_types@[k],
            None => spec_find_user_type(user_types@, name@) is None,
        },
{
    let n = user_types.len();
    let mut i: usize = 0;
    while i < n
        invariant
            n == user_types@.len(),
            i <= n,
            spec_find_user_type(user_types@, name@) == spec_find_user_type_from(
                user_types@,
                name@,
                i as int,
            ),
        decreases n - i,
    {
        if str_eq(user_types[i].name.as_str(), name) {
            return Some(&user_types[i]);
        }
        i = i + 1;
    }
    None
}

pub open spec fn all_fields_scalar(info: UserTypeInfo) -> bool {
    forall|j: int|
        0 <= j < info.fields@.len() ==> #[trigger] spec_is_scalar_user_type_array_field(
            info.fields@[j],
        )
}

/// Elements naming different types are mixed; a single registered type whose
/// fields are all scalar is supported; any other registered type has
/// unsupported fields; an empty list or an unregistered name gives `None`.
pub open spec fn spec_classify_user_type_array_element_names(
    user_types: Seq<UserTypeInfo>,
    type_names: Seq<Seq<char>>,
) -> Option<InferenceView> {
    if type_names.len() == 0 {
        None
    } else if exists|i: int| 0 <= i < type_names.len() && #[trigger] type_names[i] != type_names[0] {
        Some(InferenceView::MixedLocal)
    } else {
        match spec_find_user_type(user_types, type_names[0]) {
            None => None,
            Some(k) => if all_fields_scalar(user_types[k]) {
                Some(InferenceView::SameScalarLocal(type_names[0]))
            } else {
                Some(InferenceView::UnsupportedFieldType(type_names[0]))
            },
        }
    }
}

pub open spec fn opt_inference_view(r: Option<UserTypeArrayElementInference>) -> Option<InferenceView> {
    match r {
        Some(i) => Some(i.view()),
        None => None,
    }
}

pub fn classify_user_type_array_element_names(
    user_types: &[UserTypeInfo],
    type_names: &[String],
) -> (r: Option<UserTypeArrayElementInference>)
    ensures
        opt_inference_view(r) == spec_classify_user_type_array_element_names(
            user_types@,
            type_names@.map_values(|s: String| s@),
        ),
{
    let ghost names = type_names@.map_values(|s: String| s@);
    if type_names.len() == 0 {
        return None;
    }
    let first = &type_names[0];
    let n = type_names.len();
    let mut i: usize = 0;
    while i < n
        invariant
            n == type_names@.len(),
            n > 0,
            names == type_names@.map_values(|s: String| s@),
            *first == type_names@[0],
            i <= n,
            forall|j: int| 0 <= j < i ==> #[trigger] names[j] == names[0],
        decreases n - i,
    {
        if !str_eq(type_names[i].as_str(), first.as_str()) {
            assert(names[i as int] != names[0]);
            return Some(UserTypeArrayElementInference::MixedLocal);
        }
        i = i + 1;
    }
    let user_type = find_user_type(user_types, first.as_str())?;
    let m = user_type.fields.len();
    let mut j: usize = 0;
    while j < m
        invariant
            m == user_type.fields@.len(),
            n == type_names@.len(),
            n > 0,
            names == type_names@.map_values(|s: String| s@),
            *first == type_names@[0],
            forall|x: int| 0 <= x < n ==> #[trigger] names[x] == names[0],
            spec_find_user_type(user_types@, first@) matches Some(k) && *user_type
                == user_types@[k],
            j <= m,
            forall|k: int|
                0 <= k < j ==> #[trigger] spec_is_scalar_user_type_array_field(user_type.fields@[k]),
        decreases m - j,
    {
        if !is_scalar_user_type_array_field(&user_type.fields[j]) {
            assert(!all_fields_scalar(*user_type));
            return Some(UserTypeArrayElementInference::UnsupportedFieldType(first.clone()));
        }
        j = j + 1;
    }
    Some(UserTypeArrayElementInference::SameScalarLocal(first.clone()))
}

} // verus!
