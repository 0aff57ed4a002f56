//! Checks made while declaring and assigning variables: how a declaration
//! persists across bars, and whether an assigned value has the target's
//! user-defined type or map template.
use vstd::prelude::*;
use vstd::string::*;

use crate::compatibility::{
    feature_uses_view, push_feature_use, unsupported, unsupported_diag, unsupported_view, FeatureUse,
    UnsupportedFeature,
};
use crate::declarations::{
    is_drawing_id_value, is_supported_varip_value, spec_is_drawing_id_value,
    spec_is_supported_varip_value, spec_unsupported_varip_value_reason,
    unsupported_varip_value_reason,
};
use crate::arg_facts::opt_str_view;
use crate::maps::MapTypeInfo;
use crate::strings::str_eq;
use crate::syntax::{diags_view, error_view, push_error, DiagView, Diagnostic, Span};
use crate::types::{pine_type_name, spec_pine_type_name, PineType, ValueKind};
use crate::unsupported::{
    VARIP_DRAWING_UNSUPPORTED_REASON, VARIP_UDT_ARRAY_UNSUPPORTED_REASON,
    VARIP_UDT_UNSUPPORTED_REASON,
};

verus! {

/// How a declaration is written: plain, `var` or `varip`.
#[derive(Clone, Copy, Debug, PartialEq, Eq, Structural)]
pub enum DeclMode {
    Normal,
    Var,
    Varip,
}

/// How a variable keeps its value across bars.
#[derive(Clone, Copy, Debug, PartialEq, Eq, Structural)]
pub enum PersistenceKind {
    NotPersistent,
    Var,
    Varip,
}

/// The storage slot of a persistent variable.
#[derive(Clone, Copy, Debug, PartialEq, Eq, Structural)]
pub struct VarSlotId(pub u32);

pub open spec fn spec_persistence_kind_for_slot(var_slot_id: Option<VarSlotId>) -> PersistenceKind {
    if var_slot_id is Some {
        PersistenceKind::Var
    } else {
        PersistenceKind::NotPersistent
    }
}

/// A variable with a slot persists as `var`; one without does not persist.
pub fn persistence_kind_for_slot(var_slot_id: Option<VarSlotId>) -> (r: PersistenceKind)
    ensures
        r == spec_persistence_kind_for_slot(var_slot_id),
{
    if var_slot_id.is_some() {
        PersistenceKind::Var
    } else {
        PersistenceKind::NotPersistent
    }
}

/// Why a `varip` declaration of a value of kind `kind` is refused, if it is:
/// drawing ids never persist as `varip`; a user-defined type only where the
/// declaration allows a non-scalar typed `na` or declares a type whose fields
/// are all scalar; a user-defined type array only with a declared element
/// type; other kinds as `varip` values allow.
pub open spec fn spec_varip_refusal(
    kind: ValueKind,
    declared_scalar_tree_user_type: bool,
    has_declared_user_type_array_name: bool,
    allow_non_scalar_udt_typed_na: bool,
) -> Option<Seq<char>> {
    if spec_is_drawing_id_value(kind) {
        Some(VARIP_DRAWING_UNSUPPORTED_REASON@)
    } else if kind == ValueKind::UserType {
        if allow_non_scalar_udt_typed_na || declared_scalar_tree_user_type {
            None
        } else {
            Some(VARIP_UDT_UNSUPPORTED_REASON@)
        }
    } else if kind == ValueKind::UserTypeArray && !has_declared_user_type_array_name {
        Some(VARIP_UDT_ARRAY_UNSUPPORTED_REASON@)
    } else if !spec_is_supported_varip_value(kind) {
        Some(spec_unsupported_varip_value_reason(kind))
    } else {
        None
    }
}

/// Whether the declaration takes a new storage slot.
pub open spec fn spec_declaration_takes_slot(
    mode: DeclMode,
    kind: ValueKind,
    declared_scalar_tree_user_type: bool,
    has_declared_user_type_array_name: bool,
    allow_non_scalar_udt_typed_na: bool,
) -> bool {
    match mode {
        DeclMode::Normal => false,
        DeclMode::Var => true,
        DeclMode::Varip => spec_varip_refusal(
            kind,
            declared_scalar_tree_user_type,
            has_declared_user_type_array_name,
            allow_non_scalar_udt_typed_na,
        ) is None,
    }
}

fn alloc_var_slot(next_var_slot: &mut u32) -> (r: VarSlotId)
    requires
        *old(next_var_slot) < u32::MAX,
    ensures
        r == VarSlotId(*old(next_var_slot)),
        *final(next_var_slot) == *old(next_var_slot) + 1,
{
    let id = VarSlotId(*next_var_slot);
    *next_var_slot = *next_var_slot + 1;
    id
}

/// How a declaration in `mode` of a value of type `value_type` persists,
/// taking the next storage slot from `next_var_slot` where it persists.
/// A `varip` declaration is recorded as a supported feature, or refused
/// (and then does not persist). `declared_scalar_tree_user_type` says
/// whether the declaration names a user-defined type whose fields are all
/// scalar.
pub fn declaration_persistence(
    mode: DeclMode,
    value_type: PineType,
    declared_scalar_tree_user_type: bool,
    declared_user_type_array_name: Option<&str>,
    allow_non_scalar_udt_typed_na: bool,
    span: Span,
    next_var_slot: &mut u32,
    supported: &mut Vec<FeatureUse>,
    report: &mut Vec<UnsupportedFeature>,
    diagnostics: &mut Vec<Diagnostic>,
) -> (r: (PersistenceKind, Option<VarSlotId>))
    requires
        spec_declaration_takes_slot(
            mode,
            value_type.kind,
            declared_scalar_tree_user_type,
            declared_user_type_array_name is Some,
            allow_non_scalar_udt_typed_na,
        ) ==> *old(next_var_slot) < u32::MAX,
    ensures
        ({
            let refusal = spec_varip_refusal(
                value_type.kind,
                declared_scalar_tree_user_type,
                declared_user_type_array_name is Some,
                allow_non_scalar_udt_typed_na,
            );
            let slot = Some(VarSlotId(*old(next_var_slot)));
            match mode {
                DeclMode::Normal => r == (PersistenceKind::NotPersistent, None::<VarSlotId>),
                DeclMode::Var => r == (PersistenceKind::Var, slot),
                DeclMode::Varip => match refusal {
                    Some(_) => r == (PersistenceKind::NotPersistent, None::<VarSlotId>),
                    None => r == (PersistenceKind::Varip, slot),
                },
            }
        }),
        *final(next_var_slot) == if spec_declaration_takes_slot(
            mode,
            value_type.kind,
            declared_scalar_tree_user_type,
            declared_user_type_array_name is Some,
            allow_non_scalar_udt_typed_na,
        ) {
            *old(next_var_slot) + 1
        } else {
            *old(next_var_slot) as int
        },
        ({
            let refusal = spec_varip_refusal(
                value_type.kind,
                declared_scalar_tree_user_type,
                declared_user_type_array_name is Some,
                allow_non_scalar_udt_typed_na,
            );
            let is_varip = mode == DeclMode::Varip;
            &&& feature_uses_view(final(supported)@) == feature_uses_view(old(supported)@) + if is_varip
                && refusal is None {
                seq![("varip"@, span)]
            } else {
                Seq::empty()
            }
            &&& unsupported_view(final(report)@) == unsupported_view(old(report)@) + match refusal {
                Some(reason) => if is_varip {
                    seq![("varip"@, reason, span)]
                } else {
                    Seq::empty()
                },
                None => Seq::empty(),
            }
            &&& diags_view(final(diagnostics)@) == diags_view(old(diagnostics)@) + match refusal {
                Some(reason) => if is_varip {
                    seq![unsupported_diag("varip"@, reason, span)]
                } else {
                    Seq::<DiagView>::empty()
                },
                None => Seq::<DiagView>::empty(),
            }
        }),
{
    proof {
        reveal_strlit("varip");
    }
    let ghost s0 = feature_uses_view(supported@);
    let ghost r0 = unsupported_view(report@);
    let ghost d0 = diags_view(diagnostics@);
    match mode {
        DeclMode::Normal => {
            assert(s0 =~= s0 + Seq::<(Seq<char>, Span)>::empty());
            assert(r0 =~= r0 + Seq::<(Seq<char>, Seq<char>, Span)>::empty());
            assert(d0 =~= d0 + Seq::<DiagView>::empty());
            (PersistenceKind::NotPersistent, None)
        },
        DeclMode::Var => {
            assert(s0 =~= s0 + Seq::<(Seq<char>, Span)>::empty());
            assert(r0 =~= r0 + Seq::<(Seq<char>, Seq<char>, Span)>::empty());
            assert(d0 =~= d0 + Seq::<DiagView>::empty());
            let slot = alloc_var_slot(next_var_slot);
            (PersistenceKind::Var, Some(slot))
        },
        DeclMode::Varip => {
            let kind = value_type.kind;
            let refusal: Option<&'static str> = if is_drawing_id_value(kind) {
                Some(VARIP_DRAWING_UNSUPPORTED_REASON)
            } else if kind == ValueKind::UserType {
                if allow_non_scalar_udt_typed_na || declared_scalar_tree_user_type {
                    None
                } else {
                    Some(VARIP_UDT_UNSUPPORTED_REASON)
                }
            } else if kind == ValueKind::UserTypeArray && declared_user_type_array_name.is_none() {
                Some(VARIP_UDT_ARRAY_UNSUPPORTED_REASON)
            } else if !is_supported_varip_value(kind) {
                Some(unsupported_varip_value_reason(kind))
            } else {
                None
            };
            match refusal {
                Some(reason) => {
                    assert(s0 =~= s0 + Seq::<(Seq<char>, Span)>::empty());
                    unsupported("varip", reason, span, report, diagnostics);
                    (PersistenceKind::NotPersistent, None)
                },
                None => {
                    assert(r0 =~= r0 + Seq::<(Seq<char>, Seq<char>, Span)>::empty());
                    assert(d0 =~= d0 + Seq::<DiagView>::empty());
                    push_feature_use(supported, "varip", span);
                    let slot = alloc_var_slot(next_var_slot);
                    (PersistenceKind::Varip, Some(slot))
                },
            }
        },
    }
}

fn opt_str_is(o: Option<&str>, target: &str) -> (r: bool)
    ensures
        r == (opt_str_view(o) == Some(target@)),
{
    match o {
        Some(s) => str_eq(s, target),
        None => false,
    }
}

/// Reports a value assigned to a field of user-defined type
/// `target_user_type` whose own user-defined type (`actual_user_type`, where
/// the value has one) is another.
pub fn validate_user_type_field_assignment(
    name: &str,
    target_user_type: &str,
    actual_user_type: Option<&str>,
    value_type: PineType,
    span: Span,
    diagnostics: &mut Vec<Diagnostic>,
)
    ensures
        diags_view(final(diagnostics)@) == diags_view(old(diagnostics)@) + if opt_str_view(
            actual_user_type,
        ) == Some(target_user_type@) {
            Seq::<DiagView>::empty()
        } else {
            seq![
                error_view(
                    "E_ASSIGN_TYPE"@,
                    "cannot assign "@ + spec_pine_type_name(value_type) + " to `"@ + name@
                        + "` of user-defined type `"@ + target_user_type@ + "`"@,
                    span,
                ),
            ]
        },
{
    if opt_str_is(actual_user_type, target_user_type) {
        assert(diags_view(diagnostics@) =~= diags_view(diagnostics@) + Seq::<DiagView>::empty());
        return;
    }
    let s = String::from_str("cannot assign ");
    let s = s.concat(pine_type_name(value_type).as_str());
    let s = s.concat(" to `");
    let s = s.concat(name);
    let s = s.concat("` of user-defined type `");
    let s = s.concat(target_user_type);
    let s = s.concat("`");
    push_error(diagnostics, "E_ASSIGN_TYPE", s, span);
}

/// Reports a value other than `na` assigned to variable `name` of
/// user-defined type `target_user_type` whose own user-defined type
/// (`actual_user_type`, where the value has one) is another.
pub fn validate_user_type_value_assignment(
    name: &str,
    target_user_type: &str,
    actual_user_type: Option<&str>,
    value_type: PineType,
    span: Span,
    diagnostics: &mut Vec<Diagnostic>,
)
    ensures
        diags_view(final(diagnostics)@) == diags_view(old(diagnostics)@) + if value_type.kind
            == ValueKind::Na || opt_str_view(actual_user_type) == Some(target_user_type@) {
            Seq::<DiagView>::empty()
        } else {
            seq![
                error_view(
                    "E_UDT_ASSIGN_TYPE"@,
                    "cannot assign a different user-defined type to `"@ + name@ + "`"@,
                    span,
                ),
            ]
        },
{
    if value_type.kind == ValueKind::Na || opt_str_is(actual_user_type, target_user_type) {
        assert(diags_view(diagnostics@) =~= diags_view(diagnostics@) + Seq::<DiagView>::empty());
        return;
    }
    let s = String::from_str("cannot assign a different user-defined type to `");
    let s = s.concat(name);
    let s = s.concat("`");
    push_error(diagnostics, "E_UDT_ASSIGN_TYPE", s, span);
}

/// Reports a value other than `na` assigned to variable `name`, an array of
/// user-defined type `target_user_type`, whose own element type
/// (`actual_user_type`, where the value has one) is another.
pub fn validate_user_type_array_value_assignment(
    name: &str,
    target_user_type: &str,
    actual_user_type: Option<&str>,
    value_type: PineType,
    span: Span,
    diagnostics: &mut Vec<Diagnostic>,
)
    ensures
        diags_view(final(diagnostics)@) == diags_view(old(diagnostics)@) + if value_type.kind
            == ValueKind::Na || opt_str_view(actual_user_type) == Some(target_user_type@) {
            Seq::<DiagView>::empty()
        } else {
            seq![
                error_view(
                    "E_UDT_ASSIGN_TYPE"@,
                    "cannot assign a different user-defined type array to `"@ + name@ + "`"@,
                    span,
                ),
            ]
        },
{
    if value_type.kind == ValueKind::Na || opt_str_is(actual_user_type, target_user_type) {
        assert(diags_view(diagnostics@) =~= diags_view(diagnostics@) + Seq::<DiagView>::empty());
        return;
    }
    let s = String::from_str("cannot assign a different user-defined type array to `");
    let s = s.concat(name);
    let s = s.concat("`");
    push_error(diagnostics, "E_UDT_ASSIGN_TYPE", s, span);
}

/// Reports a value other than `na` assigned to map variable `name` whose
/// own map template (`actual`, where the value has one) is another.
pub fn validate_map_value_assignment(
    name: &str,
    target_info: MapTypeInfo,
    actual: Option<MapTypeInfo>,
    value_type: PineType,
    span: Span,
    diagnostics: &mut Vec<Diagnostic>,
)
    ensures
        diags_view(final(diagnostics)@) == diags_view(old(diagnostics)@) + if value_type.kind
            == ValueKind::Na || actual == Some(target_info) {
            Seq::<DiagView>::empty()
        } else {
            seq![
                error_view(
                    "E_MAP_ASSIGN_TYPE"@,
                    "cannot assign a different map template to `"@ + name@ + "`"@,
                    span,
                ),
            ]
        },
{
    let same = match actual {
        Some(info) => info == target_info,
        None => false,
    };
    if value_type.kind == ValueKind::Na || same {
        assert(diags_view(diagnostics@) =~= diags_view(diagnostics@) + Seq::<DiagView>::empty());
        return;
    }
    let s = String::from_str("cannot assign a different map template to `");
    let s = s.concat(name);
    let s = s.concat("`");
    push_error(diagnostics, "E_MAP_ASSIGN_TYPE", s, span);
}

} // verus!
