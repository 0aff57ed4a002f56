//! Result types of conditional branches and tuple-valued expressions.
use vstd::prelude::*;

use crate::types::{
    common_kind, merge_result_types, spec_common_kind, spec_merge_result_types,
    spec_strongest_qualifier, strongest_qualifier, PineType, Qualifier,
};

verus! {

/// The type of a branch selected by a known condition: the selected branch's
/// qualifier raised to the condition's, over the kind both branches share.
pub open spec fn spec_selected_branch_type(
    condition_qualifier: Qualifier,
    then_type: PineType,
    else_type: PineType,
    condition_value: bool,
) -> Option<PineType> {
    let selected = if condition_value {
        then_type
    } else {
        else_type
    };
    match spec_common_kind(then_type.kind, else_type.kind) {
        Some(k) => Some(
            PineType {
                qualifier: spec_strongest_qualifier(condition_qualifier, selected.qualifier),
                kind: k,
            },
        ),
        None => None,
    }
}

pub fn selected_branch_type(
    condition_qualifier: Qualifier,
    then_type: PineType,
    else_type: PineType,
    condition_value: bool,
) -> (r: Option<PineType>)
    ensures
        r == spec_selected_branch_type(condition_qualifier, then_type, else_type, condition_value),
{
    let selected_type = if condition_value {
        then_type
    } else {
        else_type
    };
    let kind = common_kind(then_type.kind, else_type.kind)?;
    Some(PineType::new(strongest_qualifier(condition_qualifier, selected_type.qualifier), kind))
}

/// Element-wise merge of tuple branch types; `None` when the arities differ or
/// some element has no common kind.
pub open spec fn spec_merge_tuple_element_types(current: Option<Seq<PineType>>, next: Seq<PineType>) -> Option<
    Seq<PineType>,
> {
    match current {
        None => Some(next),
        Some(c) => if c.len() != next.len() {
            None
        } else if forall|i: int|
            0 <= i < c.len() ==> #[trigger] spec_merge_result_types(Some(c[i]), next[i]) is Some {
            Some(Seq::new(c.len(), |i: int| spec_merge_result_types(Some(c[i]), next[i]).unwrap()))
        } else {
            None
        },
    }
}

pub open spec fn opt_vec_view(v: Option<Vec<PineType>>) -> Option<Seq<PineType>> {
    match v {
        Some(v) => Some(v@),
        None => None,
    }
}

pub fn merge_tuple_element_types(current: Option<Vec<PineType>>, next: Vec<PineType>) -> (r: Option<
    Vec<PineType>,
>)
    ensures
        opt_vec_view(r) == spec_merge_tuple_element_types(opt_vec_view(current), next@),
{
    let ghost current_view = opt_vec_view(current);
    let cur = match current {
        None => {
            return Some(next);
        },
        Some(c) => c,
    };
    if cur.len() != next.len() {
        return None;
    }
    let n = cur.len();
    let mut merged: Vec<PineType> = Vec::new();
    let mut i: usize = 0;
    while i < n
        invariant
            n == cur@.len(),
            n == next@.len(),
            current_view == Some(cur@),
            current_view == opt_vec_view(current),
            i <= n,
            merged@.len() == i,
            forall|j: int|
                0 <= j < i ==> #[trigger] spec_merge_result_types(Some(cur@[j]), next@[j])
                    == Some(merged@[j]),
        decreases n - i,
    {
        match merge_result_types(Some(cur[i]), next[i]) {
            Some(t) => merged.push(t),
            None => {
                assert(!(spec_merge_result_types(Some(cur@[i as int]), next@[i as int]) is Some));
                return None;
            },
        }
        i = i + 1;
    }
    assert(merged@ =~= Seq::new(
        cur@.len(),
        |j: int| spec_merge_result_types(Some(cur@[j]), next@[j]).unwrap(),
    ));
    Some(merged)
}

/// Element-wise [`spec_selected_branch_type`] of two tuple branches.
pub open spec fn spec_selected_tuple_branch_types(
    condition_qualifier: Qualifier,
    then_types: Seq<PineType>,
    else_types: Seq<PineType>,
    condition_value: bool,
) -> Option<Seq<PineType>> {
    if then_types.len() != else_types.len() {
        None
    } else if forall|i: int|
        0 <= i < then_types.len() ==> #[trigger] spec_selected_branch_type(
            condition_qualifier,
            then_types[i],
            else_types[i],
            condition_value,
        ) is Some {
        Some(
            Seq::new(
                then_types.len(),
                |i: int|
                    spec_selected_branch_type(
                        condition_qualifier,
                        then_types[i],
                        else_types[i],
                        condition_value,
                    ).unwrap(),
            ),
        )
    } else {
        None
    }
}

pub fn selected_tuple_branch_types(
    condition_qualifier: Qualifier,
    then_types: Vec<PineType>,
    else_types: Vec<PineType>,
    condition_value: bool,
) -> (r: Option<Vec<PineType>>)
    ensures
        opt_vec_view(r) == spec_selected_tuple_branch_types(
            condition_qualifier,
            then_types@,
            else_types@,
            condition_value,
        ),
{
    if then_types.len() != else_types.len() {
        return None;
    }
    let n = then_types.len();
    let mut out: Vec<PineType> = Vec::new();
    let mut i: usize = 0;
    while i < n
        invariant
            n == then_types@.len(),
            n == else_types@.len(),
            i <= n,
            out@.len() == i,
            forall|j: int|
                0 <= j < i ==> #[trigger] spec_selected_branch_type(
                    condition_qualifier,
                    then_types@[j],
                    else_types@[j],
                    condition_value,
                ) == Some(out@[j]),
        decreases n - i,
    {
        match selected_branch_type(condition_qualifier, then_types[i], else_types[i], condition_value) {
            Some(t) => out.push(t),
            None => {
                return None;
            },
        }
        i = i + 1;
    }
    assert(out@ =~= Seq::new(
        n as nat,
        |j: int|
            spec_selected_branch_type(
                condition_qualifier,
                then_types@[j],
                else_types@[j],
                condition_value,
            ).unwrap(),
    ));
    Some(out)
}

/// Raises every element's qualifier to at least `qualifier`, keeping kinds.
pub open spec fn spec_promote_tuple_element_qualifiers(types: Seq<PineType>, qualifier: Qualifier) -> Seq<
    PineType,
> {
    types.map_values(
        |t: PineType| PineType { qualifier: spec_strongest_qualifier(qualifier, t.qualifier), kind: t.kind },
    )
}

pub fn promote_tuple_element_qualifiers(types: Vec<PineType>, qualifier: Qualifier) -> (r: Vec<
    PineType,
>)
    ensures
        r@ == spec_promote_tuple_element_qualifiers(types@, qualifier),
{
    let n = types.len();
    let mut out: Vec<PineType> = Vec::new();
    let mut i: usize = 0;
    while i < n
        invariant
            n == types@.len(),
            i <= n,
            out@ == spec_promote_tuple_element_qualifiers(types@.take(i as int), qualifier),
        decreases n - i,
    {
        let t = types[i];
        out.push(PineType::new(strongest_qualifier(qualifier, t.qualifier), t.kind));
        assert(types@.take((i + 1) as int) =~= types@.take(i as int).push(t));
        i = i + 1;
    }
    assert(types@.take(n as int) =~= types@);
    out
}

} // verus!
