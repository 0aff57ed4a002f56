//! Builtin signatures as the call checks read them.
use vstd::prelude::*;

use crate::accepts::Accepts;

verus! {

/// One declared parameter of a builtin.
#[derive(Clone, Copy, Debug)]
pub struct BuiltinParam {
    pub name: &'static str,
    pub accepts: Accepts,
    pub optional: bool,
}

/// A builtin's name and parameter list; a variadic builtin repeats its last parameter.
#[derive(Clone, Debug)]
pub struct BuiltinSignature {
    pub name: &'static str,
    pub params: Vec<BuiltinParam>,
    pub variadic: bool,
}

pub open spec fn param_names(params: Seq<BuiltinParam>) -> Seq<Seq<char>> {
    params.map_values(|p: BuiltinParam| p.name@)
}

/// The first index at which `x` occurs in `s`.
pub open spec fn first_index_of(s: Seq<Seq<char>>, x: Seq<char>) -> Option<int>
    decreases s.len(),
{
    if s.len() == 0 {
        None
    } else {
        match first_index_of(s.drop_last(), x) {
            Some(i) => Some(i),
            None => if s.last() == x {
                Some(s.len() - 1)
            } else {
                None
            },
        }
    }
}

pub proof fn lemma_first_index_of_bounds(s: Seq<Seq<char>>, x: Seq<char>)
    ensures
        first_index_of(s, x) matches Some(i) ==> 0 <= i < s.len() && s[i] == x && forall|j: int|
            0 <= j < i ==> s[j] != x,
        first_index_of(s, x) is None ==> !s.contains(x),
    decreases s.len(),
{
    if s.len() > 0 {
        lemma_first_index_of_bounds(s.drop_last(), x);
        if first_index_of(s.drop_last(), x) is None {
            assert forall|j: int| 0 <= j < s.len() - 1 implies s[j] != x by {
                assert(s.drop_last()[j] == s[j]);
                if s[j] == x {
                    assert(s.drop_last().contains(x));
                }
            }
        } else {
            let i = first_index_of(s.drop_last(), x).unwrap();
            assert(s.drop_last()[i] == s[i]);
            assert forall|j: int| 0 <= j < i implies s[j] != x by {
                assert(s.drop_last()[j] == s[j]);
            }
        }
    }
}

/// The position of the first parameter named `name`.
pub fn param_position(params: &Vec<BuiltinParam>, name: &str) -> (r: Option<usize>)
    ensures
        r matches Some(i) ==> first_index_of(param_names(params@), name@) == Some(i as int),
        r is None ==> first_index_of(param_names(params@), name@) is None,
{
    let n = params.len();
    let ghost names = param_names(params@);
    let mut i: usize = 0;
    while i < n
        invariant
            n == params@.len(),
            names == param_names(params@),
            i <= n,
            first_index_of(names.take(i as int), name@) is None,
        decreases n - i,
    {
        assert(names.take((i + 1) as int).drop_last() =~= names.take(i as int));
        if crate::strings::str_eq(params[i].name, name) {
            assert(names.take((i + 1) as int).last() == name@);
            proof {
                lemma_first_index_prefix(names, name@, i as int);
            }
            return Some(i);
        }
        assert(names.take((i + 1) as int).last() == params@[i as int].name@);
        i = i + 1;
    }
    assert(names.take(n as int) =~= names);
    None
}

/// A first occurrence found in a prefix is the first occurrence in the whole sequence.
pub proof fn lemma_first_index_prefix(s: Seq<Seq<char>>, x: Seq<char>, i: int)
    requires
        0 <= i < s.len(),
        first_index_of(s.take(i + 1), x) == Some(i),
    ensures
        first_index_of(s, x) == Some(i),
    decreases s.len(),
{
    if s.len() > i + 1 {
        assert(s.drop_last().take(i + 1) =~= s.take(i + 1));
        lemma_first_index_prefix(s.drop_last(), x, i);
    } else {
        assert(s.take(i + 1) =~= s);
    }
}

} // verus!
