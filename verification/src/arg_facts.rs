//! What constant evaluation knows of each argument of a call.
use vstd::prelude::*;

use crate::strings::{opt_string_view, strings_view};

verus! {

/// What constant evaluation knows of an argument's value. The `known_`
/// facts use what the analysis knows of the script's symbols: the string the
/// value equals, the set of strings it takes, the integer it equals, and the
/// integer a strict evaluation gives (`Err` where the value is known not to be
/// a usable integer). The `literal_` facts read the expression alone.
#[derive(Clone, Debug)]
pub struct ArgFacts {
    pub known_string: Option<String>,
    pub known_string_domain: Option<Vec<String>>,
    pub known_int: Option<i64>,
    pub known_strict_int: Option<Result<i64, ()>>,
    pub literal_string: Option<String>,
    pub literal_int: Option<i64>,
}

impl ArgFacts {
    /// Nothing is known of the value.
    pub fn unknown() -> (r: ArgFacts)
        ensures
            r.known_string is None,
            r.known_string_domain is None,
            r.known_int is None,
            r.known_strict_int is None,
            r.literal_string is None,
            r.literal_int is None,
    {
        ArgFacts {
            known_string: None,
            known_string_domain: None,
            known_int: None,
            known_strict_int: None,
            literal_string: None,
            literal_int: None,
        }
    }
}

pub open spec fn opt_strings_view(o: Option<Vec<String>>) -> Option<Seq<Seq<char>>> {
    match o {
        Some(v) => Some(strings_view(v@)),
        None => None,
    }
}

pub open spec fn fact_known_string(facts: Seq<ArgFacts>, i: int) -> Option<Seq<char>> {
    if 0 <= i < facts.len() {
        opt_string_view(facts[i].known_string)
    } else {
        None
    }
}

pub open spec fn fact_known_strict_int(facts: Seq<ArgFacts>, i: int) -> Option<Result<i64, ()>> {
    if 0 <= i < facts.len() {
        facts[i].known_strict_int
    } else {
        None
    }
}

pub open spec fn fact_known_int(facts: Seq<ArgFacts>, i: int) -> Option<i64> {
    if 0 <= i < facts.len() {
        facts[i].known_int
    } else {
        None
    }
}

pub open spec fn fact_literal_string(facts: Seq<ArgFacts>, i: int) -> Option<Seq<char>> {
    if 0 <= i < facts.len() {
        opt_string_view(facts[i].literal_string)
    } else {
        None
    }
}

pub open spec fn fact_literal_int(facts: Seq<ArgFacts>, i: int) -> Option<i64> {
    if 0 <= i < facts.len() {
        facts[i].literal_int
    } else {
        None
    }
}

/// The known integer value of argument `i`, if any.
pub fn known_int_at(facts: &[ArgFacts], i: usize) -> (r: Option<i64>)
    ensures
        r == fact_known_int(facts@, i as int),
{
    if i < facts.len() {
        facts[i].known_int
    } else {
        None
    }
}

/// The integer literal argument `i` is, if any.
pub fn literal_int_at(facts: &[ArgFacts], i: usize) -> (r: Option<i64>)
    ensures
        r == fact_literal_int(facts@, i as int),
{
    if i < facts.len() {
        facts[i].literal_int
    } else {
        None
    }
}

/// The known string value of argument `i`, if any.
pub fn known_string_at(facts: &[ArgFacts], i: usize) -> (r: Option<&str>)
    ensures
        opt_str_view(r) == fact_known_string(facts@, i as int),
{
    if i < facts.len() {
        match &facts[i].known_string {
            Some(s) => Some(s.as_str()),
            None => None,
        }
    } else {
        None
    }
}

/// The string literal argument `i` is, if any.
pub fn literal_string_at(facts: &[ArgFacts], i: usize) -> (r: Option<&str>)
    ensures
        opt_str_view(r) == fact_literal_string(facts@, i as int),
{
    if i < facts.len() {
        match &facts[i].literal_string {
            Some(s) => Some(s.as_str()),
            None => None,
        }
    } else {
        None
    }
}

pub open spec fn opt_str_view(r: Option<&str>) -> Option<Seq<char>> {
    match r {
        Some(s) => Some(s@),
        None => None,
    }
}

} // verus!
