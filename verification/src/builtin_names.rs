//! Builtin name tables: which methods map to which builtins, and which
//! builtins emit output, declare the script or mutate a collection.
use vstd::prelude::*;
use vstd::string::*;

use crate::strings::{
    opt_string_view, rsplit_once_char, spec_rsplit_once_char, spec_starts_with, starts_with, str_eq,
};
use crate::syntax::CallArg;

verus! {

pub open spec fn spec_is_array_call_result_method(m: Seq<char>) -> bool {
    m == "size"@ || m == "get"@ || m == "first"@ || m == "last"@ || m == "copy"@
        || m == "includes"@ || m == "indexof"@ || m == "lastindexof"@ || m == "binary_search"@
        || m == "binary_search_leftmost"@ || m == "binary_search_rightmost"@
}

/// The array builtin a method on an array-valued call result resolves to.
pub fn array_call_result_builtin_name(method_name: &str) -> (r: Option<&'static str>)
    ensures
        r is Some <==> spec_is_array_call_result_method(method_name@),
        r matches Some(b) ==> b@ == "array."@ + method_name@,
{
    proof {
        reveal_strlit("array.");
    }
    if str_eq(method_name, "size") {
        proof {
            reveal_strlit("size");
            reveal_strlit("array.size");
            assert("array.size"@ =~= "array."@ + method_name@);
        }
        return Some("array.size");
    }
    if str_eq(method_name, "get") {
        proof {
            reveal_strlit("get");
            reveal_strlit("array.get");
            assert("array.get"@ =~= "array."@ + method_name@);
        }
        return Some("array.get");
    }
    if str_eq(method_name, "first") {
        proof {
            reveal_strlit("first");
            reveal_strlit("array.first");
            assert("array.first"@ =~= "array."@ + method_name@);
        }
        return Some("array.first");
    }
    if str_eq(method_name, "last") {
        proof {
            reveal_strlit("last");
            reveal_strlit("array.last");
            assert("array.last"@ =~= "array."@ + method_name@);
        }
        return Some("array.last");
    }
    if str_eq(method_name, "copy") {
        proof {
            reveal_strlit("copy");
            reveal_strlit("array.copy");
            assert("array.copy"@ =~= "array."@ + method_name@);
        }
        return Some("array.copy");
    }
    if str_eq(method_name, "includes") {
        proof {
            reveal_strlit("includes");
            reveal_strlit("array.includes");
            assert("array.includes"@ =~= "array."@ + method_name@);
        }
        return Some("array.includes");
    }
    if str_eq(method_name, "indexof") {
        proof {
            reveal_strlit("indexof");
            reveal_strlit("array.indexof");
            assert("array.indexof"@ =~= "array."@ + method_name@);
        }
        return Some("array.indexof");
    }
    if str_eq(method_name, "lastindexof") {
        proof {
            reveal_strlit("lastindexof");
            reveal_strlit("array.lastindexof");
            assert("array.lastindexof"@ =~= "array."@ + method_name@);
        }
        return Some("array.lastindexof");
    }
    if str_eq(method_name, "binary_search") {
        proof {
            reveal_strlit("binary_search");
            reveal_strlit("array.binary_search");
            assert("array.binary_search"@ =~= "array."@ + method_name@);
        }
        return Some("array.binary_search");
    }
    if str_eq(method_name, "binary_search_leftmost") {
        proof {
            reveal_strlit("binary_search_leftmost");
            reveal_strlit("array.binary_search_leftmost");
            assert("array.binary_search_leftmost"@ =~= "array."@ + method_name@);
        }
        return Some("array.binary_search_leftmost");
    }
    if str_eq(method_name, "binary_search_rightmost") {
        proof {
            reveal_strlit("binary_search_rightmost");
            reveal_strlit("array.binary_search_rightmost");
            assert("array.binary_search_rightmost"@ =~= "array."@ + method_name@);
        }
        return Some("array.binary_search_rightmost");
    }
    None
}

pub open spec fn spec_is_matrix_call_result_method(m: Seq<char>) -> bool {
    m == "rows"@ || m == "columns"@ || m == "elements_count"@ || m == "get"@ || m == "copy"@
        || m == "diff"@ || m == "eigenvectors"@ || m == "inv"@ || m == "kron"@ || m == "mult"@
        || m == "pinv"@ || m == "pow"@ || m == "submatrix"@ || m == "transpose"@ || m == "row"@
        || m == "col"@ || m == "eigenvalues"@ || m == "is_square"@ || m == "is_zero"@
        || m == "is_binary"@ || m == "is_diagonal"@ || m == "is_identity"@
        || m == "is_symmetric"@ || m == "is_antisymmetric"@ || m == "is_stochastic"@
        || m == "sum"@ || m == "avg"@ || m == "min"@ || m == "max"@ || m == "mode"@
        || m == "trace"@ || m == "det"@ || m == "rank"@
}

/// The matrix builtin a method on a matrix-valued call result resolves to.
pub fn matrix_call_result_builtin_name(method_name: &str) -> (r: Option<&'static str>)
    ensures
        r is Some <==> spec_is_matrix_call_result_method(method_name@),
        r matches Some(b) ==> b@ == "matrix."@ + method_name@,
{
    proof {
        reveal_strlit("matrix.");
    }
    if str_eq(method_name, "rows") {
        proof {
            reveal_strlit("rows");
            reveal_strlit("matrix.rows");
            assert("matrix.rows"@ =~= "matrix."@ + method_name@);
        }
        return Some("matrix.rows");
    }
    if str_eq(method_name, "columns") {
        proof {
            reveal_strlit("columns");
            reveal_strlit("matrix.columns");
            assert("matrix.columns"@ =~= "matrix."@ + method_name@);
        }
        return Some("matrix.columns");
    }
    if str_eq(method_name, "elements_count") {
        proof {
            reveal_strlit("elements_count");
            reveal_strlit("matrix.elements_count");
            assert("matrix.elements_count"@ =~= "matrix."@ + method_name@);
        }
        return Some("matrix.elements_count");
    }
    if str_eq(method_name, "get") {
        proof {
            reveal_strlit("get");
            reveal_strlit("matrix.get");
            assert("matrix.get"@ =~= "matrix."@ + method_name@);
        }
        return Some("matrix.get");
    }
    if str_eq(method_name, "copy") {
        proof {
            reveal_strlit("copy");
            reveal_strlit("matrix.copy");
            assert("matrix.copy"@ =~= "matrix."@ + method_name@);
        }
        return Some("matrix.copy");
    }
    if str_eq(method_name, "diff") {
        proof {
            reveal_strlit("diff");
            reveal_strlit("matrix.diff");
            assert("matrix.diff"@ =~= "matrix."@ + method_name@);
        }
        return Some("matrix.diff");
    }
    if str_eq(method_name, "eigenvectors") {
        proof {
            reveal_strlit("eigenvectors");
            reveal_strlit("matrix.eigenvectors");
            assert("matrix.eigenvectors"@ =~= "matrix."@ + method_name@);
        }
        return Some("matrix.eigenvectors");
    }
    if str_eq(method_name, "inv") {
        proof {
            reveal_strlit("inv");
            reveal_strlit("matrix.inv");
            assert("matrix.inv"@ =~= "matrix."@ + method_name@);
        }
        return Some("matrix.inv");
    }
    if str_eq(method_name, "kron") {
        proof {
            reveal_strlit("kron");
            reveal_strlit("matrix.kron");
            assert("matrix.kron"@ =~= "matrix."@ + method_name@);
        }
        return Some("matrix.kron");
    }
    if str_eq(method_name, "mult") {
        proof {
            reveal_strlit("mult");
            reveal_strlit("matrix.mult");
            assert("matrix.mult"@ =~= "matrix."@ + method_name@);
        }
        return Some("matrix.mult");
    }
    if str_eq(method_name, "pinv") {
        proof {
            reveal_strlit("pinv");
            reveal_strlit("matrix.pinv");
            assert("matrix.pinv"@ =~= "matrix."@ + method_name@);
        }
        return Some("matrix.pinv");
    }
    if str_eq(method_name, "pow") {
        proof {
            reveal_strlit("pow");
            reveal_strlit("matrix.pow");
            assert("matrix.pow"@ =~= "matrix."@ + method_name@);
        }
        return Some("matrix.pow");
    }
    if str_eq(method_name, "submatrix") {
        proof {
            reveal_strlit("submatrix");
            reveal_strlit("matrix.submatrix");
            assert("matrix.submatrix"@ =~= "matrix."@ + method_name@);
        }
        return Some("matrix.submatrix");
    }
    if str_eq(method_name, "transpose") {
        proof {
            reveal_strlit("transpose");
            reveal_strlit("matrix.transpose");
            assert("matrix.transpose"@ =~= "matrix."@ + method_name@);
        }
        return Some("matrix.transpose");
    }
    if str_eq(method_name, "row") {
        proof {
            reveal_strlit("row");
            reveal_strlit("matrix.row");
            assert("matrix.row"@ =~= "matrix."@ + method_name@);
        }
        return Some("matrix.row");
    }
    if str_eq(method_name, "col") {
        proof {
            reveal_strlit("col");
            reveal_strlit("matrix.col");
            assert("matrix.col"@ =~= "matrix."@ + method_name@);
        }
        return Some("matrix.col");
    }
    if str_eq(method_name, "eigenvalues") {
        proof {
            reveal_strlit("eigenvalues");
            reveal_strlit("matrix.eigenvalues");
            assert("matrix.eigenvalues"@ =~= "matrix."@ + method_name@);
        }
        return Some("matrix.eigenvalues");
    }
    if str_eq(method_name, "is_square") {
        proof {
            reveal_strlit("is_square");
            reveal_strlit("matrix.is_square");
            assert("matrix.is_square"@ =~= "matrix."@ + method_name@);
        }
        return Some("matrix.is_square");
    }
    if str_eq(method_name, "is_zero") {
        proof {
            reveal_strlit("is_zero");
            reveal_strlit("matrix.is_zero");
            assert("matrix.is_zero"@ =~= "matrix."@ + method_name@);
        }
        return Some("matrix.is_zero");
    }
    if str_eq(method_name, "is_binary") {
        proof {
            reveal_strlit("is_binary");
            reveal_strlit("matrix.is_binary");
            assert("matrix.is_binary"@ =~= "matrix."@ + method_name@);
        }
        return Some("matrix.is_binary");
    }
    if str_eq(method_name, "is_diagonal") {
        proof {
            reveal_strlit("is_diagonal");
            reveal_strlit("matrix.is_diagonal");
            assert("matrix.is_diagonal"@ =~= "matrix."@ + method_name@);
        }
        return Some("matrix.is_diagonal");
    }
    if str_eq(method_name, "is_identity") {
        proof {
            reveal_strlit("is_identity");
            reveal_strlit("matrix.is_identity");
            assert("matrix.is_identity"@ =~= "matrix."@ + method_name@);
        }
        return Some("matrix.is_identity");
    }
    if str_eq(method_name, "is_symmetric") {
        proof {
            reveal_strlit("is_symmetric");
            reveal_strlit("matrix.is_symmetric");
            assert("matrix.is_symmetric"@ =~= "matrix."@ + method_name@);
        }
        return Some("matrix.is_symmetric");
    }
    if str_eq(method_name, "is_antisymmetric") {
        proof {
            reveal_strlit("is_antisymmetric");
            reveal_strlit("matrix.is_antisymmetric");
            assert("matrix.is_antisymmetric"@ =~= "matrix."@ + method_name@);
        }
        return Some("matrix.is_antisymmetric");
    }
    if str_eq(method_name, "is_stochastic") {
        proof {
            reveal_strlit("is_stochastic");
            reveal_strlit("matrix.is_stochastic");
            assert("matrix.is_stochastic"@ =~= "matrix."@ + method_name@);
        }
        return Some("matrix.is_stochastic");
    }
    if str_eq(method_name, "sum") {
        proof {
            reveal_strlit("sum");
            reveal_strlit("matrix.sum");
            assert("matrix.sum"@ =~= "matrix."@ + method_name@);
        }
        return Some("matrix.sum");
    }
    if str_eq(method_name, "avg") {
        proof {
            reveal_strlit("avg");
            reveal_strlit("matrix.avg");
            assert("matrix.avg"@ =~= "matrix."@ + method_name@);
        }
        return Some("matrix.avg");
    }
    if str_eq(method_name, "min") {
        proof {
            reveal_strlit("min");
            reveal_strlit("matrix.min");
            assert("matrix.min"@ =~= "matrix."@ + method_name@);
        }
        return Some("matrix.min");
    }
    if str_eq(method_name, "max") {
        proof {
            reveal_strlit("max");
            reveal_strlit("matrix.max");
            assert("matrix.max"@ =~= "matrix."@ + method_name@);
        }
        return Some("matrix.max");
    }
    if str_eq(method_name, "mode") {
        proof {
            reveal_strlit("mode");
            reveal_strlit("matrix.mode");
            assert("matrix.mode"@ =~= "matrix."@ + method_name@);
        }
        return Some("matrix.mode");
    }
    if str_eq(method_name, "trace") {
        proof {
            reveal_strlit("trace");
            reveal_strlit("matrix.trace");
            assert("matrix.trace"@ =~= "matrix."@ + method_name@);
        }
        return Some("matrix.trace");
    }
    if str_eq(method_name, "det") {
        proof {
            reveal_strlit("det");
            reveal_strlit("matrix.det");
            assert("matrix.det"@ =~= "matrix."@ + method_name@);
        }
        return Some("matrix.det");
    }
    if str_eq(method_name, "rank") {
        proof {
            reveal_strlit("rank");
            reveal_strlit("matrix.rank");
            assert("matrix.rank"@ =~= "matrix."@ + method_name@);
        }
        return Some("matrix.rank");
    }
    None
}

pub open spec fn spec_is_map_call_result_method(m: Seq<char>) -> bool {
    m == "size"@ || m == "get"@ || m == "contains"@ || m == "copy"@ || m == "keys"@
        || m == "values"@
}

/// The map builtin a method on a map-valued call result resolves to.
pub fn map_call_result_builtin_name(method_name: &str) -> (r: Option<&'static str>)
    ensures
        r is Some <==> spec_is_map_call_result_method(method_name@),
        r matches Some(b) ==> b@ == "map."@ + method_name@,
{
    proof {
        reveal_strlit("map.");
    }
    if str_eq(method_name, "size") {
        proof {
            reveal_strlit("size");
            reveal_strlit("map.size");
            assert("map.size"@ =~= "map."@ + method_name@);
        }
        return Some("map.size");
    }
    if str_eq(method_name, "get") {
        proof {
            reveal_strlit("get");
            reveal_strlit("map.get");
            assert("map.get"@ =~= "map."@ + method_name@);
        }
        return Some("map.get");
    }
    if str_eq(method_name, "contains") {
        proof {
            reveal_strlit("contains");
            reveal_strlit("map.contains");
            assert("map.contains"@ =~= "map."@ + method_name@);
        }
        return Some("map.contains");
    }
    if str_eq(method_name, "copy") {
        proof {
            reveal_strlit("copy");
            reveal_strlit("map.copy");
            assert("map.copy"@ =~= "map."@ + method_name@);
        }
        return Some("map.copy");
    }
    if str_eq(method_name, "keys") {
        proof {
            reveal_strlit("keys");
            reveal_strlit("map.keys");
            assert("map.keys"@ =~= "map."@ + method_name@);
        }
        return Some("map.keys");
    }
    if str_eq(method_name, "values") {
        proof {
            reveal_strlit("values");
            reveal_strlit("map.values");
            assert("map.values"@ =~= "map."@ + method_name@);
        }
        return Some("map.values");
    }
    None
}

pub open spec fn spec_is_array_method(m: Seq<char>) -> bool {
    m == "size"@ || m == "push"@ || m == "get"@ || m == "set"@ || m == "insert"@ || m == "pop"@
        || m == "remove"@ || m == "shift"@ || m == "unshift"@ || m == "fill"@ || m == "first"@
        || m == "last"@ || m == "copy"@ || m == "slice"@ || m == "concat"@ || m == "includes"@
        || m == "every"@ || m == "some"@ || m == "indexof"@ || m == "lastindexof"@
        || m == "binary_search"@ || m == "binary_search_leftmost"@
        || m == "binary_search_rightmost"@ || m == "abs"@ || m == "min"@ || m == "max"@
        || m == "sum"@ || m == "avg"@ || m == "range"@ || m == "median"@ || m == "mode"@
        || m == "percentile_nearest_rank"@ || m == "percentile_linear_interpolation"@
        || m == "percentrank"@ || m == "covariance"@ || m == "standardize"@ || m == "variance"@
        || m == "stdev"@ || m == "sort"@ || m == "sort_indices"@ || m == "reverse"@
        || m == "join"@ || m == "clear"@
}

/// The array builtin a method called on an array resolves to.
pub fn array_method_builtin_name(method_name: &str) -> (r: Option<&'static str>)
    ensures
        r is Some <==> spec_is_array_method(method_name@),
        r matches Some(b) ==> b@ == "array."@ + method_name@,
{
    proof {
        reveal_strlit("array.");
    }
    if str_eq(method_name, "size") {
        proof {
            reveal_strlit("size");
            reveal_strlit("array.size");
            assert("array.size"@ =~= "array."@ + method_name@);
        }
        return Some("array.size");
    }
    if str_eq(method_name, "push") {
        proof {
            reveal_strlit("push");
            reveal_strlit("array.push");
            assert("array.push"@ =~= "array."@ + method_name@);
        }
        return Some("array.push");
    }
    if str_eq(method_name, "get") {
        proof {
            reveal_strlit("get");
            reveal_strlit("array.get");
            assert("array.get"@ =~= "array."@ + method_name@);
        }
        return Some("array.get");
    }
    if str_eq(method_name, "set") {
        proof {
            reveal_strlit("set");
            reveal_strlit("array.set");
            assert("array.set"@ =~= "array."@ + method_name@);
        }
        return Some("array.set");
    }
    if str_eq(method_name, "insert") {
        proof {
            reveal_strlit("insert");
            reveal_strlit("array.insert");
            assert("array.insert"@ =~= "array."@ + method_name@);
        }
        return Some("array.insert");
    }
    if str_eq(method_name, "pop") {
        proof {
            reveal_strlit("pop");
            reveal_strlit("array.pop");
            assert("array.pop"@ =~= "array."@ + method_name@);
        }
        return Some("array.pop");
    }
    if str_eq(method_name, "remove") {
        proof {
            reveal_strlit("remove");
            reveal_strlit("array.remove");
            assert("array.remove"@ =~= "array."@ + method_name@);
        }
        return Some("array.remove");
    }
    if str_eq(method_name, "shift") {
        proof {
            reveal_strlit("shift");
            reveal_strlit("array.shift");
            assert("array.shift"@ =~= "array."@ + method_name@);
        }
        return Some("array.shift");
    }
    if str_eq(method_name, "unshift") {
        proof {
            reveal_strlit("unshift");
            reveal_strlit("array.unshift");
            assert("array.unshift"@ =~= "array."@ + method_name@);
        }
        return Some("array.unshift");
    }
    if str_eq(method_name, "fill") {
        proof {
            reveal_strlit("fill");
            reveal_strlit("array.fill");
            assert("array.fill"@ =~= "array."@ + method_name@);
        }
        return Some("array.fill");
    }
    if str_eq(method_name, "first") {
        proof {
            reveal_strlit("first");
            reveal_strlit("array.first");
            assert("array.first"@ =~= "array."@ + method_name@);
        }
        return Some("array.first");
    }
    if str_eq(method_name, "last") {
        proof {
            reveal_strlit("last");
            reveal_strlit("array.last");
            assert("array.last"@ =~= "array."@ + method_name@);
        }
        return Some("array.last");
    }
    if str_eq(method_name, "copy") {
        proof {
            reveal_strlit("copy");
            reveal_strlit("array.copy");
            assert("array.copy"@ =~= "array."@ + method_name@);
        }
        return Some("array.copy");
    }
    if str_eq(method_name, "slice") {
        proof {
            reveal_strlit("slice");
            reveal_strlit("array.slice");
            assert("array.slice"@ =~= "array."@ + method_name@);
        }
        return Some("array.slice");
    }
    if str_eq(method_name, "concat") {
        proof {
            reveal_strlit("concat");
            reveal_strlit("array.concat");
            assert("array.concat"@ =~= "array."@ + method_name@);
        }
        return Some("array.concat");
    }
    if str_eq(method_name, "includes") {
        proof {
            reveal_strlit("includes");
            reveal_strlit("array.includes");
            assert("array.includes"@ =~= "array."@ + method_name@);
        }
        return Some("array.includes");
    }
    if str_eq(method_name, "every") {
        proof {
            reveal_strlit("every");
            reveal_strlit("array.every");
            assert("array.every"@ =~= "array."@ + method_name@);
        }
        return Some("array.every");
    }
    if str_eq(method_name, "some") {
        proof {
            reveal_strlit("some");
            reveal_strlit("array.some");
            assert("array.some"@ =~= "array."@ + method_name@);
        }
        return Some("array.some");
    }
    if str_eq(method_name, "indexof") {
        proof {
            reveal_strlit("indexof");
            reveal_strlit("array.indexof");
            assert("array.indexof"@ =~= "array."@ + method_name@);
        }
        return Some("array.indexof");
    }
    if str_eq(method_name, "lastindexof") {
        proof {
            reveal_strlit("lastindexof");
            reveal_strlit("array.lastindexof");
            assert("array.lastindexof"@ =~= "array."@ + method_name@);
        }
        return Some("array.lastindexof");
    }
    if str_eq(method_name, "binary_search") {
        proof {
            reveal_strlit("binary_search");
            reveal_strlit("array.binary_search");
            assert("array.binary_search"@ =~= "array."@ + method_name@);
        }
        return Some("array.binary_search");
    }
    if str_eq(method_name, "binary_search_leftmost") {
        proof {
            reveal_strlit("binary_search_leftmost");
            reveal_strlit("array.binary_search_leftmost");
            assert("array.binary_search_leftmost"@ =~= "array."@ + method_name@);
        }
        return Some("array.binary_search_leftmost");
    }
    if str_eq(method_name, "binary_search_rightmost") {
        proof {
            reveal_strlit("binary_search_rightmost");
            reveal_strlit("array.binary_search_rightmost");
            assert("array.binary_search_rightmost"@ =~= "array."@ + method_name@);
        }
        return Some("array.binary_search_rightmost");
    }
    if str_eq(method_name, "abs") {
        proof {
            reveal_strlit("abs");
            reveal_strlit("array.abs");
            assert("array.abs"@ =~= "array."@ + method_name@);
        }
        return Some("array.abs");
    }
    if str_eq(method_name, "min") {
        proof {
            reveal_strlit("min");
            reveal_strlit("array.min");
            assert("array.min"@ =~= "array."@ + method_name@);
        }
        return Some("array.min");
    }
    if str_eq(method_name, "max") {
        proof {
            reveal_strlit("max");
            reveal_strlit("array.max");
            assert("array.max"@ =~= "array."@ + method_name@);
        }
        return Some("array.max");
    }
    if str_eq(method_name, "sum") {
        proof {
            reveal_strlit("sum");
            reveal_strlit("array.sum");
            assert("array.sum"@ =~= "array."@ + method_name@);
        }
        return Some("array.sum");
    }
    if str_eq(method_name, "avg") {
        proof {
            reveal_strlit("avg");
            reveal_strlit("array.avg");
            assert("array.avg"@ =~= "array."@ + method_name@);
        }
        return Some("array.avg");
    }
    if str_eq(method_name, "range") {
        proof {
            reveal_strlit("range");
            reveal_strlit("array.range");
            assert("array.range"@ =~= "array."@ + method_name@);
        }
        return Some("array.range");
    }
    if str_eq(method_name, "median") {
        proof {
            reveal_strlit("median");
            reveal_strlit("array.median");
            assert("array.median"@ =~= "array."@ + method_name@);
        }
        return Some("array.median");
    }
    if str_eq(method_name, "mode") {
        proof {
            reveal_strlit("mode");
            reveal_strlit("array.mode");
            assert("array.mode"@ =~= "array."@ + method_name@);
        }
        return Some("array.mode");
    }
    if str_eq(method_name, "percentile_nearest_rank") {
        proof {
            reveal_strlit("percentile_nearest_rank");
            reveal_strlit("array.percentile_nearest_rank");
            assert("array.percentile_nearest_rank"@ =~= "array."@ + method_name@);
        }
        return Some("array.percentile_nearest_rank");
    }
    if str_eq(method_name, "percentile_linear_interpolation") {
        proof {
            reveal_strlit("percentile_linear_interpolation");
            reveal_strlit("array.percentile_linear_interpolation");
            assert("array.percentile_linear_interpolation"@ =~= "array."@ + method_name@);
        }
        return Some("array.percentile_linear_interpolation");
    }
    if str_eq(method_name, "percentrank") {
        proof {
            reveal_strlit("percentrank");
            reveal_strlit("array.percentrank");
            assert("array.percentrank"@ =~= "array."@ + method_name@);
        }
        return Some("array.percentrank");
    }
    if str_eq(method_name, "covariance") {
        proof {
            reveal_strlit("covariance");
            reveal_strlit("array.covariance");
            assert("array.covariance"@ =~= "array."@ + method_name@);
        }
        return Some("array.covariance");
    }
    if str_eq(method_name, "standardize") {
        proof {
            reveal_strlit("standardize");
            reveal_strlit("array.standardize");
            assert("array.standardize"@ =~= "array."@ + method_name@);
        }
        return Some("array.standardize");
    }
    if str_eq(method_name, "variance") {
        proof {
            reveal_strlit("variance");
            reveal_strlit("array.variance");
            assert("array.variance"@ =~= "array."@ + method_name@);
        }
        return Some("array.variance");
    }
    if str_eq(method_name, "stdev") {
        proof {
            reveal_strlit("stdev");
            reveal_strlit("array.stdev");
            assert("array.stdev"@ =~= "array."@ + method_name@);
        }
        return Some("array.stdev");
    }
    if str_eq(method_name, "sort") {
        proof {
            reveal_strlit("sort");
            reveal_strlit("array.sort");
            assert("array.sort"@ =~= "array."@ + method_name@);
        }
        return Some("array.sort");
    }
    if str_eq(method_name, "sort_indices") {
        proof {
            reveal_strlit("sort_indices");
            reveal_strlit("array.sort_indices");
            assert("array.sort_indices"@ =~= "array."@ + method_name@);
        }
        return Some("array.sort_indices");
    }
    if str_eq(method_name, "reverse") {
        proof {
            reveal_strlit("reverse");
            reveal_strlit("array.reverse");
            assert("array.reverse"@ =~= "array."@ + method_name@);
        }
        return Some("array.reverse");
    }
    if str_eq(method_name, "join") {
        proof {
            reveal_strlit("join");
            reveal_strlit("array.join");
            assert("array.join"@ =~= "array."@ + method_name@);
        }
        return Some("array.join");
    }
    if str_eq(method_name, "clear") {
        proof {
            reveal_strlit("clear");
            reveal_strlit("array.clear");
            assert("array.clear"@ =~= "array."@ + method_name@);
        }
        return Some("array.clear");
    }
    None
}

pub open spec fn spec_is_map_method(m: Seq<char>) -> bool {
    m == "size"@ || m == "put"@ || m == "get"@ || m == "contains"@ || m == "clear"@
        || m == "remove"@ || m == "copy"@ || m == "put_all"@ || m == "keys"@ || m == "values"@
}

/// The map builtin a method called on a map resolves to.
pub fn map_method_builtin_name(method_name: &str) -> (r: Option<&'static str>)
    ensures
        r is Some <==> spec_is_map_method(method_name@),
        r matches Some(b) ==> b@ == "map."@ + method_name@,
{
    proof {
        reveal_strlit("map.");
    }
    if str_eq(method_name, "size") {
        proof {
            reveal_strlit("size");
            reveal_strlit("map.size");
            assert("map.size"@ =~= "map."@ + method_name@);
        }
        return Some("map.size");
    }
    if str_eq(method_name, "put") {
        proof {
            reveal_strlit("put");
            reveal_strlit("map.put");
            assert("map.put"@ =~= "map."@ + method_name@);
        }
        return Some("map.put");
    }
    if str_eq(method_name, "get") {
        proof {
            reveal_strlit("get");
            reveal_strlit("map.get");
            assert("map.get"@ =~= "map."@ + method_name@);
        }
        return Some("map.get");
    }
    if str_eq(method_name, "contains") {
        proof {
            reveal_strlit("contains");
            reveal_strlit("map.contains");
            assert("map.contains"@ =~= "map."@ + method_name@);
        }
        return Some("map.contains");
    }
    if str_eq(method_name, "clear") {
        proof {
            reveal_strlit("clear");
            reveal_strlit("map.clear");
            assert("map.clear"@ =~= "map."@ + method_name@);
        }
        return Some("map.clear");
    }
    if str_eq(method_name, "remove") {
        proof {
            reveal_strlit("remove");
            reveal_strlit("map.remove");
            assert("map.remove"@ =~= "map."@ + method_name@);
        }
        return Some("map.remove");
    }
    if str_eq(method_name, "copy") {
        proof {
            reveal_strlit("copy");
            reveal_strlit("map.copy");
            assert("map.copy"@ =~= "map."@ + method_name@);
        }
        return Some("map.copy");
    }
    if str_eq(method_name, "put_all") {
        proof {
            reveal_strlit("put_all");
            reveal_strlit("map.put_all");
            assert("map.put_all"@ =~= "map."@ + method_name@);
        }
        return Some("map.put_all");
    }
    if str_eq(method_name, "keys") {
        proof {
            reveal_strlit("keys");
            reveal_strlit("map.keys");
            assert("map.keys"@ =~= "map."@ + method_name@);
        }
        return Some("map.keys");
    }
    if str_eq(method_name, "values") {
        proof {
            reveal_strlit("values");
            reveal_strlit("map.values");
            assert("map.values"@ =~= "map."@ + method_name@);
        }
        return Some("map.values");
    }
    None
}

pub open spec fn spec_is_output_or_declaration_name(name: Seq<char>) -> bool {
    name == "indicator"@ || name == "max_bars_back"@ || name == "strategy"@ || name == "alert"@
        || name == "alertcondition"@ || name == "plot"@ || name == "hline"@ || name == "fill"@
        || name == "bgcolor"@ || name == "barcolor"@ || name == "plotchar"@
        || name == "plotshape"@ || name == "plotarrow"@ || name == "plotbar"@
        || name == "plotcandle"@ || name == "label.new"@ || name == "label.set_x"@
        || name == "label.set_xloc"@ || name == "label.set_y"@ || name == "label.set_xy"@
        || name == "label.set_point"@ || name == "label.set_yloc"@ || name == "label.set_text"@
        || name == "label.set_color"@ || name == "label.set_textcolor"@
        || name == "label.set_style"@ || name == "label.set_size"@
        || name == "label.set_tooltip"@ || name == "label.set_textalign"@
        || name == "label.set_text_font_family"@ || name == "label.set_text_formatting"@
        || name == "label.delete"@ || name == "label.copy"@ || name == "line.new"@
        || name == "line.set_first_point"@ || name == "line.set_x1"@ || name == "line.set_y1"@
        || name == "line.set_xy1"@ || name == "line.set_second_point"@ || name == "line.set_x2"@
        || name == "line.set_y2"@ || name == "line.set_xy2"@ || name == "line.set_xloc"@
        || name == "line.set_color"@ || name == "line.set_width"@ || name == "line.set_style"@
        || name == "line.set_extend"@ || name == "line.delete"@ || name == "line.copy"@
        || name == "polyline.new"@ || name == "polyline.delete"@ || name == "box.new"@
        || name == "box.set_left"@ || name == "box.set_top"@ || name == "box.set_right"@
        || name == "box.set_bottom"@ || name == "box.set_lefttop"@
        || name == "box.set_top_left_point"@ || name == "box.set_rightbottom"@
        || name == "box.set_bottom_right_point"@ || name == "box.set_bgcolor"@
        || name == "box.set_border_color"@ || name == "box.set_border_width"@
        || name == "box.set_border_style"@ || name == "box.set_extend"@
        || name == "box.set_xloc"@ || name == "box.set_text"@ || name == "box.set_text_color"@
        || name == "box.set_text_size"@ || name == "box.set_text_halign"@
        || name == "box.set_text_valign"@ || name == "box.set_text_wrap"@
        || name == "box.set_text_font_family"@ || name == "box.set_text_formatting"@
        || name == "box.delete"@ || name == "box.copy"@ || name == "table.new"@
        || name == "table.delete"@ || name == "table.clear"@ || name == "table.merge_cells"@
        || name == "table.cell"@ || name == "table.set_position"@
        || name == "table.set_bgcolor"@ || name == "table.set_frame_color"@
        || name == "table.set_frame_width"@ || name == "table.set_border_color"@
        || name == "table.set_border_width"@ || name == "table.cell_set_text"@
        || name == "table.cell_set_bgcolor"@ || name == "table.cell_set_text_color"@
        || name == "table.cell_set_width"@ || name == "table.cell_set_height"@
        || name == "table.cell_set_text_size"@ || name == "table.cell_set_text_halign"@
        || name == "table.cell_set_text_valign"@ || name == "table.cell_set_tooltip"@
        || name == "table.cell_set_text_font_family"@
        || name == "table.cell_set_text_formatting"@ || name == "strategy.entry"@
        || name == "strategy.close"@ || name == "strategy.close_all"@
        || name == "strategy.cancel"@ || name == "strategy.cancel_all"@
        || name == "strategy.exit"@
}

pub open spec fn spec_is_output_or_declaration_builtin(name: Seq<char>) -> bool {
    spec_is_output_or_declaration_name(name) || name == "input"@ || spec_starts_with(name, "input."@)
}

fn is_output_or_declaration_name(name: &str) -> (r: bool)
    ensures
        r == spec_is_output_or_declaration_name(name@),
{
    str_eq(name, "indicator") || str_eq(name, "max_bars_back") || str_eq(name, "strategy")
        || str_eq(name, "alert") || str_eq(name, "alertcondition") || str_eq(name, "plot")
        || str_eq(name, "hline") || str_eq(name, "fill") || str_eq(name, "bgcolor")
        || str_eq(name, "barcolor") || str_eq(name, "plotchar") || str_eq(name, "plotshape")
        || str_eq(name, "plotarrow") || str_eq(name, "plotbar") || str_eq(name, "plotcandle")
        || str_eq(name, "label.new") || str_eq(name, "label.set_x")
        || str_eq(name, "label.set_xloc") || str_eq(name, "label.set_y")
        || str_eq(name, "label.set_xy") || str_eq(name, "label.set_point")
        || str_eq(name, "label.set_yloc") || str_eq(name, "label.set_text")
        || str_eq(name, "label.set_color") || str_eq(name, "label.set_textcolor")
        || str_eq(name, "label.set_style") || str_eq(name, "label.set_size")
        || str_eq(name, "label.set_tooltip") || str_eq(name, "label.set_textalign")
        || str_eq(name, "label.set_text_font_family")
        || str_eq(name, "label.set_text_formatting") || str_eq(name, "label.delete")
        || str_eq(name, "label.copy") || str_eq(name, "line.new")
        || str_eq(name, "line.set_first_point") || str_eq(name, "line.set_x1")
        || str_eq(name, "line.set_y1") || str_eq(name, "line.set_xy1")
        || str_eq(name, "line.set_second_point") || str_eq(name, "line.set_x2")
        || str_eq(name, "line.set_y2") || str_eq(name, "line.set_xy2")
        || str_eq(name, "line.set_xloc") || str_eq(name, "line.set_color")
        || str_eq(name, "line.set_width") || str_eq(name, "line.set_style")
        || str_eq(name, "line.set_extend") || str_eq(name, "line.delete")
        || str_eq(name, "line.copy") || str_eq(name, "polyline.new")
        || str_eq(name, "polyline.delete") || str_eq(name, "box.new")
        || str_eq(name, "box.set_left") || str_eq(name, "box.set_top")
        || str_eq(name, "box.set_right") || str_eq(name, "box.set_bottom")
        || str_eq(name, "box.set_lefttop") || str_eq(name, "box.set_top_left_point")
        || str_eq(name, "box.set_rightbottom") || str_eq(name, "box.set_bottom_right_point")
        || str_eq(name, "box.set_bgcolor") || str_eq(name, "box.set_border_color")
        || str_eq(name, "box.set_border_width") || str_eq(name, "box.set_border_style")
        || str_eq(name, "box.set_extend") || str_eq(name, "box.set_xloc")
        || str_eq(name, "box.set_text") || str_eq(name, "box.set_text_color")
        || str_eq(name, "box.set_text_size") || str_eq(name, "box.set_text_halign")
        || str_eq(name, "box.set_text_valign") || str_eq(name, "box.set_text_wrap")
        || str_eq(name, "box.set_text_font_family") || str_eq(name, "box.set_text_formatting")
        || str_eq(name, "box.delete") || str_eq(name, "box.copy") || str_eq(name, "table.new")
        || str_eq(name, "table.delete") || str_eq(name, "table.clear")
        || str_eq(name, "table.merge_cells") || str_eq(name, "table.cell")
        || str_eq(name, "table.set_position") || str_eq(name, "table.set_bgcolor")
        || str_eq(name, "table.set_frame_color") || str_eq(name, "table.set_frame_width")
        || str_eq(name, "table.set_border_color") || str_eq(name, "table.set_border_width")
        || str_eq(name, "table.cell_set_text") || str_eq(name, "table.cell_set_bgcolor")
        || str_eq(name, "table.cell_set_text_color") || str_eq(name, "table.cell_set_width")
        || str_eq(name, "table.cell_set_height") || str_eq(name, "table.cell_set_text_size")
        || str_eq(name, "table.cell_set_text_halign")
        || str_eq(name, "table.cell_set_text_valign") || str_eq(name, "table.cell_set_tooltip")
        || str_eq(name, "table.cell_set_text_font_family")
        || str_eq(name, "table.cell_set_text_formatting") || str_eq(name, "strategy.entry")
        || str_eq(name, "strategy.close") || str_eq(name, "strategy.close_all")
        || str_eq(name, "strategy.cancel") || str_eq(name, "strategy.cancel_all")
        || str_eq(name, "strategy.exit")
}

/// Builtins that declare the script, take inputs, or emit output, drawings,
/// alerts or orders.
pub fn is_output_or_declaration_builtin(name: &str) -> (r: bool)
    ensures
        r == spec_is_output_or_declaration_builtin(name@),
{
    is_output_or_declaration_name(name) || str_eq(name, "input") || starts_with(name, "input.")
}

pub open spec fn spec_is_array_mutation_builtin(name: Seq<char>) -> bool {
    name == "matrix.set"@ || name == "matrix.fill"@ || name == "matrix.reshape"@
        || name == "matrix.reverse"@ || name == "matrix.add_row"@ || name == "matrix.add_col"@
        || name == "matrix.remove_col"@ || name == "matrix.remove_row"@
        || name == "matrix.sort"@ || name == "matrix.swap_columns"@
        || name == "matrix.swap_rows"@ || name == "array.push"@ || name == "array.set"@
        || name == "array.insert"@ || name == "array.pop"@ || name == "array.remove"@
        || name == "array.shift"@ || name == "array.unshift"@ || name == "array.fill"@
        || name == "array.clear"@ || name == "array.sort"@ || name == "array.reverse"@
        || name == "array.concat"@
}

/// Builtins that mutate an array or a matrix in place.
pub fn is_array_mutation_builtin(name: &str) -> (r: bool)
    ensures
        r == spec_is_array_mutation_builtin(name@),
{
    str_eq(name, "matrix.set") || str_eq(name, "matrix.fill") || str_eq(name, "matrix.reshape")
        || str_eq(name, "matrix.reverse") || str_eq(name, "matrix.add_row")
        || str_eq(name, "matrix.add_col") || str_eq(name, "matrix.remove_col")
        || str_eq(name, "matrix.remove_row") || str_eq(name, "matrix.sort")
        || str_eq(name, "matrix.swap_columns") || str_eq(name, "matrix.swap_rows")
        || str_eq(name, "array.push") || str_eq(name, "array.set")
        || str_eq(name, "array.insert") || str_eq(name, "array.pop")
        || str_eq(name, "array.remove") || str_eq(name, "array.shift")
        || str_eq(name, "array.unshift") || str_eq(name, "array.fill")
        || str_eq(name, "array.clear") || str_eq(name, "array.sort")
        || str_eq(name, "array.reverse") || str_eq(name, "array.concat")
}

pub open spec fn spec_is_map_mutation_builtin(name: Seq<char>) -> bool {
    name == "map.put"@ || name == "map.clear"@ || name == "map.remove"@
        || name == "map.put_all"@
}

/// Builtins that mutate a map in place.
pub fn is_map_mutation_builtin(name: &str) -> (r: bool)
    ensures
        r == spec_is_map_mutation_builtin(name@),
{
    str_eq(name, "map.put") || str_eq(name, "map.clear") || str_eq(name, "map.remove")
        || str_eq(name, "map.put_all")
}

pub open spec fn spec_is_ta_extreme_length_overload(name: Seq<char>) -> bool {
    name == "ta.highest"@ || name == "ta.lowest"@ || name == "ta.highestbars"@
        || name == "ta.lowestbars"@
}

/// The highest/lowest builtins that also take a single length argument.
pub fn is_ta_extreme_length_overload(name: &str) -> (r: bool)
    ensures
        r == spec_is_ta_extreme_length_overload(name@),
{
    str_eq(name, "ta.highest") || str_eq(name, "ta.lowest") || str_eq(name, "ta.highestbars")
        || str_eq(name, "ta.lowestbars")
}

pub open spec fn spec_is_ta_pivot_default_source_overload(name: Seq<char>) -> bool {
    name == "ta.pivothigh"@ || name == "ta.pivotlow"@
}

/// The pivot builtins that also take only left and right bar counts.
pub fn is_ta_pivot_default_source_overload(name: &str) -> (r: bool)
    ensures
        r == spec_is_ta_pivot_default_source_overload(name@),
{
    str_eq(name, "ta.pivothigh") || str_eq(name, "ta.pivotlow")
}

pub open spec fn spec_is_time_function_overload(name: Seq<char>) -> bool {
    name == "time"@ || name == "time_close"@
}

/// The time builtins with timeframe/session overloads.
pub fn is_time_function_overload(name: &str) -> (r: bool)
    ensures
        r == spec_is_time_function_overload(name@),
{
    str_eq(name, "time") || str_eq(name, "time_close")
}

pub open spec fn spec_is_timestamp_overload(name: Seq<char>) -> bool {
    name == "timestamp"@
}

/// The timestamp builtin.
pub fn is_timestamp_overload(name: &str) -> (r: bool)
    ensures
        r == spec_is_timestamp_overload(name@),
{
    str_eq(name, "timestamp")
}

/// A dotted call name whose last segment is an array method that mutates.
pub open spec fn spec_is_array_mutation_method_call_name(name: Seq<char>) -> bool {
    match spec_rsplit_once_char(name, '.') {
        Some((_, m)) => spec_is_array_method(m) && spec_is_array_mutation_builtin("array."@ + m),
        None => false,
    }
}

pub fn is_array_mutation_method_call_name(name: &str) -> (r: bool)
    ensures
        r == spec_is_array_mutation_method_call_name(name@),
{
    match rsplit_once_char(name, '.') {
        Some((_, method_name)) => match array_method_builtin_name(method_name) {
            Some(builtin) => is_array_mutation_builtin(builtin),
            None => false,
        },
        None => false,
    }
}

/// A dotted call name whose last segment is a map method that mutates.
pub open spec fn spec_is_map_mutation_method_call_name(name: Seq<char>) -> bool {
    match spec_rsplit_once_char(name, '.') {
        Some((_, m)) => spec_is_map_method(m) && spec_is_map_mutation_builtin("map."@ + m),
        None => false,
    }
}

pub fn is_map_mutation_method_call_name(name: &str) -> (r: bool)
    ensures
        r == spec_is_map_mutation_method_call_name(name@),
{
    match rsplit_once_char(name, '.') {
        Some((_, method_name)) => match map_method_builtin_name(method_name) {
            Some(builtin) => is_map_mutation_builtin(builtin),
            None => false,
        },
        None => false,
    }
}

/// Whether argument `i` of a call selects the band outputs of `ta.vwap`.
pub open spec fn spec_is_vwap_band_arg(args: Seq<CallArg>, i: int) -> bool {
    opt_string_view(args[i].name) == Some("stdev_mult"@) || (i >= 2 && args[i].name is None)
}

/// A `ta.vwap` call that asks for standard-deviation bands.
pub open spec fn spec_is_ta_vwap_bands_call(name: Seq<char>, args: Seq<CallArg>) -> bool {
    name == "ta.vwap"@ && exists|i: int| 0 <= i < args.len() && #[trigger] spec_is_vwap_band_arg(args, i)
}

pub fn is_ta_vwap_bands_call(name: &str, args: &[CallArg]) -> (r: bool)
    ensures
        r == spec_is_ta_vwap_bands_call(name@, args@),
{
    if !str_eq(name, "ta.vwap") {
        return false;
    }
    let n = args.len();
    let mut i: usize = 0;
    while i < n
        invariant
            n == args@.len(),
            i <= n,
            name@ == "ta.vwap"@,
            forall|j: int| 0 <= j < i ==> !spec_is_vwap_band_arg(args@, j),
        decreases n - i,
    {
        let named_mult = match &args[i].name {
            Some(arg_name) => str_eq(arg_name.as_str(), "stdev_mult"),
            None => false,
        };
        if named_mult || (i >= 2 && args[i].name.is_none()) {
            assert(spec_is_vwap_band_arg(args@, i as int));
            return true;
        }
        i = i + 1;
    }
    false
}

} // verus!
