//! Binding call arguments to builtin parameters and checking their types.
use vstd::prelude::*;
use vstd::string::*;

use crate::accepts::{
    accepts_matrix_element_arg, accepts_matrix_element_array_arg, accepts_type,
    spec_accepts_matrix_element_arg, spec_accepts_matrix_element_array_arg, spec_accepts_type,
    Accepts,
};
use crate::signatures::{first_index_of, param_names, param_position, BuiltinParam, BuiltinSignature};
use crate::strings::{
    opt_string_view, pair_view, spec_ends_with, spec_split_once_char, spec_starts_with,
    split_once_char, str_eq, strip_prefix, strip_suffix,
};
use crate::syntax::CallArg;
use crate::types::{is_numeric_matrix_kind, spec_is_numeric_matrix_kind, PineType};

verus! {

/// The parameter an argument binds to: a named argument binds by name, a
/// positional one by its index, and extra positional arguments of a variadic
/// builtin bind to its last parameter.
pub open spec fn spec_param_index_for_arg(
    params: Seq<BuiltinParam>,
    variadic: bool,
    arg_index: int,
    arg_name: Option<Seq<char>>,
) -> Option<int> {
    match arg_name {
        Some(name) => first_index_of(param_names(params), name),
        None => if arg_index < params.len() {
            Some(arg_index)
        } else if variadic {
            Some(params.len() - 1)
        } else {
            None
        },
    }
}

pub fn param_index_for_arg(signature: &BuiltinSignature, arg_index: usize, arg: &CallArg) -> (r:
    Option<usize>)
    requires
        arg.name is None && arg_index >= signature.params@.len() && signature.variadic
            ==> signature.params@.len() > 0,
    ensures
        r matches Some(i) ==> spec_param_index_for_arg(
            signature.params@,
            signature.variadic,
            arg_index as int,
            opt_string_view(arg.name),
        ) == Some(i as int),
        r is None ==> spec_param_index_for_arg(
            signature.params@,
            signature.variadic,
            arg_index as int,
            opt_string_view(arg.name),
        ) is None,
{
    if let Some(name) = &arg.name {
        return param_position(&signature.params, name.as_str());
    }
    if arg_index < signature.params.len() {
        Some(arg_index)
    } else if signature.variadic {
        Some(signature.params.len() - 1)
    } else {
        None
    }
}

pub open spec fn arg_names(args: Seq<CallArg>, i: int) -> Option<Seq<char>> {
    opt_string_view(args[i].name)
}

/// Whether no positional argument falls past the end of an empty variadic
/// parameter list (where binding it would underflow).
pub open spec fn binding_defined(signature: BuiltinSignature, args: Seq<CallArg>) -> bool {
    signature.variadic ==> signature.params@.len() > 0 || forall|i: int|
        0 <= i < args.len() ==> args[i].name is Some
}

/// The type of the first argument, in argument order from `i` on, that binds
/// to parameter `param_index` and whose type is known.
pub open spec fn spec_arg_type_for_param_index_from(
    signature: BuiltinSignature,
    args: Seq<CallArg>,
    arg_types: Seq<Option<PineType>>,
    param_index: int,
    i: int,
) -> Option<PineType>
    decreases args.len() - i,
{
    if i < 0 || i >= args.len() {
        None
    } else if spec_param_index_for_arg(signature.params@, signature.variadic, i, arg_names(args, i))
        == Some(param_index) && i < arg_types.len() && arg_types[i] is Some {
        arg_types[i]
    } else {
        spec_arg_type_for_param_index_from(signature, args, arg_types, param_index, i + 1)
    }
}

pub open spec fn spec_arg_type_for_param_index(
    signature: BuiltinSignature,
    args: Seq<CallArg>,
    arg_types: Seq<Option<PineType>>,
    param_index: int,
) -> Option<PineType> {
    spec_arg_type_for_param_index_from(signature, args, arg_types, param_index, 0)
}

/// The known type of the argument bound to parameter `param_index`.
pub fn arg_type_for_param_index(
    signature: &BuiltinSignature,
    args: &[CallArg],
    arg_types: &[Option<PineType>],
    param_index: usize,
) -> (r: Option<PineType>)
    requires
        binding_defined(*signature, args@),
    ensures
        r == spec_arg_type_for_param_index(*signature, args@, arg_types@, param_index as int),
{
    let n = args.len();
    let mut i: usize = 0;
    while i < n
        invariant
            n == args@.len(),
            i <= n,
            binding_defined(*signature, args@),
            spec_arg_type_for_param_index(*signature, args@, arg_types@, param_index as int)
                == spec_arg_type_for_param_index_from(
                *signature,
                args@,
                arg_types@,
                param_index as int,
                i as int,
            ),
        decreases n - i,
    {
        let bound = param_index_for_arg(signature, i, &args[i]);
        if bound == Some(param_index) && i < arg_types.len() && arg_types[i].is_some() {
            return arg_types[i];
        }
        i = i + 1;
    }
    None
}

/// The context-aware acceptance rule: matrix-element acceptors look at the
/// type of the matrix argument they refer to.
pub open spec fn spec_call_arg_accepts_type(
    signature: BuiltinSignature,
    args: Seq<CallArg>,
    arg_types: Seq<Option<PineType>>,
    accepts: Accepts,
    arg_type: PineType,
) -> bool {
    match accepts {
        Accepts::MatrixElementCompatible(m) => match spec_arg_type_for_param_index(
            signature,
            args,
            arg_types,
            m as int,
        ) {
            None => true,
            Some(mt) => match spec_accepts_matrix_element_arg(mt, arg_type) {
                Some(b) => b,
                None => true,
            },
        },
        Accepts::MatrixElementArray(m) => match spec_arg_type_for_param_index(
            signature,
            args,
            arg_types,
            m as int,
        ) {
            None => true,
            Some(mt) => match spec_accepts_matrix_element_array_arg(mt, arg_type) {
                Some(b) => b,
                None => true,
            },
        },
        Accepts::MatrixOrNumericCompatibleWithMatrixCounterpart(c) => if spec_is_numeric_matrix_kind(
            arg_type.kind,
        ) {
            true
        } else if !spec_accepts_type(Accepts::NumericCompatible, arg_type) {
            false
        } else {
            match spec_arg_type_for_param_index(signature, args, arg_types, c as int) {
                None => true,
                Some(ct) => spec_is_numeric_matrix_kind(ct.kind),
            }
        },
        Accepts::MatrixOrNumericOrNumericArrayCompatibleWithMatrixCounterpart(
            c,
        ) => if spec_is_numeric_matrix_kind(arg_type.kind) {
            true
        } else if !(spec_accepts_type(Accepts::NumericCompatible, arg_type) || spec_accepts_type(
            Accepts::NumericArray,
            arg_type,
        )) {
            false
        } else {
            match spec_arg_type_for_param_index(signature, args, arg_types, c as int) {
                None => true,
                Some(ct) => spec_is_numeric_matrix_kind(ct.kind),
            }
        },
        _ => spec_accepts_type(accepts, arg_type),
    }
}

pub fn call_arg_accepts_type(
    signature: &BuiltinSignature,
    args: &[CallArg],
    arg_types: &[Option<PineType>],
    accepts: Accepts,
    arg_type: PineType,
) -> (r: bool)
    requires
        binding_defined(*signature, args@),
    ensures
        r == spec_call_arg_accepts_type(*signature, args@, arg_types@, accepts, arg_type),
{
    match accepts {
        Accepts::MatrixElementCompatible(m) => {
            let Some(matrix_type) = arg_type_for_param_index(signature, args, arg_types, m) else {
                return true;
            };
            match accepts_matrix_element_arg(matrix_type, arg_type) {
                Some(b) => b,
                None => true,
            }
        },
        Accepts::MatrixElementArray(m) => {
            let Some(matrix_type) = arg_type_for_param_index(signature, args, arg_types, m) else {
                return true;
            };
            match accepts_matrix_element_array_arg(matrix_type, arg_type) {
                Some(b) => b,
                None => true,
            }
        },
        Accepts::MatrixOrNumericCompatibleWithMatrixCounterpart(c) => {
            if is_numeric_matrix_kind(arg_type.kind) {
                return true;
            }
            if !accepts_type(Accepts::NumericCompatible, arg_type) {
                return false;
            }
            let Some(counterpart_type) = arg_type_for_param_index(signature, args, arg_types, c)
            else {
                return true;
            };
            is_numeric_matrix_kind(counterpart_type.kind)
        },
        Accepts::MatrixOrNumericOrNumericArrayCompatibleWithMatrixCounterpart(c) => {
            if is_numeric_matrix_kind(arg_type.kind) {
                return true;
            }
            let compatible = accepts_type(Accepts::NumericCompatible, arg_type) || accepts_type(
                Accepts::NumericArray,
                arg_type,
            );
            if !compatible {
                return false;
            }
            let Some(counterpart_type) = arg_type_for_param_index(signature, args, arg_types, c)
            else {
                return true;
            };
            is_numeric_matrix_kind(counterpart_type.kind)
        },
        _ => accepts_type(accepts, arg_type),
    }
}

/// The text between `map.new<` and the closing `>` of a call name.
pub open spec fn spec_map_new_inner(name: Seq<char>) -> Option<Seq<char>> {
    if spec_starts_with(name, "map.new<"@) && spec_ends_with(name.skip(8), ">"@) {
        Some(name.skip(8).take(name.skip(8).len() - 1))
    } else {
        None
    }
}

pub open spec fn spec_map_new_template_types(name: Seq<char>) -> Option<(Seq<char>, Seq<char>)> {
    match spec_map_new_inner(name) {
        Some(inner) => spec_split_once_char(inner, ','),
        None => None,
    }
}

/// `map.new<K,V>` split into `K` and `V` at the first comma.
pub fn map_new_template_types(name: &str) -> (r: Option<(&str, &str)>)
    ensures
        pair_view(r) == spec_map_new_template_types(name@),
{
    proof {
        reveal_strlit("map.new<");
        reveal_strlit(">");
    }
    let rest = strip_prefix(name, "map.new<")?;
    let inner = strip_suffix(rest, ">")?;
    assert(inner@ == spec_map_new_inner(name@).unwrap());
    split_once_char(inner, ',')
}

pub open spec fn spec_is_supported_map_scalar_type(s: Seq<char>) -> bool {
    s == "int"@ || s == "float"@ || s == "bool"@ || s == "string"@ || s == "color"@
}

/// The key and value types a map may be declared with.
pub fn is_supported_map_scalar_type(name: &str) -> (r: bool)
    ensures
        r == spec_is_supported_map_scalar_type(name@),
{
    str_eq(name, "int") || str_eq(name, "float") || str_eq(name, "bool") || str_eq(name, "string")
        || str_eq(name, "color")
}

pub open spec fn spec_unsupported_collection_mutation_udf_reason(op: Seq<char>) -> Seq<char> {
    "collection mutation via `"@ + op + "` is not supported inside user-defined functions"@
}

/// Why a collection mutation is refused inside a user-defined function.
pub fn unsupported_collection_mutation_udf_reason(operation: &str) -> (r: String)
    ensures
        r@ == spec_unsupported_collection_mutation_udf_reason(operation@),
{
    let s = String::from_str("collection mutation via `");
    let s = s.concat(operation);
    s.concat("` is not supported inside user-defined functions")
}

/// Whether `arg` supplies parameter `name`: by name, or positionally at the
/// index where the signature declares it.
pub open spec fn spec_is_call_arg(
    signature: BuiltinSignature,
    arg: CallArg,
    index: int,
    name: Seq<char>,
) -> bool {
    opt_string_view(arg.name) == Some(name) || (arg.name is None && 0 <= index
        < signature.params@.len() && signature.params@[index].name@ == name)
}

pub fn is_call_arg(signature: &BuiltinSignature, arg: &CallArg, index: usize, name: &str) -> (r:
    bool)
    ensures
        r == spec_is_call_arg(*signature, *arg, index as int, name@),
{
    match &arg.name {
        Some(arg_name) => str_eq(arg_name.as_str(), name),
        None => index < signature.params.len() && str_eq(signature.params[index].name, name),
    }
}

} // verus!
