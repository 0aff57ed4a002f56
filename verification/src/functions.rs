//! Checks on user-defined function bodies: output and declaration calls,
//! collection mutation, and duplicate parameters.
use vstd::prelude::*;

use crate::builtin_names::{
    is_array_mutation_builtin, is_array_mutation_method_call_name, is_output_or_declaration_builtin,
    spec_is_array_mutation_builtin, spec_is_array_mutation_method_call_name,
    spec_is_output_or_declaration_builtin,
};
use crate::call_helpers::{expr_name, spec_expr_name};
use crate::strings::str_eq;
use vstd::string::*;
use crate::syntax::{diags_view, error_view, push_error, DiagView, Diagnostic, Span};
use crate::syntax::{CallArg, Expr, ExprKind, Stmt, StmtKind, SwitchArm};

verus! {

/// Call names that a function body may not use: output and declaration
/// builtins and array mutation, called directly or as a method.
pub open spec fn spec_is_forbidden_call_name(name: Seq<char>) -> bool {
    spec_is_output_or_declaration_builtin(name) || spec_is_array_mutation_builtin(name)
        || spec_is_array_mutation_method_call_name(name)
}

/// Whether an expression calls a forbidden builtin anywhere inside it; a loop
/// nested in a loop expression's body always counts.
pub open spec fn spec_expr_contains_output_call(e: Expr) -> bool
    decreases e,
{
    match e.kind {
        ExprKind::Call { callee, args } => (match spec_expr_name(*callee) {
            Some(name) => spec_is_forbidden_call_name(name),
            None => false,
        }) || spec_args_contain_output_call(args@),
        ExprKind::Unary { expr, .. } => spec_expr_contains_output_call(*expr),
        ExprKind::History { expr, .. } => spec_expr_contains_output_call(*expr),
        ExprKind::Binary { left, right, .. } => spec_expr_contains_output_call(*left)
            || spec_expr_contains_output_call(*right),
        ExprKind::Ternary { condition, then_expr, else_expr } => spec_expr_contains_output_call(
            *condition,
        ) || spec_expr_contains_output_call(*then_expr) || spec_expr_contains_output_call(
            *else_expr,
        ),
        ExprKind::Switch { selector, arms } => (match selector {
            Some(s) => spec_expr_contains_output_call(*s),
            None => false,
        }) || spec_arms_contain_output_call(arms@),
        ExprKind::For { from, to, step, body, .. } => spec_expr_contains_output_call(*from)
            || spec_expr_contains_output_call(*to) || (match step {
            Some(s) => spec_expr_contains_output_call(*s),
            None => false,
        }) || spec_stmts_contain_output_call(body@),
        ExprKind::Tuple(items) => spec_exprs_contain_output_call(items@),
        _ => false,
    }
}

pub open spec fn spec_args_contain_output_call(args: Seq<CallArg>) -> bool
    decreases args,
{
    if args.len() == 0 {
        false
    } else {
        spec_args_contain_output_call(args.drop_last()) || spec_expr_contains_output_call(
            args.last().value,
        )
    }
}

pub open spec fn spec_exprs_contain_output_call(items: Seq<Expr>) -> bool
    decreases items,
{
    if items.len() == 0 {
        false
    } else {
        spec_exprs_contain_output_call(items.drop_last()) || spec_expr_contains_output_call(
            items.last(),
        )
    }
}

pub open spec fn spec_arm_contains_output_call(arm: SwitchArm) -> bool
    decreases arm,
{
    (match arm.condition {
        Some(c) => spec_expr_contains_output_call(c),
        None => false,
    }) || spec_expr_contains_output_call(arm.result)
}

pub open spec fn spec_arms_contain_output_call(arms: Seq<SwitchArm>) -> bool
    decreases arms,
{
    if arms.len() == 0 {
        false
    } else {
        spec_arms_contain_output_call(arms.drop_last()) || spec_arm_contains_output_call(
            arms.last(),
        )
    }
}

/// Whether a statement calls a forbidden builtin; loops always count.
pub open spec fn spec_stmt_contains_output_call(s: Stmt) -> bool
    decreases s,
{
    match s.kind {
        StmtKind::Expr(e) => spec_expr_contains_output_call(e),
        StmtKind::Decl { value, .. } => spec_expr_contains_output_call(value),
        StmtKind::Reassign { value, .. } => spec_expr_contains_output_call(value),
        StmtKind::FieldReassign { value, .. } => spec_expr_contains_output_call(value),
        StmtKind::TupleDecl { value, .. } => spec_expr_contains_output_call(value),
        StmtKind::If { condition, then_branch, else_branch } => spec_expr_contains_output_call(
            condition,
        ) || spec_stmts_contain_output_call(then_branch@) || spec_stmts_contain_output_call(
            else_branch@,
        ),
        StmtKind::For { .. } => true,
        StmtKind::While { .. } => true,
        _ => false,
    }
}

pub open spec fn spec_stmts_contain_output_call(stmts: Seq<Stmt>) -> bool
    decreases stmts,
{
    if stmts.len() == 0 {
        false
    } else {
        spec_stmts_contain_output_call(stmts.drop_last()) || spec_stmt_contains_output_call(
            stmts.last(),
        )
    }
}

fn is_forbidden_call_name(name: &str) -> (r: bool)
    ensures
        r == spec_is_forbidden_call_name(name@),
{
    is_output_or_declaration_builtin(name) || is_array_mutation_builtin(name)
        || is_array_mutation_method_call_name(name)
}

fn args_contain_output_call(args: &Vec<CallArg>) -> (r: bool)
    ensures
        r == spec_args_contain_output_call(args@),
    decreases args@,
{
    let n = args.len();
    let mut i: usize = 0;
    while i < n
        invariant
            n == args@.len(),
            i <= n,
            !spec_args_contain_output_call(args@.take(i as int)),
        decreases n - i,
    {
        assert(args@.take((i + 1) as int).drop_last() =~= args@.take(i as int));
        if contains_output_or_declaration_call(&args[i].value) {
            assert(spec_args_contain_output_call(args@.take((i + 1) as int)));
            proof {
                lemma_args_prefix(args@, (i + 1) as int);
            }
            return true;
        }
        i = i + 1;
    }
    assert(args@.take(n as int) =~= args@);
    false
}

proof fn lemma_args_prefix(s: Seq<CallArg>, k: int)
    requires
        0 <= k <= s.len(),
        spec_args_contain_output_call(s.take(k)),
    ensures
        spec_args_contain_output_call(s),
    decreases s.len(),
{
    if k < s.len() {
        assert(s.drop_last().take(k) =~= s.take(k));
        lemma_args_prefix(s.drop_last(), k);
    } else {
        assert(s.take(k) =~= s);
    }
}

proof fn lemma_exprs_prefix(s: Seq<Expr>, k: int)
    requires
        0 <= k <= s.len(),
        spec_exprs_contain_output_call(s.take(k)),
    ensures
        spec_exprs_contain_output_call(s),
    decreases s.len(),
{
    if k < s.len() {
        assert(s.drop_last().take(k) =~= s.take(k));
        lemma_exprs_prefix(s.drop_last(), k);
    } else {
        assert(s.take(k) =~= s);
    }
}

proof fn lemma_arms_prefix(s: Seq<SwitchArm>, k: int)
    requires
        0 <= k <= s.len(),
        spec_arms_contain_output_call(s.take(k)),
    ensures
        spec_arms_contain_output_call(s),
    decreases s.len(),
{
    if k < s.len() {
        assert(s.drop_last().take(k) =~= s.take(k));
        lemma_arms_prefix(s.drop_last(), k);
    } else {
        assert(s.take(k) =~= s);
    }
}

proof fn lemma_stmts_prefix(s: Seq<Stmt>, k: int)
    requires
        0 <= k <= s.len(),
        spec_stmts_contain_output_call(s.take(k)),
    ensures
        spec_stmts_contain_output_call(s),
    decreases s.len(),
{
    if k < s.len() {
        assert(s.drop_last().take(k) =~= s.take(k));
        lemma_stmts_prefix(s.drop_last(), k);
    } else {
        assert(s.take(k) =~= s);
    }
}

fn exprs_contain_output_call(items: &Vec<Expr>) -> (r: bool)
    ensures
        r == spec_exprs_contain_output_call(items@),
    decreases items@,
{
    let n = items.len();
    let mut i: usize = 0;
    while i < n
        invariant
            n == items@.len(),
            i <= n,
            !spec_exprs_contain_output_call(items@.take(i as int)),
        decreases n - i,
    {
        assert(items@.take((i + 1) as int).drop_last() =~= items@.take(i as int));
        if contains_output_or_declaration_call(&items[i]) {
            assert(spec_exprs_contain_output_call(items@.take((i + 1) as int)));
            proof {
                lemma_exprs_prefix(items@, (i + 1) as int);
            }
            return true;
        }
        i = i + 1;
    }
    assert(items@.take(n as int) =~= items@);
    false
}

fn arm_contains_output_call(arm: &SwitchArm) -> (r: bool)
    ensures
        r == spec_arm_contains_output_call(*arm),
    decreases *arm,
{
    let in_condition = match &arm.condition {
        Some(c) => contains_output_or_declaration_call(c),
        None => false,
    };
    in_condition || contains_output_or_declaration_call(&arm.result)
}

fn arms_contain_output_call(arms: &Vec<SwitchArm>) -> (r: bool)
    ensures
        r == spec_arms_contain_output_call(arms@),
    decreases arms@,
{
    let n = arms.len();
    let mut i: usize = 0;
    while i < n
        invariant
            n == arms@.len(),
            i <= n,
            !spec_arms_contain_output_call(arms@.take(i as int)),
        decreases n - i,
    {
        assert(arms@.take((i + 1) as int).drop_last() =~= arms@.take(i as int));
        if arm_contains_output_call(&arms[i]) {
            assert(spec_arms_contain_output_call(arms@.take((i + 1) as int)));
            proof {
                lemma_arms_prefix(arms@, (i + 1) as int);
            }
            return true;
        }
        i = i + 1;
    }
    assert(arms@.take(n as int) =~= arms@);
    false
}

fn stmts_contain_output_call(stmts: &Vec<Stmt>) -> (r: bool)
    ensures
        r == spec_stmts_contain_output_call(stmts@),
    decreases stmts@,
{
    let n = stmts.len();
    let mut i: usize = 0;
    while i < n
        invariant
            n == stmts@.len(),
            i <= n,
            !spec_stmts_contain_output_call(stmts@.take(i as int)),
        decreases n - i,
    {
        assert(stmts@.take((i + 1) as int).drop_last() =~= stmts@.take(i as int));
        if statement_contains_output_or_declaration_call(&stmts[i]) {
            assert(spec_stmts_contain_output_call(stmts@.take((i + 1) as int)));
            proof {
                lemma_stmts_prefix(stmts@, (i + 1) as int);
            }
            return true;
        }
        i = i + 1;
    }
    assert(stmts@.take(n as int) =~= stmts@);
    false
}

/// Whether an expression calls an output, declaration or array-mutation builtin.
pub fn contains_output_or_declaration_call(expr: &Expr) -> (r: bool)
    ensures
        r == spec_expr_contains_output_call(*expr),
    decreases *expr,
{
    match &expr.kind {
        ExprKind::Call { callee, args } => {
            let forbidden = match expr_name(callee) {
                Some(name) => is_forbidden_call_name(name.as_str()),
                None => false,
            };
            forbidden || args_contain_output_call(args)
        },
        ExprKind::Unary { expr: inner, .. } => contains_output_or_declaration_call(inner),
        ExprKind::History { expr: inner, .. } => contains_output_or_declaration_call(inner),
        ExprKind::Binary { left, right, .. } => contains_output_or_declaration_call(left)
            || contains_output_or_declaration_call(right),
        ExprKind::Ternary { condition, then_expr, else_expr } => contains_output_or_declaration_call(
            condition,
        ) || contains_output_or_declaration_call(then_expr) || contains_output_or_declaration_call(
            else_expr,
        ),
        ExprKind::Switch { selector, arms } => {
            let in_selector = match selector {
                Some(s) => contains_output_or_declaration_call(s),
                None => false,
            };
            in_selector || arms_contain_output_call(arms)
        },
        ExprKind::For { from, to, step, body, .. } => {
            if contains_output_or_declaration_call(from) || contains_output_or_declaration_call(to) {
                return true;
            }
            let in_step = match step {
                Some(s) => contains_output_or_declaration_call(s),
                None => false,
            };
            in_step || stmts_contain_output_call(body)
        },
        ExprKind::Tuple(items) => exprs_contain_output_call(items),
        _ => false,
    }
}

/// Whether a statement calls an output, declaration or array-mutation builtin,
/// or is a loop.
pub fn statement_contains_output_or_declaration_call(statement: &Stmt) -> (r: bool)
    ensures
        r == spec_stmt_contains_output_call(*statement),
    decreases *statement,
{
    match &statement.kind {
        StmtKind::Expr(e) => contains_output_or_declaration_call(e),
        StmtKind::Decl { value, .. } => contains_output_or_declaration_call(value),
        StmtKind::Reassign { value, .. } => contains_output_or_declaration_call(value),
        StmtKind::FieldReassign { value, .. } => contains_output_or_declaration_call(value),
        StmtKind::TupleDecl { value, .. } => contains_output_or_declaration_call(value),
        StmtKind::If { condition, then_branch, else_branch } => contains_output_or_declaration_call(
            condition,
        ) || stmts_contain_output_call(then_branch) || stmts_contain_output_call(else_branch),
        StmtKind::For { .. } => true,
        StmtKind::While { .. } => true,
        _ => false,
    }
}

pub open spec fn spec_has_duplicate(params: Seq<Seq<char>>) -> bool {
    exists|i: int, j: int| 0 <= i < j < params.len() && #[trigger] params[i] == #[trigger] params[j]
}

/// Whether some parameter name occurs twice.
pub fn has_duplicate_param(params: &[String]) -> (r: bool)
    ensures
        r == spec_has_duplicate(params@.map_values(|p: String| p@)),
{
    let ghost v = params@.map_values(|p: String| p@);
    let n = params.len();
    let mut i: usize = 0;
    while i < n
        invariant
            n == params@.len(),
            v == params@.map_values(|p: String| p@),
            i <= n,
            forall|a: int, b: int| 0 <= a < i && a < b < n ==> v[a] != v[b],
        decreases n - i,
    {
        let mut j: usize = i + 1;
        while j < n
            invariant
                n == params@.len(),
                v == params@.map_values(|p: String| p@),
                i < n,
                i + 1 <= j <= n,
                forall|a: int, b: int| 0 <= a < i && a < b < n ==> v[a] != v[b],
                forall|b: int| i < b < j ==> v[i as int] != v[b],
            decreases n - j,
        {
            if str_eq(params[j].as_str(), params[i].as_str()) {
                assert(v[i as int] == v[j as int]);
                return true;
            }
            j = j + 1;
        }
        i = i + 1;
    }
    false
}

/// A registered user-defined function: its name and parameters, where it
/// is declared, and the position of its declaring statement (whose body is
/// the function's body).
#[derive(Clone, Debug)]
pub struct FunctionInfo {
    pub name: String,
    pub params: Vec<String>,
    pub span: Span,
    pub statement: usize,
}

/// A registered function as plain values: (name, parameters, span, statement).
pub type FunctionView = (Seq<char>, Seq<Seq<char>>, Span, int);

pub open spec fn function_view(f: FunctionInfo) -> FunctionView {
    (f.name@, f.params@.map_values(|p: String| p@), f.span, f.statement as int)
}

pub open spec fn functions_view(s: Seq<FunctionInfo>) -> Seq<FunctionView> {
    s.map_values(|f: FunctionInfo| function_view(f))
}

pub open spec fn function_names(v: Seq<FunctionView>) -> Seq<Seq<char>> {
    v.map_values(|f: FunctionView| f.0)
}

/// The functions after registering those the first `i` statements declare,
/// and what they report: a name already registered, a name taken by a
/// builtin or predeclared symbol (`reserved`), or a repeated parameter name
/// each refuse the declaration.
pub open spec fn spec_register_functions(
    v: Seq<FunctionView>,
    statements: Seq<Stmt>,
    reserved: Seq<Seq<char>>,
    i: int,
) -> (Seq<FunctionView>, Seq<DiagView>)
    decreases i,
{
    if i <= 0 {
        (v, Seq::empty())
    } else {
        let (v1, d1) = spec_register_functions(v, statements, reserved, i - 1);
        let s = statements[i - 1];
        match s.kind {
            StmtKind::Function { name, params, .. } => if function_names(v1).contains(name@) {
                (v1, d1.push(error_view("E_FUNCTION_DUPLICATE"@, "function `"@ + name@ + "` is already defined"@, s.span)))
            } else if reserved.contains(name@) {
                (v1, d1.push(error_view("E_FUNCTION_NAME"@, "function `"@ + name@ + "` conflicts with an existing symbol"@, s.span)))
            } else if spec_has_duplicate(params@.map_values(|p: String| p@)) {
                (v1, d1.push(error_view("E_FUNCTION_PARAM"@, "function `"@ + name@ + "` has duplicate parameter names"@, s.span)))
            } else {
                (v1.push((name@, params@.map_values(|p: String| p@), s.span, i - 1)), d1)
            },
            _ => (v1, d1),
        }
    }
}

fn name_in(names: &[String], name: &str) -> (r: bool)
    ensures
        r == names@.map_values(|n: String| n@).contains(name@),
{
    let ghost v = names@.map_values(|n: String| n@);
    let n = names.len();
    let mut i: usize = 0;
    while i < n
        invariant
            n == names@.len(),
            v == names@.map_values(|n: String| n@),
            i <= n,
            forall|k: int| 0 <= k < i ==> (#[trigger] names@[k])@ != name@,
        decreases n - i,
    {
        if str_eq(names[i].as_str(), name) {
            assert(v[i as int] == name@);
            return true;
        }
        i = i + 1;
    }
    assert(!v.contains(name@)) by {
        if v.contains(name@) {
            let k = choose|k: int| 0 <= k < v.len() && v[k] == name@;
            assert(names@[k]@ == name@);
        }
    }
    false
}

fn function_registered(functions: &Vec<FunctionInfo>, name: &str) -> (r: bool)
    ensures
        r == function_names(functions_view(functions@)).contains(name@),
{
    let ghost v = function_names(functions_view(functions@));
    let n = functions.len();
    let mut i: usize = 0;
    while i < n
        invariant
            n == functions@.len(),
            v == function_names(functions_view(functions@)),
            i <= n,
            forall|k: int| 0 <= k < i ==> (#[trigger] functions@[k]).name@ != name@,
        decreases n - i,
    {
        if str_eq(functions[i].name.as_str(), name) {
            assert(v[i as int] == name@);
            return true;
        }
        i = i + 1;
    }
    assert(!v.contains(name@)) by {
        if v.contains(name@) {
            let k = choose|k: int| 0 <= k < v.len() && v[k] == name@;
            assert(functions@[k].name@ == name@);
        }
    }
    false
}

fn clone_names(params: &Vec<String>) -> (r: Vec<String>)
    ensures
        r@.map_values(|p: String| p@) == params@.map_values(|p: String| p@),
{
    let mut out: Vec<String> = Vec::new();
    let n = params.len();
    let mut i: usize = 0;
    while i < n
        invariant
            n == params@.len(),
            i <= n,
            out@.len() == i,
            forall|k: int| 0 <= k < i ==> (#[trigger] out@[k])@ == params@[k]@,
        decreases n - i,
    {
        out.push(params[i].clone());
        i = i + 1;
    }
    assert(out@.map_values(|p: String| p@) =~= params@.map_values(|p: String| p@));
    out
}

/// Registers the user-defined functions `statements` declare, in order,
/// after those in `functions`; `reserved` holds the names of builtins and
/// predeclared symbols (see `spec_register_functions`).
pub fn register_functions(
    statements: &[Stmt],
    reserved: &[String],
    functions: &mut Vec<FunctionInfo>,
    diagnostics: &mut Vec<Diagnostic>,
)
    ensures
        ({
            let (v, d) = spec_register_functions(
                functions_view(old(functions)@),
                statements@,
                reserved@.map_values(|n: String| n@),
                statements@.len() as int,
            );
            &&& functions_view(final(functions)@) == v
            &&& diags_view(final(diagnostics)@) == diags_view(old(diagnostics)@) + d
        }),
{
    let ghost v0 = functions_view(functions@);
    let ghost d0 = diags_view(diagnostics@);
    let ghost rv = reserved@.map_values(|n: String| n@);
    let n = statements.len();
    let mut i: usize = 0;
    assert(d0 =~= d0 + Seq::<DiagView>::empty());
    while i < n
        invariant
            n == statements@.len(),
            i <= n,
            v0 == functions_view(old(functions)@),
            d0 == diags_view(old(diagnostics)@),
            rv == reserved@.map_values(|n: String| n@),
            ({
                let (v, d) = spec_register_functions(v0, statements@, rv, i as int);
                &&& functions_view(functions@) == v
                &&& diags_view(diagnostics@) == d0 + d
            }),
        decreases n - i,
    {
        let ghost fv = functions_view(functions@);
        let ghost before = diags_view(diagnostics@);
        let statement = &statements[i];
        match &statement.kind {
            StmtKind::Function { name, params, .. } => {
                if function_registered(functions, name.as_str()) {
                    let s = String::from_str("function `");
                    let s = s.concat(name.as_str());
                    let s = s.concat("` is already defined");
                    push_error(diagnostics, "E_FUNCTION_DUPLICATE", s, statement.span);
                } else if name_in(reserved, name.as_str()) {
                    let s = String::from_str("function `");
                    let s = s.concat(name.as_str());
                    let s = s.concat("` conflicts with an existing symbol");
                    push_error(diagnostics, "E_FUNCTION_NAME", s, statement.span);
                } else if has_duplicate_param(params.as_slice()) {
                    let s = String::from_str("function `");
                    let s = s.concat(name.as_str());
                    let s = s.concat("` has duplicate parameter names");
                    push_error(diagnostics, "E_FUNCTION_PARAM", s, statement.span);
                } else {
                    let info = FunctionInfo {
                        name: name.clone(),
                        params: clone_names(params),
                        span: statement.span,
                        statement: i,
                    };
                    functions.push(info);
                    assert(functions_view(functions@) =~= fv.push(
                        (name@, params@.map_values(|p: String| p@), statement.span, i as int),
                    ));
                }
            },
            _ => {},
        }
        i = i + 1;
    }
}

/// Registering functions keeps their names unique.
pub proof fn lemma_registered_function_names_are_unique(
    v: Seq<FunctionView>,
    statements: Seq<Stmt>,
    reserved: Seq<Seq<char>>,
    i: int,
)
    requires
        forall|a: int, b: int| 0 <= a < b < v.len() ==> (#[trigger] v[a]).0 != (#[trigger] v[b]).0,
        0 <= i <= statements.len(),
    ensures
        ({
            let r = spec_register_functions(v, statements, reserved, i).0;
            forall|a: int, b: int| 0 <= a < b < r.len() ==> (#[trigger] r[a]).0 != (#[trigger] r[b]).0
        }),
    decreases i,
{
    if i > 0 {
        lemma_registered_function_names_are_unique(v, statements, reserved, i - 1);
        let (v1, d1) = spec_register_functions(v, statements, reserved, i - 1);
        let r = spec_register_functions(v, statements, reserved, i).0;
        assert forall|a: int, b: int| 0 <= a < b < r.len() implies (#[trigger] r[a]).0 != (#[trigger] r[b]).0 by {
            if b == v1.len() {
                assert(function_names(v1)[a] == v1[a].0);
            } else {
                assert(r[a] == v1[a] && r[b] == v1[b]);
            }
        }
    }
}

} // verus!
