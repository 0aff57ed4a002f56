//! The parsed script shapes the analysis reads: spans, expressions,
//! statements, call arguments and diagnostics.
use vstd::prelude::*;
use vstd::string::*;

verus! {

/// A byte range of the source text.
#[derive(Clone, Copy, Debug, PartialEq, Eq, Structural, Hash, Default)]
pub struct Span {
    pub start: usize,
    pub end: usize,
}

impl Span {
    pub fn new(start: usize, end: usize) -> (r: Span)
        ensures
            r.start == start,
            r.end == end,
    {
        Span { start, end }
    }

    /// The span covering both spans.
    pub fn merge(self, other: Span) -> (r: Span)
        ensures
            r == spec_merge_spans(self, other),
    {
        Span {
            start: if self.start <= other.start {
                self.start
            } else {
                other.start
            },
            end: if self.end >= other.end {
                self.end
            } else {
                other.end
            },
        }
    }
}

pub open spec fn spec_merge_spans(a: Span, b: Span) -> Span {
    Span {
        start: if a.start <= b.start {
            a.start
        } else {
            b.start
        },
        end: if a.end >= b.end {
            a.end
        } else {
            b.end
        },
    }
}

#[derive(Clone, Copy, Debug, PartialEq, Eq, Structural, Hash)]
pub enum UnaryOp {
    Plus,
    Minus,
    Not,
}

#[derive(Clone, Copy, Debug, PartialEq, Eq, Structural, Hash)]
pub enum BinaryOp {
    Add,
    Sub,
    Mul,
    Div,
    Mod,
    Eq,
    NotEq,
    Gt,
    Gte,
    Lt,
    Lte,
    And,
    Or,
}

/// A literal as written; a float literal keeps its source text.
#[derive(Clone, Debug)]
pub enum Literal {
    Int(i64),
    Float(String),
    Bool(bool),
    Str(String),
    Color(u32),
    Na,
}

#[derive(Debug)]
pub struct Expr {
    pub kind: ExprKind,
    pub span: Span,
}

#[derive(Debug)]
pub enum ExprKind {
    Literal(Literal),
    Identifier(String),
    QualifiedName(Vec<String>),
    Call { callee: Box<Expr>, args: Vec<CallArg> },
    Unary { op: UnaryOp, expr: Box<Expr> },
    History { expr: Box<Expr>, offset: Box<Expr> },
    Binary { op: BinaryOp, left: Box<Expr>, right: Box<Expr> },
    Ternary { condition: Box<Expr>, then_expr: Box<Expr>, else_expr: Box<Expr> },
    Switch { selector: Option<Box<Expr>>, arms: Vec<SwitchArm> },
    For {
        variable: String,
        from: Box<Expr>,
        to: Box<Expr>,
        step: Option<Box<Expr>>,
        body: Vec<Stmt>,
    },
    Tuple(Vec<Expr>),
}

/// An argument of a call, optionally named (`name = value`).
#[derive(Debug)]
pub struct CallArg {
    pub name: Option<String>,
    pub value: Expr,
    pub span: Span,
}

#[derive(Debug)]
pub struct SwitchArm {
    pub condition: Option<Expr>,
    pub result: Expr,
    pub span: Span,
}

/// A field of a user-defined type declaration: its name, the name of its
/// declared type, and where it stands.
#[derive(Debug)]
pub struct UserTypeFieldDecl {
    pub name: String,
    pub field_type: String,
    pub span: Span,
}

/// A user-defined type declaration.
#[derive(Debug)]
pub struct UserTypeDecl {
    pub name: String,
    pub name_span: Span,
    pub fields: Vec<UserTypeFieldDecl>,
}

#[derive(Debug)]
pub struct Stmt {
    pub kind: StmtKind,
    pub span: Span,
}

#[derive(Debug)]
pub enum StmtKind {
    Expr(Expr),
    Decl { name: String, value: Expr },
    Reassign { name: String, value: Expr },
    FieldReassign { receiver: String, field: String, value: Expr },
    TupleDecl { names: Vec<String>, value: Expr },
    If { condition: Expr, then_branch: Vec<Stmt>, else_branch: Vec<Stmt> },
    For { variable: String, from: Expr, to: Expr, step: Option<Expr>, body: Vec<Stmt> },
    While { condition: Expr, body: Vec<Stmt> },
    Break,
    Continue,
    Function { name: String, params: Vec<String>, body: Vec<Stmt> },
    Import(String),
    Library(String),
    Export(String),
    UserType(UserTypeDecl),
    Method(String),
    Unsupported { feature: String },
}

#[derive(Clone, Copy, Debug, PartialEq, Eq, Structural, Hash)]
pub enum Severity {
    Error,
    Warning,
}

/// A diagnostic with a stable code, a message and the span it points at.
#[derive(Clone, Debug)]
pub struct Diagnostic {
    pub severity: Severity,
    pub code: String,
    pub message: String,
    pub span: Span,
}

impl Diagnostic {
    pub fn error(code: &str, message: String, span: Span) -> (r: Diagnostic)
        ensures
            r.severity == Severity::Error,
            r.code@ == code@,
            r.message@ == message@,
            r.span == span,
    {
        Diagnostic { severity: Severity::Error, code: String::from_str(code), message, span }
    }
}

/// A diagnostic as plain values.
pub struct DiagView {
    pub severity: Severity,
    pub code: Seq<char>,
    pub message: Seq<char>,
    pub span: Span,
}

pub open spec fn diag_view(d: Diagnostic) -> DiagView {
    DiagView { severity: d.severity, code: d.code@, message: d.message@, span: d.span }
}

pub open spec fn diags_view(s: Seq<Diagnostic>) -> Seq<DiagView> {
    s.map_values(|d: Diagnostic| diag_view(d))
}

/// An error diagnostic as plain values.
pub open spec fn error_view(code: Seq<char>, message: Seq<char>, span: Span) -> DiagView {
    DiagView { severity: Severity::Error, code, message, span }
}

/// The reports of steps `0..n`, in order, where `f(i)` is what step `i` reports.
pub open spec fn concat_diags(n: int, f: spec_fn(int) -> Seq<DiagView>) -> Seq<DiagView>
    decreases n,
{
    if n <= 0 {
        Seq::empty()
    } else {
        concat_diags(n - 1, f) + f(n - 1)
    }
}

/// The span of the first argument, or the empty span when there is none.
pub open spec fn first_span(args: Seq<CallArg>) -> Span {
    if args.len() > 0 {
        args[0].span
    } else {
        Span { start: 0, end: 0 }
    }
}

pub fn first_arg_span(args: &[CallArg]) -> (r: Span)
    ensures
        r == first_span(args@),
{
    if args.len() > 0 {
        args[0].span
    } else {
        Span::new(0, 0)
    }
}

/// Appends an error with `code`, `message` and `span`.
pub fn push_error(diagnostics: &mut Vec<Diagnostic>, code: &str, message: String, span: Span)
    ensures
        diags_view(final(diagnostics)@) == diags_view(old(diagnostics)@) + seq![
            error_view(code@, message@, span),
        ],
{
    let ghost before = diags_view(diagnostics@);
    diagnostics.push(Diagnostic::error(code, message, span));
    assert(diags_view(diagnostics@) =~= before + seq![error_view(code@, message@, span)]);
}

/// The items of steps `0..n`, in order, where `f(i)` is what step `i` yields.
pub open spec fn concat_steps<T>(n: int, f: spec_fn(int) -> Seq<T>) -> Seq<T>
    decreases n,
{
    if n <= 0 {
        Seq::empty()
    } else {
        concat_steps(n - 1, f) + f(n - 1)
    }
}

/// Appends `d`.
pub fn push_diagnostic(diagnostics: &mut Vec<Diagnostic>, d: Diagnostic)
    ensures
        diags_view(final(diagnostics)@) == diags_view(old(diagnostics)@) + seq![diag_view(d)],
{
    let ghost before = diags_view(diagnostics@);
    diagnostics.push(d);
    assert(diags_view(diagnostics@) =~= before + seq![diag_view(d)]);
}

} // verus!
