//! The lowered program the history analysis walks: expressions and
//! statements with the series each expression reads, and the history
//! requirement each builtin declares.
use vstd::prelude::*;

verus! {

/// The identity of a stored series.
pub type SeriesId = u32;

/// A literal of the lowered program; the analysis reads integers only.
#[derive(Clone, Debug)]
pub enum HirLiteral {
    Int(i64),
    Other,
}

#[derive(Clone, Copy, Debug, PartialEq, Eq, Structural)]
pub enum HirUnaryOp {
    Plus,
    Minus,
    Not,
}

/// An expression and the series it reads, if it reads one.
#[derive(Debug)]
pub struct HirExpr {
    pub kind: HirExprKind,
    pub series_id: Option<SeriesId>,
}

#[derive(Debug)]
pub enum HirExprKind {
    Literal(HirLiteral),
    Symbol(u32),
    Builtin(String),
    Unary { op: HirUnaryOp, expr: Box<HirExpr> },
    Binary { left: Box<HirExpr>, right: Box<HirExpr> },
    Ternary { condition: Box<HirExpr>, then_expr: Box<HirExpr>, else_expr: Box<HirExpr> },
    Switch { selector: Option<Box<HirExpr>>, arms: Vec<HirSwitchArm> },
    For {
        from: Box<HirExpr>,
        to: Box<HirExpr>,
        step: Option<Box<HirExpr>>,
        statements: Vec<HirStmt>,
        result: Box<HirExpr>,
    },
    Tuple(Vec<HirExpr>),
    UserTypeConstruct { fields: Vec<HirExpr> },
    FieldAccess { value: Box<HirExpr> },
    Block { statements: Vec<HirStmt>, result: Box<HirExpr> },
    Call { callee: String, args: Vec<HirCallArg> },
    History { expr: Box<HirExpr>, offset: HirHistoryOffset },
}

#[derive(Debug)]
pub struct HirSwitchArm {
    pub condition: Option<HirExpr>,
    pub result: HirExpr,
}

/// How far back a history reference reads: a constant number of bars, or
/// an expression.
#[derive(Debug)]
pub enum HirHistoryOffset {
    Constant(u32),
    Dynamic(Box<HirExpr>),
}

#[derive(Debug)]
pub struct HirCallArg {
    pub name: Option<String>,
    pub value: HirExpr,
}

#[derive(Debug)]
pub struct HirStmt {
    pub kind: HirStmtKind,
}

#[derive(Debug)]
pub enum HirStmtKind {
    Expr(HirExpr),
    Decl { value: HirExpr },
    Reassign { value: HirExpr },
    FieldReassign { value: HirExpr },
    TupleDecl { value: HirExpr },
    If { condition: HirExpr, then_branch: Vec<HirStmt>, else_branch: Vec<HirStmt> },
    For { from: HirExpr, to: HirExpr, step: Option<HirExpr>, body: Vec<HirStmt> },
    While { condition: HirExpr, body: Vec<HirStmt> },
    Break,
    Continue,
}

/// A symbol of the lowered program and the series it is stored in.
#[derive(Clone, Debug)]
pub struct HirSymbol {
    pub name: String,
    pub series_id: Option<SeriesId>,
}

/// How much history a program or a series needs: the longest constant
/// look-back, and whether some look-back is only known at run time.
#[derive(Clone, Copy, Debug, PartialEq, Eq, Structural, Default)]
pub struct HirHistoryRequirements {
    pub max_constant_offset: u32,
    pub has_dynamic_offsets: bool,
}

/// The history a single series needs.
#[derive(Clone, Copy, Debug, PartialEq, Eq, Structural)]
pub struct HirSeriesHistoryRequirement {
    pub series_id: SeriesId,
    pub max_constant_offset: u32,
    pub has_dynamic_offsets: bool,
}

/// A builtin series a builtin reads, and how far back.
#[derive(Clone, Debug)]
pub struct BuiltinSeriesRequirement {
    pub symbol: String,
    pub offset: u32,
}

/// The history a builtin call needs: fixed offsets of builtin series; a
/// fixed offset of its source argument; an offset given by its length
/// argument (with a default when it is left out, or required); or a fixed
/// offset of each of its first `args` arguments.
#[derive(Clone, Debug)]
pub enum BuiltinHistoryRequirement {
    BuiltinSeries(Vec<BuiltinSeriesRequirement>),
    SourceOffset { source_arg: usize, offset: u32 },
    OptionalLengthOffset { source_arg: usize, length_arg: usize, default_offset: u32 },
    RequiredLengthOffset { source_arg: usize, length_arg: usize },
    Cross { args: usize, offset: u32 },
}

/// The history requirement each builtin declares, by builtin name.
#[derive(Clone, Debug)]
pub struct BuiltinHistoryTable {
    pub entries: Vec<(String, BuiltinHistoryRequirement)>,
}

} // verus!
