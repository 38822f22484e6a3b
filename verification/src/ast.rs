//! The syntax tree the formatter renders.
//!
//! The tree owns everything the renderer reads: every node carries the byte
//! range of the text it was parsed from, and blocks are held in place rather
//! than looked up by identifier.

use vstd::prelude::*;

verus! {

/// A half-open byte range `[start, end)` of the source text.
#[derive(Debug, Clone, Copy, PartialEq, Eq)]
pub struct Span {
    pub start: usize,
    pub end: usize,
}

impl Span {
    /// Whether the range lies inside a text of `len` bytes.
    pub open spec fn within(self, len: nat) -> bool {
        self.start <= self.end && self.end <= len
    }

    /// Whether `inner` lies inside this range.
    pub open spec fn holds(self, inner: Span) -> bool {
        self.start <= inner.start && inner.end <= self.end
    }

    /// Whether the range holds no byte.
    pub open spec fn is_empty(self) -> bool {
        self.start >= self.end
    }

    /// The bytes of `source` that the range covers; a range that does not lie
    /// inside `source` covers nothing.
    pub open spec fn slice(self, source: Seq<u8>) -> Seq<u8> {
        if self.within(source.len()) {
            source.subrange(self.start as int, self.end as int)
        } else {
            Seq::empty()
        }
    }
}

/// One step of a cell path.
#[derive(Debug)]
pub enum PathStep {
    /// Access by column or field name.
    Name { name: Vec<u8>, optional: bool },
    /// Access by row or item index.
    Index { index: usize, optional: bool },
}

/// An item of a list literal; `spread` marks `...expr`.
#[derive(Debug)]
pub struct ListEntry {
    pub spread: bool,
    pub expr: ExprNode,
}

/// An item of a record literal.
#[derive(Debug)]
pub enum RecordEntry {
    /// `key: value`
    Pair(ExprNode, ExprNode),
    /// `...expr`
    Spread(ExprNode),
}

/// An argument of an external command; `spread` marks `...expr`.
#[derive(Debug)]
pub struct ExternalArg {
    pub spread: bool,
    pub expr: ExprNode,
}

/// An argument of a call to a known command.
#[derive(Debug)]
pub enum Arg {
    Positional(ExprNode),
    /// An argument the command's signature does not account for.
    Unknown(ExprNode),
    /// `...expr`
    Spread(ExprNode),
    /// A flag: the range of its long token, of its short form where one was
    /// written, and its value.
    Named { long: Span, short: Option<Span>, value: Option<ExprNode> },
}

/// A call to a known command: the bytes of its resolved name, the range of
/// the command word, and its arguments in source order.
#[derive(Debug)]
pub struct CallNode {
    pub name: Vec<u8>,
    pub head: Span,
    pub arguments: Vec<Arg>,
}

/// Where a redirection sends output.
#[derive(Debug)]
pub enum Target {
    /// To a file: the range of the redirection operator and the file
    /// expression.
    File { span: Span, expr: ExprNode },
    /// Into the next pipeline stage: the range of the operator.
    Pipe { span: Span },
}

/// The redirection attached to a pipeline element.
#[derive(Debug)]
pub enum Redirection {
    Single(Target),
    Separate { out: Target, err: Target },
}

/// One pipeline stage.
#[derive(Debug)]
pub struct Element {
    pub expr: ExprNode,
    pub redirection: Option<Redirection>,
}

/// Stages chained by `|`.
#[derive(Debug)]
pub struct PipelineNode {
    pub elements: Vec<Element>,
}

/// An ordered sequence of pipelines.
#[derive(Debug)]
pub struct BlockNode {
    pub pipelines: Vec<PipelineNode>,
}

/// `from..to` or `from..next..to`; `operator` is the range of the operator
/// token that stands before the end bound.
#[derive(Debug)]
pub struct Range {
    pub from: Option<ExprNode>,
    pub next: Option<ExprNode>,
    pub to: Option<ExprNode>,
    pub operator: Span,
}

/// A table literal.
#[derive(Debug)]
pub struct Table {
    pub columns: Vec<ExprNode>,
    pub rows: Vec<Vec<ExprNode>>,
}

/// A keyword token followed by an expression, such as `else { .. }`.
#[derive(Debug)]
pub struct Keyword {
    pub span: Span,
    pub expr: ExprNode,
}

/// A number with a unit suffix, such as `10kb`.
#[derive(Debug)]
pub struct ValueWithUnit {
    pub expr: ExprNode,
    pub unit: Span,
}

/// The shape of a match pattern.
#[derive(Debug)]
pub enum Pattern {
    Expression(Box<ExprNode>),
    Value,
    Variable,
    Or(Vec<ArmPattern>),
    List(Vec<ArmPattern>),
    Record(Vec<PatternEntry>),
    Rest,
    IgnoreRest,
    IgnoreValue,
    Garbage,
}

/// A pattern of a match arm, the guard that follows it behind `if`, and
/// the range the pattern was written in.
#[derive(Debug)]
pub struct ArmPattern {
    pub pattern: Pattern,
    pub guard: Option<Box<ExprNode>>,
    pub span: Span,
}

/// A `key: pattern` entry of a record pattern.
#[derive(Debug)]
pub struct PatternEntry {
    pub key: Vec<u8>,
    pub pattern: ArmPattern,
}

/// One arm of a match block.
#[derive(Debug)]
pub struct MatchArm {
    pub pattern: ArmPattern,
    pub value: ExprNode,
}

/// Attributes written above an item: the range of each attribute and the
/// item they belong to.
#[derive(Debug)]
pub struct AttributeBlock {
    pub attributes: Vec<Span>,
    pub item: ExprNode,
}

/// A positional parameter of a signature: its name, the text of its type
/// where it has one, and the text of its default value where it has one.
#[derive(Debug)]
pub struct Parameter {
    pub name: Vec<u8>,
    pub shape: Option<Vec<u8>>,
    pub default: Option<Vec<u8>>,
}

/// A flag of a signature. `long` is empty for a flag that has only a short
/// form.
#[derive(Debug)]
pub struct FlagParam {
    pub long: Vec<u8>,
    pub short: Option<Vec<u8>>,
    pub shape: Option<Vec<u8>>,
    pub default: Option<Vec<u8>>,
}

/// The parameter list of a command definition.
///
/// `complete` tells whether the parameters say all that the signature says.
/// A signature that also declares input and output types, or a completer
/// for one of its parameters, is not complete: laying out its parameters
/// alone would lose what else it says.
#[derive(Debug)]
pub struct Params {
    pub required: Vec<Parameter>,
    pub optional: Vec<Parameter>,
    pub flags: Vec<FlagParam>,
    pub rest: Option<Parameter>,
    pub complete: bool,
}

/// The kinds of expression.
#[derive(Debug)]
pub enum Expr {
    Int,
    Float,
    Bool,
    Nothing,
    DateTime,
    String,
    RawString,
    Binary,
    Filepath,
    Directory,
    GlobPattern,
    Var,
    VarDecl,
    /// An operator token; `assignment` tells `=`, `+=` and their kin from the
    /// rest.
    Operator { assignment: bool },
    StringInterpolation,
    GlobInterpolation,
    ImportPattern,
    Overlay,
    Signature(Box<Params>),
    Garbage,
    Call(Box<CallNode>),
    ExternalCall(Box<ExprNode>, Vec<ExternalArg>),
    BinaryOp(Box<ExprNode>, Box<ExprNode>, Box<ExprNode>),
    UnaryNot(Box<ExprNode>),
    Block(Box<BlockNode>),
    Closure(Box<BlockNode>),
    Subexpression(Box<BlockNode>),
    RowCondition(Box<BlockNode>),
    List(Vec<ListEntry>),
    Record(Vec<RecordEntry>),
    Table(Box<Table>),
    Range(Box<Range>),
    CellPath(Vec<PathStep>),
    FullCellPath(Box<ExprNode>, Vec<PathStep>),
    Keyword(Box<Keyword>),
    ValueWithUnit(Box<ValueWithUnit>),
    MatchBlock(Vec<MatchArm>),
    Collect(Box<ExprNode>),
    AttributeBlock(Box<AttributeBlock>),
}

/// An expression and the range of the text it was parsed from.
#[derive(Debug)]
pub struct ExprNode {
    pub expr: Expr,
    pub span: Span,
}

} // verus!
