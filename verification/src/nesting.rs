//! How deep a syntax tree nests.
//!
//! An expression is within `depth` if all of it but garbage lies at most
//! `depth` levels deep, the expression itself being on the first level. So
//! within depth `0` there is garbage alone, and every part of an expression
//! within `depth` is within `depth - 1`. Patterns are counted like
//! expressions. Blocks, pipelines, arguments and the like are no level of
//! their own: they are within `depth` if the expressions they hold are.

use vstd::prelude::*;
use crate::ast::{
    Arg, ArmPattern, BlockNode, CallNode, Element, Expr, ExprNode, MatchArm, Pattern,
    PipelineNode, RecordEntry, Redirection, Table, Target,
};

verus! {

/// Whether an expression nests no deeper than `depth` levels.
pub open spec fn expr_within(e: ExprNode, depth: nat) -> bool
    decreases e, 0int,
{
    e.expr is Garbage || (depth > 0 && match e.expr {
        Expr::Call(call) => call_within(*call, (depth - 1) as nat),
        Expr::ExternalCall(head, arguments) => expr_within(*head, (depth - 1) as nat)
            && forall|i: int|
            0 <= i < arguments.len() ==> expr_within(
                (#[trigger] arguments[i]).expr,
                (depth - 1) as nat,
            ),
        Expr::BinaryOp(lhs, op, rhs) => expr_within(*lhs, (depth - 1) as nat) && expr_within(
            *op,
            (depth - 1) as nat,
        ) && expr_within(*rhs, (depth - 1) as nat),
        Expr::UnaryNot(inner) | Expr::Collect(inner) => expr_within(*inner, (depth - 1) as nat),
        Expr::Block(block)
        | Expr::Closure(block)
        | Expr::Subexpression(block)
        | Expr::RowCondition(block) => block_within(*block, (depth - 1) as nat),
        Expr::List(items) => forall|i: int|
            0 <= i < items.len() ==> expr_within((#[trigger] items[i]).expr, (depth - 1) as nat),
        Expr::Record(items) => forall|i: int|
            0 <= i < items.len() ==> record_entry_within(#[trigger] items[i], (depth - 1) as nat),
        Expr::Table(table) => table_within(*table, (depth - 1) as nat),
        Expr::Range(range) => option_within(range.from, (depth - 1) as nat) && option_within(
            range.next,
            (depth - 1) as nat,
        ) && option_within(range.to, (depth - 1) as nat),
        Expr::FullCellPath(head, _) => expr_within(*head, (depth - 1) as nat),
        Expr::Keyword(keyword) => expr_within(keyword.expr, (depth - 1) as nat),
        Expr::ValueWithUnit(value) => expr_within(value.expr, (depth - 1) as nat),
        Expr::MatchBlock(arms) => forall|i: int|
            0 <= i < arms.len() ==> arm_within(#[trigger] arms[i], (depth - 1) as nat),
        Expr::AttributeBlock(attributed) => expr_within(attributed.item, (depth - 1) as nat),
        _ => true,
    })
}

/// Whether an expression that may be missing nests no deeper than `depth`
/// levels.
pub open spec fn option_within(e: Option<ExprNode>, depth: nat) -> bool
    decreases e, 1int,
{
    match e {
        Some(e) => expr_within(e, depth),
        None => true,
    }
}

/// Whether each expression of a list nests no deeper than `depth` levels.
pub open spec fn exprs_within(expressions: Vec<ExprNode>, depth: nat) -> bool
    decreases expressions, 0int,
{
    forall|i: int| 0 <= i < expressions.len() ==> expr_within(#[trigger] expressions[i], depth)
}

/// Whether the columns and the cells of a table nest no deeper than `depth`
/// levels.
pub open spec fn table_within(table: Table, depth: nat) -> bool
    decreases table, 0int,
{
    &&& exprs_within(table.columns, depth)
    &&& forall|i: int| 0 <= i < table.rows.len() ==> exprs_within(#[trigger] table.rows[i], depth)
}

/// Whether the expression of an argument nests no deeper than `depth`
/// levels.
pub open spec fn arg_within(argument: Arg, depth: nat) -> bool
    decreases argument, 2int,
{
    match argument {
        Arg::Positional(e) | Arg::Unknown(e) | Arg::Spread(e) => expr_within(e, depth),
        Arg::Named { value, .. } => option_within(value, depth),
    }
}

/// Whether the arguments of a call nest no deeper than `depth` levels.
pub open spec fn call_within(call: CallNode, depth: nat) -> bool
    decreases call, 0int,
{
    forall|i: int| 0 <= i < call.arguments.len() ==> arg_within(#[trigger] call.arguments[i], depth)
}

/// Whether the expressions of a record item nest no deeper than `depth`
/// levels.
pub open spec fn record_entry_within(item: RecordEntry, depth: nat) -> bool
    decreases item, 0int,
{
    match item {
        RecordEntry::Pair(key, value) => expr_within(key, depth) && expr_within(value, depth),
        RecordEntry::Spread(e) => expr_within(e, depth),
    }
}

/// Whether the pattern and the value of a match arm nest no deeper than
/// `depth` levels.
pub open spec fn arm_within(arm: MatchArm, depth: nat) -> bool
    decreases arm, 0int,
{
    pattern_within(arm.pattern, depth) && expr_within(arm.value, depth)
}

/// Whether a pattern nests no deeper than `depth` levels. A garbage pattern
/// without guard is within every depth.
pub open spec fn pattern_within(pattern: ArmPattern, depth: nat) -> bool
    decreases pattern, 0int,
{
    (pattern.pattern is Garbage && pattern.guard is None) || (depth > 0 && match pattern.guard {
        Some(guard) => expr_within(*guard, (depth - 1) as nat),
        None => true,
    } && match pattern.pattern {
        Pattern::Expression(e) => expr_within(*e, (depth - 1) as nat),
        Pattern::Or(parts) | Pattern::List(parts) => forall|i: int|
            0 <= i < parts.len() ==> pattern_within(#[trigger] parts[i], (depth - 1) as nat),
        Pattern::Record(entries) => forall|i: int|
            0 <= i < entries.len() ==> pattern_within(
                (#[trigger] entries[i]).pattern,
                (depth - 1) as nat,
            ),
        _ => true,
    })
}

/// Whether a redirection target nests no deeper than `depth` levels.
pub open spec fn target_within(target: Target, depth: nat) -> bool
    decreases target, 0int,
{
    match target {
        Target::File { expr, .. } => expr_within(expr, depth),
        Target::Pipe { .. } => true,
    }
}

/// Whether a pipeline element nests no deeper than `depth` levels.
pub open spec fn element_within(element: Element, depth: nat) -> bool
    decreases element, 0int,
{
    &&& expr_within(element.expr, depth)
    &&& match element.redirection {
        None => true,
        Some(Redirection::Single(target)) => target_within(target, depth),
        Some(Redirection::Separate { out, err }) => target_within(out, depth) && target_within(
            err,
            depth,
        ),
    }
}

/// Whether a pipeline nests no deeper than `depth` levels.
pub open spec fn pipeline_within(pipeline: PipelineNode, depth: nat) -> bool
    decreases pipeline, 0int,
{
    forall|i: int|
        0 <= i < pipeline.elements.len() ==> element_within(#[trigger] pipeline.elements[i], depth)
}

/// Whether a block nests no deeper than `depth` levels.
pub open spec fn block_within(block: BlockNode, depth: nat) -> bool
    decreases block, 0int,
{
    forall|i: int|
        0 <= i < block.pipelines.len() ==> pipeline_within(#[trigger] block.pipelines[i], depth)
}

} // verus!
