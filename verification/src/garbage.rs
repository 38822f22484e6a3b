//! Finding what the parser could not make sense of.
//!
//! Garbage is searched in the whole tree: in every part of every kind of
//! expression, in patterns and their guards, and in the targets of
//! redirections.

use vstd::prelude::*;
use crate::ast::{
    Arg, ArmPattern, BlockNode, Element, Expr, ExprNode, ExternalArg, ListEntry, MatchArm,
    Pattern, PatternEntry, PipelineNode, RecordEntry, Redirection, Target,
};

verus! {

/// Whether a block holds garbage: one of its pipelines does.
pub open spec fn block_has_garbage(block: BlockNode) -> bool
    decreases block, 0int,
{
    exists|i: int|
        0 <= i < block.pipelines.len() && pipeline_has_garbage(#[trigger] block.pipelines[i])
}

/// Whether a pipeline holds garbage: one of its elements does.
pub open spec fn pipeline_has_garbage(pipeline: PipelineNode) -> bool
    decreases pipeline, 0int,
{
    exists|i: int|
        0 <= i < pipeline.elements.len() && element_has_garbage(#[trigger] pipeline.elements[i])
}

/// Whether a pipeline element holds garbage, in its expression or in a
/// target of its redirection.
pub open spec fn element_has_garbage(element: Element) -> bool
    decreases element, 0int,
{
    has_garbage_in(element.expr) || match element.redirection {
        None => false,
        Some(Redirection::Single(target)) => target_has_garbage(target),
        Some(Redirection::Separate { out, err }) => target_has_garbage(out) || target_has_garbage(
            err,
        ),
    }
}

/// Whether the file expression of a redirection target holds garbage.
pub open spec fn target_has_garbage(target: Target) -> bool
    decreases target, 0int,
{
    match target {
        Target::File { expr, .. } => has_garbage_in(expr),
        Target::Pipe { .. } => false,
    }
}

/// Whether an expression holds garbage: it is garbage itself, or one of its
/// parts, of whatever kind, holds garbage.
pub open spec fn has_garbage_in(e: ExprNode) -> bool
    decreases e, 0int,
{
    match e.expr {
        Expr::Garbage => true,
        Expr::Call(call) => exists|i: int|
            0 <= i < call.arguments.len() && arg_has_garbage(#[trigger] call.arguments[i]),
        Expr::ExternalCall(head, arguments) => has_garbage_in(*head) || exists|i: int|
            0 <= i < arguments.len() && has_garbage_in((#[trigger] arguments[i]).expr),
        Expr::BinaryOp(lhs, op, rhs) => has_garbage_in(*lhs) || has_garbage_in(*op)
            || has_garbage_in(*rhs),
        Expr::UnaryNot(inner) | Expr::Collect(inner) => has_garbage_in(*inner),
        Expr::Block(block)
        | Expr::Closure(block)
        | Expr::Subexpression(block)
        | Expr::RowCondition(block) => block_has_garbage(*block),
        Expr::List(items) => exists|i: int|
            0 <= i < items.len() && has_garbage_in((#[trigger] items[i]).expr),
        Expr::Record(items) => exists|i: int|
            0 <= i < items.len() && record_entry_has_garbage(#[trigger] items[i]),
        Expr::Table(table) => exprs_have_garbage(table.columns) || exists|i: int|
            0 <= i < table.rows.len() && exprs_have_garbage(#[trigger] table.rows[i]),
        Expr::Range(range) => option_has_garbage(range.from) || option_has_garbage(range.next)
            || option_has_garbage(range.to),
        Expr::FullCellPath(head, _) => has_garbage_in(*head),
        Expr::Keyword(keyword) => has_garbage_in(keyword.expr),
        Expr::ValueWithUnit(value) => has_garbage_in(value.expr),
        Expr::MatchBlock(arms) => exists|i: int|
            0 <= i < arms.len() && arm_has_garbage(#[trigger] arms[i]),
        Expr::AttributeBlock(attributed) => has_garbage_in(attributed.item),
        _ => false,
    }
}

/// Whether an expression that may be missing holds garbage.
pub open spec fn option_has_garbage(e: Option<ExprNode>) -> bool
    decreases e, 1int,
{
    match e {
        Some(e) => has_garbage_in(e),
        None => false,
    }
}

/// Whether one of the expressions of a list holds garbage.
pub open spec fn exprs_have_garbage(expressions: Vec<ExprNode>) -> bool
    decreases expressions, 0int,
{
    exists|i: int| 0 <= i < expressions.len() && has_garbage_in(#[trigger] expressions[i])
}

/// Whether the expression of an argument holds garbage.
pub open spec fn arg_has_garbage(argument: Arg) -> bool
    decreases argument, 2int,
{
    match argument {
        Arg::Positional(e) | Arg::Unknown(e) | Arg::Spread(e) => has_garbage_in(e),
        Arg::Named { value, .. } => option_has_garbage(value),
    }
}

/// Whether a record item holds garbage, in its key, its value or its spread
/// expression.
pub open spec fn record_entry_has_garbage(item: RecordEntry) -> bool
    decreases item, 0int,
{
    match item {
        RecordEntry::Pair(key, value) => has_garbage_in(key) || has_garbage_in(value),
        RecordEntry::Spread(e) => has_garbage_in(e),
    }
}

/// Whether a match arm holds garbage, in its pattern or in its value.
pub open spec fn arm_has_garbage(arm: MatchArm) -> bool
    decreases arm, 0int,
{
    pattern_has_garbage(arm.pattern) || has_garbage_in(arm.value)
}

/// Whether a pattern holds garbage: it is a garbage pattern, or its guard or
/// one of its parts holds garbage.
pub open spec fn pattern_has_garbage(pattern: ArmPattern) -> bool
    decreases pattern, 0int,
{
    let in_guard = match pattern.guard {
        Some(guard) => has_garbage_in(*guard),
        None => false,
    };
    let in_shape = match pattern.pattern {
        Pattern::Garbage => true,
        Pattern::Expression(e) => has_garbage_in(*e),
        Pattern::Or(parts) => exists|i: int|
            0 <= i < parts.len() && pattern_has_garbage(#[trigger] parts[i]),
        Pattern::List(parts) => exists|i: int|
            0 <= i < parts.len() && pattern_has_garbage(#[trigger] parts[i]),
        Pattern::Record(entries) => exists|i: int|
            0 <= i < entries.len() && pattern_has_garbage((#[trigger] entries[i]).pattern),
        _ => false,
    };
    in_guard || in_shape
}

/// Checks whether a block contains garbage.
pub fn has_garbage(block: &BlockNode) -> (found: bool)
    ensures
        found == block_has_garbage(*block),
    decreases block, 0int,
{
    let pipelines = &block.pipelines;
    let mut i: usize = 0;
    while i < pipelines.len()
        invariant
            i <= pipelines.len(),
            pipelines == &block.pipelines,
            forall|k: int| 0 <= k < i ==> !pipeline_has_garbage(#[trigger] pipelines[k]),
        decreases pipelines.len() - i,
    {
        if pipeline_holds_garbage(&pipelines[i]) {
            return true;
        }
        i += 1;
    }
    false
}

fn pipeline_holds_garbage(pipeline: &PipelineNode) -> (found: bool)
    ensures
        found == pipeline_has_garbage(*pipeline),
    decreases pipeline, 0int,
{
    let elements = &pipeline.elements;
    let mut i: usize = 0;
    while i < elements.len()
        invariant
            i <= elements.len(),
            elements == &pipeline.elements,
            forall|k: int| 0 <= k < i ==> !element_has_garbage(#[trigger] elements[k]),
        decreases elements.len() - i,
    {
        if element_holds_garbage(&elements[i]) {
            return true;
        }
        i += 1;
    }
    false
}

fn element_holds_garbage(element: &Element) -> (found: bool)
    ensures
        found == element_has_garbage(*element),
    decreases element, 0int,
{
    if expr_has_garbage(&element.expr) {
        return true;
    }
    match &element.redirection {
        None => false,
        Some(Redirection::Single(target)) => target_holds_garbage(target),
        Some(Redirection::Separate { out, err }) => target_holds_garbage(out)
            || target_holds_garbage(err),
    }
}

fn target_holds_garbage(target: &Target) -> (found: bool)
    ensures
        found == target_has_garbage(*target),
    decreases target, 0int,
{
    match target {
        Target::File { expr, .. } => expr_has_garbage(expr),
        Target::Pipe { .. } => false,
    }
}

/// Checks whether an expression contains garbage.
pub fn expr_has_garbage(expr: &ExprNode) -> (found: bool)
    ensures
        found == has_garbage_in(*expr),
    decreases expr, 0int,
{
    match &expr.expr {
        Expr::Garbage => true,
        Expr::Call(call) => args_hold_garbage(&call.arguments),
        Expr::ExternalCall(head, arguments) => expr_has_garbage(head)
            || external_args_hold_garbage(arguments),
        Expr::BinaryOp(lhs, op, rhs) => expr_has_garbage(lhs) || expr_has_garbage(op)
            || expr_has_garbage(rhs),
        Expr::UnaryNot(inner) | Expr::Collect(inner) => expr_has_garbage(inner),
        Expr::Block(block)
        | Expr::Closure(block)
        | Expr::Subexpression(block)
        | Expr::RowCondition(block) => has_garbage(block),
        Expr::List(items) => list_holds_garbage(items),
        Expr::Record(items) => record_holds_garbage(items),
        Expr::Table(table) => exprs_hold_garbage(&table.columns) || rows_hold_garbage(
            &table.rows,
        ),
        Expr::Range(range) => option_holds_garbage(&range.from) || option_holds_garbage(
            &range.next,
        ) || option_holds_garbage(&range.to),
        Expr::FullCellPath(head, _) => expr_has_garbage(head),
        Expr::Keyword(keyword) => expr_has_garbage(&keyword.expr),
        Expr::ValueWithUnit(value) => expr_has_garbage(&value.expr),
        Expr::MatchBlock(arms) => arms_hold_garbage(arms),
        Expr::AttributeBlock(attributed) => expr_has_garbage(&attributed.item),
        _ => false,
    }
}

fn option_holds_garbage(e: &Option<ExprNode>) -> (found: bool)
    ensures
        found == option_has_garbage(*e),
    decreases e, 1int,
{
    match e {
        Some(e) => expr_has_garbage(e),
        None => false,
    }
}

fn exprs_hold_garbage(expressions: &Vec<ExprNode>) -> (found: bool)
    ensures
        found == exprs_have_garbage(*expressions),
    decreases expressions, 0int,
{
    let mut i: usize = 0;
    while i < expressions.len()
        invariant
            i <= expressions.len(),
            forall|k: int| 0 <= k < i ==> !has_garbage_in(#[trigger] expressions[k]),
        decreases expressions.len() - i,
    {
        if expr_has_garbage(&expressions[i]) {
            return true;
        }
        i += 1;
    }
    false
}

fn rows_hold_garbage(rows: &Vec<Vec<ExprNode>>) -> (found: bool)
    ensures
        found == exists|i: int| 0 <= i < rows.len() && exprs_have_garbage(#[trigger] rows[i]),
    decreases rows, 1int,
{
    let mut i: usize = 0;
    while i < rows.len()
        invariant
            i <= rows.len(),
            forall|k: int| 0 <= k < i ==> !exprs_have_garbage(#[trigger] rows[k]),
        decreases rows.len() - i,
    {
        if exprs_hold_garbage(&rows[i]) {
            return true;
        }
        i += 1;
    }
    false
}

fn args_hold_garbage(arguments: &Vec<Arg>) -> (found: bool)
    ensures
        found == exists|i: int|
            0 <= i < arguments.len() && arg_has_garbage(#[trigger] arguments[i]),
    decreases arguments, 3int,
{
    let mut i: usize = 0;
    while i < arguments.len()
        invariant
            i <= arguments.len(),
            forall|k: int| 0 <= k < i ==> !arg_has_garbage(#[trigger] arguments[k]),
        decreases arguments.len() - i,
    {
        let found = match &arguments[i] {
            Arg::Positional(e) | Arg::Unknown(e) | Arg::Spread(e) => expr_has_garbage(e),
            Arg::Named { value, .. } => option_holds_garbage(value),
        };
        if found {
            return true;
        }
        i += 1;
    }
    false
}

fn external_args_hold_garbage(arguments: &Vec<ExternalArg>) -> (found: bool)
    ensures
        found == exists|i: int|
            0 <= i < arguments.len() && has_garbage_in((#[trigger] arguments[i]).expr),
    decreases arguments, 1int,
{
    let mut i: usize = 0;
    while i < arguments.len()
        invariant
            i <= arguments.len(),
            forall|k: int| 0 <= k < i ==> !has_garbage_in((#[trigger] arguments[k]).expr),
        decreases arguments.len() - i,
    {
        if expr_has_garbage(&arguments[i].expr) {
            return true;
        }
        i += 1;
    }
    false
}

fn list_holds_garbage(items: &Vec<ListEntry>) -> (found: bool)
    ensures
        found == exists|i: int| 0 <= i < items.len() && has_garbage_in((#[trigger] items[i]).expr),
    decreases items, 1int,
{
    let mut i: usize = 0;
    while i < items.len()
        invariant
            i <= items.len(),
            forall|k: int| 0 <= k < i ==> !has_garbage_in((#[trigger] items[k]).expr),
        decreases items.len() - i,
    {
        if expr_has_garbage(&items[i].expr) {
            return true;
        }
        i += 1;
    }
    false
}

fn record_holds_garbage(items: &Vec<RecordEntry>) -> (found: bool)
    ensures
        found == exists|i: int|
            0 <= i < items.len() && record_entry_has_garbage(#[trigger] items[i]),
    decreases items, 1int,
{
    let mut i: usize = 0;
    while i < items.len()
        invariant
            i <= items.len(),
            forall|k: int| 0 <= k < i ==> !record_entry_has_garbage(#[trigger] items[k]),
        decreases items.len() - i,
    {
        let found = match &items[i] {
            RecordEntry::Pair(key, value) => expr_has_garbage(key) || expr_has_garbage(value),
            RecordEntry::Spread(e) => expr_has_garbage(e),
        };
        if found {
            return true;
        }
        i += 1;
    }
    false
}

fn arms_hold_garbage(arms: &Vec<MatchArm>) -> (found: bool)
    ensures
        found == exists|i: int| 0 <= i < arms.len() && arm_has_garbage(#[trigger] arms[i]),
    decreases arms, 1int,
{
    let mut i: usize = 0;
    while i < arms.len()
        invariant
            i <= arms.len(),
            forall|k: int| 0 <= k < i ==> !arm_has_garbage(#[trigger] arms[k]),
        decreases arms.len() - i,
    {
        if pattern_holds_garbage(&arms[i].pattern) || expr_has_garbage(&arms[i].value) {
            return true;
        }
        i += 1;
    }
    false
}

/// Checks whether a pattern contains garbage.
pub fn pattern_holds_garbage(pattern: &ArmPattern) -> (found: bool)
    ensures
        found == pattern_has_garbage(*pattern),
    decreases pattern, 0int,
{
    if let Some(guard) = &pattern.guard {
        if expr_has_garbage(guard) {
            return true;
        }
    }
    match &pattern.pattern {
        Pattern::Garbage => true,
        Pattern::Expression(e) => expr_has_garbage(e),
        Pattern::Or(parts) => patterns_hold_garbage(parts),
        Pattern::List(parts) => patterns_hold_garbage(parts),
        Pattern::Record(entries) => entries_hold_garbage(entries),
        _ => false,
    }
}

fn patterns_hold_garbage(parts: &Vec<ArmPattern>) -> (found: bool)
    ensures
        found == exists|i: int| 0 <= i < parts.len() && pattern_has_garbage(#[trigger] parts[i]),
    decreases parts, 1int,
{
    let mut i: usize = 0;
    while i < parts.len()
        invariant
            i <= parts.len(),
            forall|k: int| 0 <= k < i ==> !pattern_has_garbage(#[trigger] parts[k]),
        decreases parts.len() - i,
    {
        if pattern_holds_garbage(&parts[i]) {
            return true;
        }
        i += 1;
    }
    false
}

fn entries_hold_garbage(entries: &Vec<PatternEntry>) -> (found: bool)
    ensures
        found == exists|i: int|
            0 <= i < entries.len() && pattern_has_garbage((#[trigger] entries[i]).pattern),
    decreases entries, 1int,
{
    let mut i: usize = 0;
    while i < entries.len()
        invariant
            i <= entries.len(),
            forall|k: int| 0 <= k < i ==> !pattern_has_garbage((#[trigger] entries[k]).pattern),
        decreases entries.len() - i,
    {
        if pattern_holds_garbage(&entries[i].pattern) {
            return true;
        }
        i += 1;
    }
    false
}

} // verus!
