//! Building the syntax tree from what the parser returns.
//!
//! The parser's tree is read node by node, and each node is rebuilt as a
//! node of this crate. Blocks, which the parser keeps in a table, are put in
//! the place of the expressions that refer to them.
//!
//! What a node holds is for the parser to say, so the functions here state
//! what holds of the tree whatever was read: it nests no deeper than the
//! depth it was built with, a list has an item for each item read, the name
//! of a command is one the working set declares, and a parameter of type
//! `any` has no type.

use std::sync::Arc;
use vstd::prelude::*;
use vstd::slice::slice_to_vec;
use vstd::string::StringSliceAdditionalSpecFns;
use vstd::utf8::{encode_utf8_valid_utf8, valid_utf8};
use crate::ast::{
    Arg, ArmPattern, AttributeBlock, BlockNode, CallNode, Element, Expr, ExprNode, ExternalArg,
    FlagParam, Keyword, ListEntry, MatchArm, Parameter, Params, PathStep, Pattern, PatternEntry,
    PipelineNode, Range, RecordEntry, Redirection, Span, Table, Target, ValueWithUnit,
};
use crate::frontend::{
    argument_expression, argument_flag, as_attribute_block, as_binary_op, as_block_reference,
    as_call, as_cell_path, as_external_call, as_full_cell_path, as_keyword, as_list, as_match_block,
    as_range, as_record, as_signature, as_table, as_value_with_unit, as_wrapper, attribute_span,
    block_count, block_pipelines, call_arguments, call_declaration, call_head, declaration_count,
    declaration_name, declared_names, default_engine_state, element_expression, element_targets,
    expression_span, external_argument, flag_has_completer, flag_names, flag_value, list_item,
    literal_kind, new_working_set, operator_assigns, parse_source, path_member, pattern_entries,
    pattern_expression, pattern_guard, pattern_parts, pattern_span, pipeline_elements,
    plain_pattern, positional_has_completer, positional_parts, range_operator, record_item,
    shape_text, signature_flags, signature_positionals, signature_type_count, stored_block,
    target_file, target_operator, value_text, word_kind, ArgumentKind, BlockKind,
};
use crate::model::text;
use crate::nesting::{
    arg_within, arm_within, block_within, call_within, element_within, expr_within, exprs_within,
    option_within, pattern_within, pipeline_within, record_entry_within, table_within,
    target_within,
};
use crate::text::bytes_equal;

verus! {

/// How deep a tree may nest. A node nested deeper is taken for garbage.
pub const NESTING_LIMIT: usize = usize::MAX;

/// Whether `name` is the name of a declaration that the working set knows,
/// or empty.
pub open spec fn declared_or_empty(
    working_set: &nu_protocol::engine::StateWorkingSet<'_>,
    name: Seq<u8>,
) -> bool {
    name.len() == 0 || exists|id: int|
        0 <= id < declared_names(working_set).len() && #[trigger] declared_names(working_set)[id]
            == name
}

fn garbage(span: Span) -> (node: ExprNode)
    ensures
        node.expr is Garbage,
        node.span == span,
{
    ExprNode { expr: Expr::Garbage, span }
}

fn lower_block(
    working_set: &nu_protocol::engine::StateWorkingSet<'_>,
    block: &Arc<nu_protocol::ast::Block>,
    depth: usize,
) -> (lowered: BlockNode)
    ensures
        block_within(lowered, depth as nat),
    decreases depth, 4int,
{
    let pipelines = block_pipelines(block);
    let mut lowered: Vec<PipelineNode> = Vec::new();
    let mut i: usize = 0;
    while i < pipelines.len()
        invariant
            i <= pipelines.len(),
            forall|k: int|
                0 <= k < lowered.len() ==> pipeline_within(#[trigger] lowered[k], depth as nat),
        decreases pipelines.len() - i,
    {
        lowered.push(lower_pipeline(working_set, &pipelines[i], depth));
        i += 1;
    }
    BlockNode { pipelines: lowered }
}

fn lower_pipeline(
    working_set: &nu_protocol::engine::StateWorkingSet<'_>,
    pipeline: &nu_protocol::ast::Pipeline,
    depth: usize,
) -> (lowered: PipelineNode)
    ensures
        pipeline_within(lowered, depth as nat),
    decreases depth, 3int,
{
    let elements = pipeline_elements(pipeline);
    let mut lowered: Vec<Element> = Vec::new();
    let mut i: usize = 0;
    while i < elements.len()
        invariant
            i <= elements.len(),
            forall|k: int|
                0 <= k < lowered.len() ==> element_within(#[trigger] lowered[k], depth as nat),
        decreases elements.len() - i,
    {
        lowered.push(lower_element(working_set, &elements[i], depth));
        i += 1;
    }
    PipelineNode { elements: lowered }
}

fn lower_element(
    working_set: &nu_protocol::engine::StateWorkingSet<'_>,
    element: &nu_protocol::ast::PipelineElement,
    depth: usize,
) -> (lowered: Element)
    ensures
        element_within(lowered, depth as nat),
    decreases depth, 2int,
{
    let expr = lower_expression(working_set, element_expression(element), depth);
    let redirection = match element_targets(element) {
        None => None,
        Some((target, None)) => Some(Redirection::Single(lower_target(working_set, target, depth))),
        Some((out, Some(err))) => Some(
            Redirection::Separate {
                out: lower_target(working_set, out, depth),
                err: lower_target(working_set, err, depth),
            },
        ),
    };
    Element { expr, redirection }
}

fn lower_target(
    working_set: &nu_protocol::engine::StateWorkingSet<'_>,
    target: &nu_protocol::ast::RedirectionTarget,
    depth: usize,
) -> (lowered: Target)
    ensures
        target_within(lowered, depth as nat),
    decreases depth, 1int,
{
    let span = target_operator(target);
    match target_file(target) {
        Some(file) => Target::File { span, expr: lower_expression(working_set, file, depth) },
        None => Target::Pipe { span },
    }
}

fn lower_option(
    working_set: &nu_protocol::engine::StateWorkingSet<'_>,
    e: Option<&nu_protocol::ast::Expression>,
    depth: usize,
) -> (lowered: Option<ExprNode>)
    ensures
        lowered is Some <==> e is Some,
        option_within(lowered, depth as nat),
    decreases depth, 1int,
{
    match e {
        Some(e) => Some(lower_expression(working_set, e, depth)),
        None => None,
    }
}

fn lower_expressions(
    working_set: &nu_protocol::engine::StateWorkingSet<'_>,
    expressions: &[nu_protocol::ast::Expression],
    depth: usize,
) -> (lowered: Vec<ExprNode>)
    ensures
        lowered.len() == expressions@.len(),
        exprs_within(lowered, depth as nat),
    decreases depth, 1int,
{
    let mut lowered: Vec<ExprNode> = Vec::new();
    let mut i: usize = 0;
    while i < expressions.len()
        invariant
            i <= expressions@.len(),
            lowered.len() == i,
            forall|k: int|
                0 <= k < lowered.len() ==> expr_within(#[trigger] lowered[k], depth as nat),
        decreases expressions.len() - i,
    {
        lowered.push(lower_expression(working_set, &expressions[i], depth));
        i += 1;
    }
    lowered
}

/// Rebuilds an expression. An expression nested deeper than `depth` levels,
/// or of a kind that is not known here, becomes garbage with the same range.
fn lower_expression(
    working_set: &nu_protocol::engine::StateWorkingSet<'_>,
    e: &nu_protocol::ast::Expression,
    depth: usize,
) -> (lowered: ExprNode)
    ensures
        expr_within(lowered, depth as nat),
    decreases depth, 0int,
{
    let span = expression_span(e);
    if depth == 0 {
        return garbage(span);
    }
    let below = depth - 1;
    let expr = if let Some(kind) = literal_kind(e) {
        kind
    } else if let Some(kind) = word_kind(e) {
        kind
    } else if let Some(assignment) = operator_assigns(e) {
        Expr::Operator { assignment }
    } else if let Some(call) = as_call(e) {
        Expr::Call(Box::new(lower_call(working_set, call, below)))
    } else if let Some((head, arguments)) = as_external_call(e) {
        Expr::ExternalCall(
            Box::new(lower_expression(working_set, head, below)),
            lower_external_arguments(working_set, arguments, below),
        )
    } else if let Some((lhs, op, rhs)) = as_binary_op(e) {
        Expr::BinaryOp(
            Box::new(lower_expression(working_set, lhs, below)),
            Box::new(lower_expression(working_set, op, below)),
            Box::new(lower_expression(working_set, rhs, below)),
        )
    } else if let Some((negation, inner)) = as_wrapper(e) {
        let inner = Box::new(lower_expression(working_set, inner, below));
        if negation {
            Expr::UnaryNot(inner)
        } else {
            Expr::Collect(inner)
        }
    } else if let Some((kind, id)) = as_block_reference(e) {
        if id < block_count(working_set) {
            let block = Box::new(lower_block(working_set, stored_block(working_set, id), below));
            match kind {
                BlockKind::Block => Expr::Block(block),
                BlockKind::Closure => Expr::Closure(block),
                BlockKind::Subexpression => Expr::Subexpression(block),
                BlockKind::RowCondition => Expr::RowCondition(block),
            }
        } else {
            Expr::Garbage
        }
    } else if let Some(items) = as_list(e) {
        Expr::List(lower_list(working_set, items, below))
    } else if let Some(items) = as_record(e) {
        Expr::Record(lower_record(working_set, items, below))
    } else if let Some((columns, rows)) = as_table(e) {
        Expr::Table(Box::new(lower_table(working_set, columns, rows, below)))
    } else if let Some((from, next, to)) = as_range(e) {
        let operator = match range_operator(e) {
            Some(operator) => operator,
            None => Span { start: 0, end: 0 },
        };
        Expr::Range(
            Box::new(
                Range {
                    from: lower_option(working_set, from, below),
                    next: lower_option(working_set, next, below),
                    to: lower_option(working_set, to, below),
                    operator,
                },
            ),
        )
    } else if let Some(members) = as_cell_path(e) {
        Expr::CellPath(lower_path(members))
    } else if let Some((head, tail)) = as_full_cell_path(e) {
        Expr::FullCellPath(Box::new(lower_expression(working_set, head, below)), lower_path(tail))
    } else if let Some((keyword, inner)) = as_keyword(e) {
        Expr::Keyword(
            Box::new(Keyword { span: keyword, expr: lower_expression(working_set, inner, below) }),
        )
    } else if let Some((inner, unit)) = as_value_with_unit(e) {
        Expr::ValueWithUnit(
            Box::new(ValueWithUnit { expr: lower_expression(working_set, inner, below), unit }),
        )
    } else if let Some(arms) = as_match_block(e) {
        Expr::MatchBlock(lower_arms(working_set, arms, below))
    } else if let Some((attributes, item)) = as_attribute_block(e) {
        Expr::AttributeBlock(
            Box::new(
                AttributeBlock {
                    attributes: lower_attributes(attributes),
                    item: lower_expression(working_set, item, below),
                },
            ),
        )
    } else if let Some(signature) = as_signature(e) {
        Expr::Signature(Box::new(lower_signature(signature)))
    } else {
        Expr::Garbage
    };
    ExprNode { expr, span }
}

fn lower_call(
    working_set: &nu_protocol::engine::StateWorkingSet<'_>,
    call: &nu_protocol::ast::Call,
    depth: usize,
) -> (lowered: CallNode)
    ensures
        declared_or_empty(working_set, lowered.name@),
        call_within(lowered, depth as nat),
    decreases depth, 3int,
{
    let id = call_declaration(call);
    let name = if id < declaration_count(working_set) {
        declaration_name(working_set, id)
    } else {
        Vec::new()
    };
    let arguments = call_arguments(call);
    let mut lowered: Vec<Arg> = Vec::new();
    let mut i: usize = 0;
    while i < arguments.len()
        invariant
            i <= arguments.len(),
            forall|k: int|
                0 <= k < lowered.len() ==> arg_within(#[trigger] lowered[k], depth as nat),
        decreases arguments.len() - i,
    {
        lowered.push(lower_argument(working_set, &arguments[i], depth));
        i += 1;
    }
    CallNode { name, head: call_head(call), arguments: lowered }
}

fn lower_argument(
    working_set: &nu_protocol::engine::StateWorkingSet<'_>,
    argument: &nu_protocol::ast::Argument,
    depth: usize,
) -> (lowered: Arg)
    ensures
        arg_within(lowered, depth as nat),
    decreases depth, 2int,
{
    if let Some((kind, e)) = argument_expression(argument) {
        let e = lower_expression(working_set, e, depth);
        match kind {
            ArgumentKind::Positional => Arg::Positional(e),
            ArgumentKind::Unknown => Arg::Unknown(e),
            ArgumentKind::Spread => Arg::Spread(e),
        }
    } else if let Some((long, short, value)) = argument_flag(argument) {
        Arg::Named { long, short, value: lower_option(working_set, value, depth) }
    } else {
        Arg::Named { long: Span { start: 0, end: 0 }, short: None, value: None }
    }
}

fn lower_external_arguments(
    working_set: &nu_protocol::engine::StateWorkingSet<'_>,
    arguments: &[nu_protocol::ast::ExternalArgument],
    depth: usize,
) -> (lowered: Vec<ExternalArg>)
    ensures
        lowered.len() == arguments@.len(),
        forall|k: int|
            0 <= k < lowered.len() ==> expr_within((#[trigger] lowered[k]).expr, depth as nat),
    decreases depth, 1int,
{
    let mut lowered: Vec<ExternalArg> = Vec::new();
    let mut i: usize = 0;
    while i < arguments.len()
        invariant
            i <= arguments@.len(),
            lowered.len() == i,
            forall|k: int|
                0 <= k < lowered.len() ==> expr_within((#[trigger] lowered[k]).expr, depth as nat),
        decreases arguments.len() - i,
    {
        let (spread, e) = external_argument(&arguments[i]);
        lowered.push(ExternalArg { spread, expr: lower_expression(working_set, e, depth) });
        i += 1;
    }
    lowered
}

fn lower_list(
    working_set: &nu_protocol::engine::StateWorkingSet<'_>,
    items: &Vec<nu_protocol::ast::ListItem>,
    depth: usize,
) -> (lowered: Vec<ListEntry>)
    ensures
        lowered.len() == items.len(),
        forall|k: int|
            0 <= k < lowered.len() ==> expr_within((#[trigger] lowered[k]).expr, depth as nat),
    decreases depth, 1int,
{
    let mut lowered: Vec<ListEntry> = Vec::new();
    let mut i: usize = 0;
    while i < items.len()
        invariant
            i <= items.len(),
            lowered.len() == i,
            forall|k: int|
                0 <= k < lowered.len() ==> expr_within((#[trigger] lowered[k]).expr, depth as nat),
        decreases items.len() - i,
    {
        let (spread, e) = list_item(&items[i]);
        lowered.push(ListEntry { spread, expr: lower_expression(working_set, e, depth) });
        i += 1;
    }
    lowered
}

fn lower_record(
    working_set: &nu_protocol::engine::StateWorkingSet<'_>,
    items: &Vec<nu_protocol::ast::RecordItem>,
    depth: usize,
) -> (lowered: Vec<RecordEntry>)
    ensures
        lowered.len() == items.len(),
        forall|k: int|
            0 <= k < lowered.len() ==> record_entry_within(#[trigger] lowered[k], depth as nat),
    decreases depth, 1int,
{
    let mut lowered: Vec<RecordEntry> = Vec::new();
    let mut i: usize = 0;
    while i < items.len()
        invariant
            i <= items.len(),
            lowered.len() == i,
            forall|k: int|
                0 <= k < lowered.len() ==> record_entry_within(#[trigger] lowered[k], depth as nat),
        decreases items.len() - i,
    {
        let (key, value) = record_item(&items[i]);
        let value = lower_expression(working_set, value, depth);
        lowered.push(
            match key {
                Some(key) => RecordEntry::Pair(lower_expression(working_set, key, depth), value),
                None => RecordEntry::Spread(value),
            },
        );
        i += 1;
    }
    lowered
}

fn lower_table(
    working_set: &nu_protocol::engine::StateWorkingSet<'_>,
    columns: &[nu_protocol::ast::Expression],
    rows: &[Box<[nu_protocol::ast::Expression]>],
    depth: usize,
) -> (lowered: Table)
    ensures
        lowered.columns.len() == columns@.len(),
        lowered.rows.len() == rows@.len(),
        forall|k: int|
            0 <= k < rows@.len() ==> (#[trigger] lowered.rows[k]).len() == rows@[k]@.len(),
        table_within(lowered, depth as nat),
    decreases depth, 2int,
{
    let mut lowered: Vec<Vec<ExprNode>> = Vec::new();
    let mut i: usize = 0;
    while i < rows.len()
        invariant
            i <= rows@.len(),
            lowered.len() == i,
            forall|k: int|
                0 <= k < lowered.len() ==> (#[trigger] lowered[k]).len() == rows@[k]@.len(),
            forall|k: int|
                0 <= k < lowered.len() ==> exprs_within(#[trigger] lowered[k], depth as nat),
        decreases rows.len() - i,
    {
        let row: &[nu_protocol::ast::Expression] = &rows[i];
        lowered.push(lower_expressions(working_set, row, depth));
        i += 1;
    }
    Table { columns: lower_expressions(working_set, columns, depth), rows: lowered }
}

fn lower_path(members: &Vec<nu_protocol::ast::PathMember>) -> (lowered: Vec<PathStep>)
    ensures
        lowered.len() == members.len(),
{
    let mut lowered: Vec<PathStep> = Vec::new();
    let mut i: usize = 0;
    while i < members.len()
        invariant
            i <= members.len(),
            lowered.len() == i,
        decreases members.len() - i,
    {
        lowered.push(path_member(&members[i]));
        i += 1;
    }
    lowered
}

fn lower_attributes(attributes: &Vec<nu_protocol::ast::Attribute>) -> (lowered: Vec<Span>)
    ensures
        lowered.len() == attributes.len(),
{
    let mut lowered: Vec<Span> = Vec::new();
    let mut i: usize = 0;
    while i < attributes.len()
        invariant
            i <= attributes.len(),
            lowered.len() == i,
        decreases attributes.len() - i,
    {
        lowered.push(attribute_span(&attributes[i]));
        i += 1;
    }
    lowered
}

fn lower_arms(
    working_set: &nu_protocol::engine::StateWorkingSet<'_>,
    arms: &Vec<(nu_protocol::ast::MatchPattern, nu_protocol::ast::Expression)>,
    depth: usize,
) -> (lowered: Vec<MatchArm>)
    ensures
        lowered.len() == arms.len(),
        forall|k: int| 0 <= k < lowered.len() ==> arm_within(#[trigger] lowered[k], depth as nat),
    decreases depth, 1int,
{
    let mut lowered: Vec<MatchArm> = Vec::new();
    let mut i: usize = 0;
    while i < arms.len()
        invariant
            i <= arms.len(),
            lowered.len() == i,
            forall|k: int|
                0 <= k < lowered.len() ==> arm_within(#[trigger] lowered[k], depth as nat),
        decreases arms.len() - i,
    {
        lowered.push(
            MatchArm {
                pattern: lower_pattern(working_set, &arms[i].0, depth),
                value: lower_expression(working_set, &arms[i].1, depth),
            },
        );
        i += 1;
    }
    lowered
}

/// Rebuilds a pattern. A pattern nested deeper than `depth` levels, or of a
/// kind that is not known here, becomes garbage with the same range.
fn lower_pattern(
    working_set: &nu_protocol::engine::StateWorkingSet<'_>,
    pattern: &nu_protocol::ast::MatchPattern,
    depth: usize,
) -> (lowered: ArmPattern)
    ensures
        pattern_within(lowered, depth as nat),
    decreases depth, 0int,
{
    let span = pattern_span(pattern);
    if depth == 0 {
        return ArmPattern { pattern: Pattern::Garbage, guard: None, span };
    }
    let below = depth - 1;
    let guard = match pattern_guard(pattern) {
        Some(e) => Some(Box::new(lower_expression(working_set, e, below))),
        None => None,
    };
    let lowered = if let Some(kind) = plain_pattern(pattern) {
        kind
    } else if let Some(e) = pattern_expression(pattern) {
        Pattern::Expression(Box::new(lower_expression(working_set, e, below)))
    } else if let Some((alternatives, parts)) = pattern_parts(pattern) {
        let mut patterns: Vec<ArmPattern> = Vec::new();
        let mut i: usize = 0;
        while i < parts.len()
            invariant
                i <= parts.len(),
                below < depth,
                forall|k: int|
                    0 <= k < patterns.len() ==> pattern_within(
                        #[trigger] patterns[k],
                        below as nat,
                    ),
            decreases parts.len() - i,
        {
            patterns.push(lower_pattern(working_set, &parts[i], below));
            i += 1;
        }
        if alternatives {
            Pattern::Or(patterns)
        } else {
            Pattern::List(patterns)
        }
    } else if let Some(entries) = pattern_entries(pattern) {
        let mut patterns: Vec<PatternEntry> = Vec::new();
        let mut i: usize = 0;
        while i < entries.len()
            invariant
                i <= entries.len(),
                below < depth,
                forall|k: int|
                    0 <= k < patterns.len() ==> pattern_within(
                        (#[trigger] patterns[k]).pattern,
                        below as nat,
                    ),
            decreases entries.len() - i,
        {
            patterns.push(
                PatternEntry {
                    key: string_bytes(entries[i].0.as_str()),
                    pattern: lower_pattern(working_set, &entries[i].1, below),
                },
            );
            i += 1;
        }
        Pattern::Record(patterns)
    } else {
        Pattern::Garbage
    };
    ArmPattern { pattern: lowered, guard, span }
}

/// The bytes of a string; they are valid UTF-8.
fn string_bytes(s: &str) -> (bytes: Vec<u8>)
    ensures
        bytes@ == s.spec_bytes(),
        valid_utf8(bytes@),
{
    proof {
        encode_utf8_valid_utf8(s@);
    }
    slice_to_vec(s.as_bytes())
}

/// The type of a positional parameter as the tree holds it, given the text
/// of its shape: a parameter of type `any` counts as untyped.
pub open spec fn shape_of(shape: Seq<u8>) -> Option<Seq<u8>> {
    if shape == text("any") {
        None
    } else {
        Some(shape)
    }
}

/// Turns the text of a positional parameter's shape into its type.
pub fn typed_shape(shape: Vec<u8>) -> (typed: Option<Vec<u8>>)
    ensures
        match shape_of(shape@) {
            Some(t) => typed matches Some(v) && v@ == t,
            None => typed is None,
        },
{
    if bytes_equal(shape.as_slice(), "any".as_bytes()) {
        None
    } else {
        Some(shape)
    }
}

/// Whether one of the marks is set.
pub fn any_marked(marks: &Vec<bool>) -> (found: bool)
    ensures
        found == exists|i: int| 0 <= i < marks.len() && marks[i],
{
    let mut i: usize = 0;
    while i < marks.len()
        invariant
            i <= marks.len(),
            forall|k: int| 0 <= k < i ==> !marks[k],
        decreases marks.len() - i,
    {
        if marks[i] {
            return true;
        }
        i += 1;
    }
    false
}

/// What holds of every positional parameter that is rebuilt from the
/// parser's: its name is valid UTF-8, and its type, where it has one, is not
/// `any`.
pub open spec fn parameter_rebuilt(parameter: Parameter) -> bool {
    &&& valid_utf8(parameter.name@)
    &&& parameter.shape matches Some(shape) ==> shape@ != text("any")
}

/// What holds of every flag that is rebuilt from the parser's: its long name
/// and its short name are valid UTF-8.
pub open spec fn flag_rebuilt(flag: FlagParam) -> bool {
    &&& valid_utf8(flag.long@)
    &&& flag.short matches Some(short) ==> valid_utf8(short@)
}

/// What holds of every parameter list that is rebuilt from the parser's:
/// each of its parameters and flags is as `parameter_rebuilt` and
/// `flag_rebuilt` say.
pub open spec fn params_rebuilt(params: Params) -> bool {
    &&& forall|i: int|
        0 <= i < params.required.len() ==> parameter_rebuilt(#[trigger] params.required[i])
    &&& forall|i: int|
        0 <= i < params.optional.len() ==> parameter_rebuilt(#[trigger] params.optional[i])
    &&& forall|i: int| 0 <= i < params.flags.len() ==> flag_rebuilt(#[trigger] params.flags[i])
    &&& params.rest matches Some(rest) ==> parameter_rebuilt(rest)
}

/// Rebuilds a positional parameter. A parameter of type `any` counts as
/// untyped.
fn lower_parameter(parameter: &nu_protocol::PositionalArg) -> (lowered: Parameter)
    ensures
        parameter_rebuilt(lowered),
{
    let (name, shape, default) = positional_parts(parameter);
    Parameter {
        name: string_bytes(name.as_str()),
        shape: typed_shape(shape_text(shape)),
        default: match default {
            Some(value) => Some(value_text(value, ", ")),
            None => None,
        },
    }
}

fn lower_parameters(parameters: &Vec<nu_protocol::PositionalArg>) -> (lowered: Vec<Parameter>)
    ensures
        lowered.len() == parameters.len(),
        forall|k: int| 0 <= k < lowered.len() ==> parameter_rebuilt(#[trigger] lowered[k]),
{
    let mut lowered: Vec<Parameter> = Vec::new();
    let mut i: usize = 0;
    while i < parameters.len()
        invariant
            i <= parameters.len(),
            lowered.len() == i,
            forall|k: int| 0 <= k < lowered.len() ==> parameter_rebuilt(#[trigger] lowered[k]),
        decreases parameters.len() - i,
    {
        lowered.push(lower_parameter(&parameters[i]));
        i += 1;
    }
    lowered
}

/// Whether one of the parameters has a completer. Which of them has one is
/// for the parser's data to say; of no parameters, none has.
fn any_positional_completer(parameters: &Vec<nu_protocol::PositionalArg>) -> (found: bool)
    ensures
        parameters.len() == 0 ==> !found,
{
    let mut marks: Vec<bool> = Vec::new();
    let mut i: usize = 0;
    while i < parameters.len()
        invariant
            i <= parameters.len(),
            marks.len() == i,
        decreases parameters.len() - i,
    {
        marks.push(positional_has_completer(&parameters[i]));
        i += 1;
    }
    any_marked(&marks)
}

/// Rebuilds a flag: its names as bytes, and the texts of its type and its
/// default value.
fn lower_flag(flag: &nu_protocol::Flag) -> (lowered: FlagParam)
    ensures
        flag_rebuilt(lowered),
{
    let (long, short) = flag_names(flag);
    let (shape, default) = flag_value(flag);
    FlagParam {
        long: string_bytes(long.as_str()),
        short: match short {
            Some(short) => Some(string_bytes(short.as_str())),
            None => None,
        },
        shape: match shape {
            Some(shape) => Some(shape_text(shape)),
            None => None,
        },
        default: match default {
            Some(value) => Some(value_text(value, ", ")),
            None => None,
        },
    }
}

/// Rebuilds a signature. It counts as complete if it declares no input and
/// output types and none of its parameters and flags has a completer.
fn lower_signature(signature: &nu_protocol::Signature) -> (lowered: Params)
    ensures
        params_rebuilt(lowered),
{
    let (required, optional, rest) = signature_positionals(signature);
    let flags = signature_flags(signature);
    let mut lowered: Vec<FlagParam> = Vec::new();
    let mut marks: Vec<bool> = Vec::new();
    marks.push(any_positional_completer(required));
    marks.push(any_positional_completer(optional));
    if let Some(parameter) = rest {
        marks.push(positional_has_completer(parameter));
    }
    let mut i: usize = 0;
    while i < flags.len()
        invariant
            i <= flags.len(),
            forall|k: int| 0 <= k < lowered.len() ==> flag_rebuilt(#[trigger] lowered[k]),
        decreases flags.len() - i,
    {
        lowered.push(lower_flag(&flags[i]));
        marks.push(flag_has_completer(&flags[i]));
        i += 1;
    }
    Params {
        complete: signature_type_count(signature) == 0 && !any_marked(&marks),
        required: lower_parameters(required),
        optional: lower_parameters(optional),
        flags: lowered,
        rest: match rest {
            Some(parameter) => Some(lower_parameter(parameter)),
            None => None,
        },
    }
}

/// Parses `contents` with the core language commands known, and rebuilds
/// the result as a syntax tree of this crate.
pub fn parse_program(contents: &[u8]) -> (program: BlockNode)
    ensures
        block_within(program, NESTING_LIMIT as nat),
{
    let engine_state = default_engine_state();
    let mut working_set = new_working_set(&engine_state);
    let block = parse_source(&mut working_set, contents);
    lower_block(&working_set, &block, NESTING_LIMIT)
}

} // verus!
