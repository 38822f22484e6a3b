//! The boundary to the Nushell parser.
//!
//! Nothing here is verified. Each function is a thin reading of the parser's
//! data: it makes one call or picks the parts of one node, and decides
//! nothing. What is built from these parts is built by verified code, in
//! `lower`.

use std::sync::Arc;
use nu_protocol::ast::{
    Argument, Attribute, Block, Call, Expr, Expression, ExternalArgument, ListItem, MatchPattern,
    Operator, PathMember, Pattern, Pipeline, PipelineElement, PipelineRedirection, RecordItem,
    RedirectionTarget,
};
use nu_protocol::engine::{EngineState, StateWorkingSet};
use nu_protocol::{BlockId, DeclId, Flag, PositionalArg, Signature, SyntaxShape, Value};
use vstd::prelude::*;
use crate::ast::Span;
use crate::config_value::{ConfigData, ConfigEntry, ConfigValue};

verus! {

#[verifier::external_type_specification]
#[verifier::external_body]
pub struct ExEngineState(nu_protocol::engine::EngineState);

#[verifier::external_type_specification]
#[verifier::external_body]
pub struct ExStateWorkingSet<'a>(nu_protocol::engine::StateWorkingSet<'a>);

#[verifier::external_type_specification]
#[verifier::external_body]
pub struct ExBlock(nu_protocol::ast::Block);

#[verifier::external_type_specification]
#[verifier::external_body]
pub struct ExPipeline(nu_protocol::ast::Pipeline);

#[verifier::external_type_specification]
#[verifier::external_body]
pub struct ExPipelineElement(nu_protocol::ast::PipelineElement);

#[verifier::external_type_specification]
#[verifier::external_body]
pub struct ExRedirectionTarget(nu_protocol::ast::RedirectionTarget);

#[verifier::external_type_specification]
#[verifier::external_body]
pub struct ExExpression(nu_protocol::ast::Expression);

#[verifier::external_type_specification]
#[verifier::external_body]
pub struct ExCall(nu_protocol::ast::Call);

#[verifier::external_type_specification]
#[verifier::external_body]
pub struct ExArgument(nu_protocol::ast::Argument);

#[verifier::external_type_specification]
#[verifier::external_body]
pub struct ExExternalArgument(nu_protocol::ast::ExternalArgument);

#[verifier::external_type_specification]
#[verifier::external_body]
pub struct ExListItem(nu_protocol::ast::ListItem);

#[verifier::external_type_specification]
#[verifier::external_body]
pub struct ExRecordItem(nu_protocol::ast::RecordItem);

#[verifier::external_type_specification]
#[verifier::external_body]
pub struct ExPathMember(nu_protocol::ast::PathMember);

#[verifier::external_type_specification]
#[verifier::external_body]
pub struct ExMatchPattern(nu_protocol::ast::MatchPattern);

#[verifier::external_type_specification]
#[verifier::external_body]
pub struct ExAttribute(nu_protocol::ast::Attribute);

#[verifier::external_type_specification]
#[verifier::external_body]
pub struct ExSignature(nu_protocol::Signature);

#[verifier::external_type_specification]
#[verifier::external_body]
pub struct ExPositionalArg(nu_protocol::PositionalArg);

#[verifier::external_type_specification]
#[verifier::external_body]
pub struct ExFlag(nu_protocol::Flag);

#[verifier::external_type_specification]
#[verifier::external_body]
pub struct ExSyntaxShape(nu_protocol::SyntaxShape);

#[verifier::external_type_specification]
#[verifier::external_body]
pub struct ExValue(nu_protocol::Value);

/// Which of the four expressions that refer to a block an expression is.
#[derive(Debug, Clone, Copy, PartialEq, Eq)]
pub enum BlockKind {
    Block,
    Closure,
    Subexpression,
    RowCondition,
}

/// Which of the three arguments that carry one expression an argument is.
#[derive(Debug, Clone, Copy, PartialEq, Eq)]
pub enum ArgumentKind {
    Positional,
    Unknown,
    Spread,
}

/// The names of the declarations that a working set knows, by identifier.
pub uninterp spec fn declared_names(working_set: &StateWorkingSet) -> Seq<Seq<u8>>;

/// The number of blocks that a working set holds.
pub uninterp spec fn stored_blocks(working_set: &StateWorkingSet) -> nat;

/// `nu_cmd_lang::create_default_context`: an engine state that knows the
/// core language commands.
#[verifier::external_body]
pub(crate) fn default_engine_state() -> EngineState {
    nu_cmd_lang::create_default_context()
}

/// `StateWorkingSet::new`: an empty working set on top of an engine state.
#[verifier::external_body]
pub(crate) fn new_working_set<'a>(engine_state: &'a EngineState) -> StateWorkingSet<'a> {
    StateWorkingSet::new(engine_state)
}

/// `nu_parser::parse` of an unnamed, unscoped source. What comes back
/// depends on more than the source: a script that uses a module makes the
/// parser read that module from disk. So nothing is claimed of the block
/// that comes back, nor of what the working set holds afterwards.
#[verifier::external_body]
pub(crate) fn parse_source(working_set: &mut StateWorkingSet<'_>, contents: &[u8]) -> Arc<Block> {
    nu_parser::parse(working_set, None, contents, false)
}

/// `StateWorkingSet::num_decls`: the number of declarations known.
#[verifier::external_body]
pub(crate) fn declaration_count(working_set: &StateWorkingSet<'_>) -> (count: usize)
    ensures
        count == declared_names(working_set).len(),
{
    working_set.num_decls()
}

/// `StateWorkingSet::get_decl` and `Command::name`: the name of a
/// declaration. The identifier must be one the working set knows; the lookup
/// panics on any other.
#[verifier::external_body]
pub(crate) fn declaration_name(working_set: &StateWorkingSet<'_>, id: usize) -> (name: Vec<u8>)
    requires
        id < declared_names(working_set).len(),
    ensures
        name@ == declared_names(working_set)[id as int],
{
    working_set.get_decl(DeclId::new(id)).name().as_bytes().to_vec()
}

/// `StateWorkingSet::num_blocks`: the number of blocks held.
#[verifier::external_body]
pub(crate) fn block_count(working_set: &StateWorkingSet<'_>) -> (count: usize)
    ensures
        count == stored_blocks(working_set),
{
    working_set.num_blocks()
}

/// `StateWorkingSet::get_block`: the block with the given identifier. The
/// identifier must be below the number of blocks held; the lookup panics on
/// any other.
#[verifier::external_body]
pub(crate) fn stored_block<'a>(working_set: &'a StateWorkingSet<'_>, id: usize) -> &'a Arc<Block>
    requires
        id < stored_blocks(working_set),
{
    working_set.get_block(BlockId::new(id))
}

/// The pipelines of a block.
#[verifier::external_body]
pub(crate) fn block_pipelines(block: &Arc<Block>) -> &Vec<Pipeline> {
    &block.pipelines
}

/// The elements of a pipeline.
#[verifier::external_body]
pub(crate) fn pipeline_elements(pipeline: &Pipeline) -> &Vec<PipelineElement> {
    &pipeline.elements
}

/// The expression of a pipeline element.
#[verifier::external_body]
pub(crate) fn element_expression(element: &PipelineElement) -> &Expression {
    &element.expr
}

/// The redirection targets of a pipeline element: none, one, or one for
/// each of the two output streams.
#[verifier::external_body]
pub(crate) fn element_targets(element: &PipelineElement) -> Option<
    (&RedirectionTarget, Option<&RedirectionTarget>),
> {
    match element.redirection.as_ref()? {
        PipelineRedirection::Single { target, .. } => Some((target, None)),
        PipelineRedirection::Separate { out, err } => Some((out, Some(err))),
    }
}

/// `RedirectionTarget::span`: the range of the redirection operator.
#[verifier::external_body]
pub(crate) fn target_operator(target: &RedirectionTarget) -> Span {
    Span { start: target.span().start, end: target.span().end }
}

/// `RedirectionTarget::expr`: the file expression of a file target.
#[verifier::external_body]
pub(crate) fn target_file(target: &RedirectionTarget) -> Option<&Expression> {
    target.expr()
}

/// The range of an expression.
#[verifier::external_body]
pub(crate) fn expression_span(e: &Expression) -> Span {
    Span { start: e.span.start, end: e.span.end }
}

/// The kind of a literal expression; `None` for any other expression. The
/// kind handed out is one of the eight kinds of literal.
#[verifier::external_body]
pub(crate) fn literal_kind(e: &Expression) -> (kind: Option<crate::ast::Expr>)
    ensures
        kind matches Some(k) ==> k is Bool || k is Int || k is Float || k is Binary
            || k is DateTime || k is String || k is RawString || k is Nothing,
{
    match &e.expr {
        Expr::Bool(_) => Some(crate::ast::Expr::Bool),
        Expr::Int(_) => Some(crate::ast::Expr::Int),
        Expr::Float(_) => Some(crate::ast::Expr::Float),
        Expr::Binary(_) => Some(crate::ast::Expr::Binary),
        Expr::DateTime(_) => Some(crate::ast::Expr::DateTime),
        Expr::String(_) => Some(crate::ast::Expr::String),
        Expr::RawString(_) => Some(crate::ast::Expr::RawString),
        Expr::Nothing => Some(crate::ast::Expr::Nothing),
        _ => None,
    }
}

/// The kind of an expression that is a single word of another sort; `None`
/// for any other expression. The kind handed out is one of the ten kinds
/// told apart here.
#[verifier::external_body]
pub(crate) fn word_kind(e: &Expression) -> (kind: Option<crate::ast::Expr>)
    ensures
        kind matches Some(k) ==> k is Var || k is VarDecl || k is Filepath || k is Directory
            || k is GlobPattern || k is Overlay || k is ImportPattern
            || k is StringInterpolation || k is GlobInterpolation || k is Garbage,
{
    match &e.expr {
        Expr::Var(_) => Some(crate::ast::Expr::Var),
        Expr::VarDecl(_) => Some(crate::ast::Expr::VarDecl),
        Expr::Filepath(_, _) => Some(crate::ast::Expr::Filepath),
        Expr::Directory(_, _) => Some(crate::ast::Expr::Directory),
        Expr::GlobPattern(_, _) => Some(crate::ast::Expr::GlobPattern),
        Expr::Overlay(_) => Some(crate::ast::Expr::Overlay),
        Expr::ImportPattern(_) => Some(crate::ast::Expr::ImportPattern),
        Expr::StringInterpolation(_) => Some(crate::ast::Expr::StringInterpolation),
        Expr::GlobInterpolation(_, _) => Some(crate::ast::Expr::GlobInterpolation),
        Expr::Garbage => Some(crate::ast::Expr::Garbage),
        _ => None,
    }
}

/// For an operator, whether it is an assignment; `None` for any other
/// expression.
#[verifier::external_body]
pub(crate) fn operator_assigns(e: &Expression) -> Option<bool> {
    match &e.expr {
        Expr::Operator(Operator::Assignment(_)) => Some(true),
        Expr::Operator(_) => Some(false),
        _ => None,
    }
}

/// The call of a call expression.
#[verifier::external_body]
pub(crate) fn as_call(e: &Expression) -> Option<&Call> {
    match &e.expr {
        Expr::Call(call) => Some(call),
        _ => None,
    }
}

/// The identifier of the declaration that a call resolves to.
#[verifier::external_body]
pub(crate) fn call_declaration(call: &Call) -> usize {
    call.decl_id.get()
}

/// The range of the command word of a call.
#[verifier::external_body]
pub(crate) fn call_head(call: &Call) -> Span {
    Span { start: call.head.start, end: call.head.end }
}

/// The arguments of a call.
#[verifier::external_body]
pub(crate) fn call_arguments(call: &Call) -> &Vec<Argument> {
    &call.arguments
}

/// The expression of a positional, unknown or spread argument, and which
/// of the three it is; `None` for a flag.
#[verifier::external_body]
pub(crate) fn argument_expression(argument: &Argument) -> Option<(ArgumentKind, &Expression)> {
    match argument {
        Argument::Positional(e) => Some((ArgumentKind::Positional, e)),
        Argument::Unknown(e) => Some((ArgumentKind::Unknown, e)),
        Argument::Spread(e) => Some((ArgumentKind::Spread, e)),
        Argument::Named(_) => None,
    }
}

/// The parts of a flag argument: the range of its token, the range of its
/// short form, and its value; `None` for any other argument.
#[verifier::external_body]
pub(crate) fn argument_flag(argument: &Argument) -> Option<
    (Span, Option<Span>, Option<&Expression>),
> {
    match argument {
        Argument::Named((long, short, value)) => Some(
            (
                Span { start: long.span.start, end: long.span.end },
                short.as_ref().map(|s| Span { start: s.span.start, end: s.span.end }),
                value.as_ref(),
            ),
        ),
        _ => None,
    }
}

/// The head and the arguments of an external call.
#[verifier::external_body]
pub(crate) fn as_external_call(e: &Expression) -> Option<(&Expression, &[ExternalArgument])> {
    match &e.expr {
        Expr::ExternalCall(head, arguments) => Some((head, arguments)),
        _ => None,
    }
}

/// Whether an external argument is a spread, and its expression.
#[verifier::external_body]
pub(crate) fn external_argument(argument: &ExternalArgument) -> (bool, &Expression) {
    match argument {
        ExternalArgument::Regular(e) => (false, e),
        ExternalArgument::Spread(e) => (true, e),
    }
}

/// The operands and the operator of a binary operation.
#[verifier::external_body]
pub(crate) fn as_binary_op(e: &Expression) -> Option<(&Expression, &Expression, &Expression)> {
    match &e.expr {
        Expr::BinaryOp(lhs, op, rhs) => Some((lhs, op, rhs)),
        _ => None,
    }
}

/// The operand of a negation, or the expression that a collect wraps, with
/// `true` for the negation.
#[verifier::external_body]
pub(crate) fn as_wrapper(e: &Expression) -> Option<(bool, &Expression)> {
    match &e.expr {
        Expr::UnaryNot(inner) => Some((true, inner)),
        Expr::Collect(_, inner) => Some((false, inner)),
        _ => None,
    }
}

/// The identifier of the block of a block, closure, subexpression or row
/// condition, and which of the four the expression is.
#[verifier::external_body]
pub(crate) fn as_block_reference(e: &Expression) -> Option<(BlockKind, usize)> {
    match &e.expr {
        Expr::Block(id) => Some((BlockKind::Block, id.get())),
        Expr::Closure(id) => Some((BlockKind::Closure, id.get())),
        Expr::Subexpression(id) => Some((BlockKind::Subexpression, id.get())),
        Expr::RowCondition(id) => Some((BlockKind::RowCondition, id.get())),
        _ => None,
    }
}

/// The items of a list.
#[verifier::external_body]
pub(crate) fn as_list(e: &Expression) -> Option<&Vec<ListItem>> {
    match &e.expr {
        Expr::List(items) => Some(items),
        _ => None,
    }
}

/// Whether a list item is a spread, and its expression.
#[verifier::external_body]
pub(crate) fn list_item(item: &ListItem) -> (bool, &Expression) {
    match item {
        ListItem::Item(e) => (false, e),
        ListItem::Spread(_, e) => (true, e),
    }
}

/// The items of a record.
#[verifier::external_body]
pub(crate) fn as_record(e: &Expression) -> Option<&Vec<RecordItem>> {
    match &e.expr {
        Expr::Record(items) => Some(items),
        _ => None,
    }
}

/// The key, if the item is a pair, and the value or spread expression of a
/// record item.
#[verifier::external_body]
pub(crate) fn record_item(item: &RecordItem) -> (Option<&Expression>, &Expression) {
    match item {
        RecordItem::Pair(key, value) => (Some(key), value),
        RecordItem::Spread(_, e) => (None, e),
    }
}

/// The columns and the rows of a table.
#[verifier::external_body]
pub(crate) fn as_table(e: &Expression) -> Option<(&[Expression], &[Box<[Expression]>])> {
    match &e.expr {
        Expr::Table(table) => Some((&table.columns, &table.rows)),
        _ => None,
    }
}

/// The bounds of a range: start, step and end.
#[verifier::external_body]
pub(crate) fn as_range(e: &Expression) -> Option<
    (Option<&Expression>, Option<&Expression>, Option<&Expression>),
> {
    match &e.expr {
        Expr::Range(range) => Some((range.from.as_ref(), range.next.as_ref(), range.to.as_ref())),
        _ => None,
    }
}

/// The range of the operator of a range expression; `None` for any other
/// expression.
#[verifier::external_body]
pub(crate) fn range_operator(e: &Expression) -> Option<Span> {
    match &e.expr {
        Expr::Range(range) => Some(
            Span { start: range.operator.span.start, end: range.operator.span.end },
        ),
        _ => None,
    }
}

/// The members of a cell path.
#[verifier::external_body]
pub(crate) fn as_cell_path(e: &Expression) -> Option<&Vec<PathMember>> {
    match &e.expr {
        Expr::CellPath(path) => Some(&path.members),
        _ => None,
    }
}

/// The head and the tail of a cell path over an expression.
#[verifier::external_body]
pub(crate) fn as_full_cell_path(e: &Expression) -> Option<(&Expression, &Vec<PathMember>)> {
    match &e.expr {
        Expr::FullCellPath(path) => Some((&path.head, &path.tail)),
        _ => None,
    }
}

/// A path member, as this crate holds it.
#[verifier::external_body]
pub(crate) fn path_member(member: &PathMember) -> crate::ast::PathStep {
    match member {
        PathMember::String { val, optional, .. } => crate::ast::PathStep::Name {
            name: val.as_bytes().to_vec(),
            optional: *optional,
        },
        PathMember::Int { val, optional, .. } => crate::ast::PathStep::Index {
            index: *val,
            optional: *optional,
        },
    }
}

/// The range of the keyword and the expression behind it.
#[verifier::external_body]
pub(crate) fn as_keyword(e: &Expression) -> Option<(Span, &Expression)> {
    match &e.expr {
        Expr::Keyword(k) => Some((Span { start: k.span.start, end: k.span.end }, &k.expr)),
        _ => None,
    }
}

/// The number of a value with unit, and the range of the unit.
#[verifier::external_body]
pub(crate) fn as_value_with_unit(e: &Expression) -> Option<(&Expression, Span)> {
    match &e.expr {
        Expr::ValueWithUnit(v) => Some(
            (&v.expr, Span { start: v.unit.span.start, end: v.unit.span.end }),
        ),
        _ => None,
    }
}

/// The arms of a match block.
#[verifier::external_body]
pub(crate) fn as_match_block(e: &Expression) -> Option<&Vec<(MatchPattern, Expression)>> {
    match &e.expr {
        Expr::MatchBlock(arms) => Some(arms),
        _ => None,
    }
}

/// The attributes and the item of an attribute block.
#[verifier::external_body]
pub(crate) fn as_attribute_block(e: &Expression) -> Option<(&Vec<Attribute>, &Expression)> {
    match &e.expr {
        Expr::AttributeBlock(block) => Some((&block.attributes, &block.item)),
        _ => None,
    }
}

/// The range of an attribute.
#[verifier::external_body]
pub(crate) fn attribute_span(attribute: &Attribute) -> Span {
    Span { start: attribute.expr.span.start, end: attribute.expr.span.end }
}

/// The signature of a signature expression.
#[verifier::external_body]
pub(crate) fn as_signature(e: &Expression) -> Option<&Signature> {
    match &e.expr {
        Expr::Signature(signature) => Some(signature),
        _ => None,
    }
}

/// The range of a match pattern.
#[verifier::external_body]
pub(crate) fn pattern_span(pattern: &MatchPattern) -> Span {
    Span { start: pattern.span.start, end: pattern.span.end }
}

/// The guard of a match pattern.
#[verifier::external_body]
pub(crate) fn pattern_guard(pattern: &MatchPattern) -> Option<&Expression> {
    pattern.guard.as_deref()
}

/// The kind of a pattern that has no parts; `None` for any other pattern.
/// The kind handed out is one of the six kinds told apart here.
#[verifier::external_body]
pub(crate) fn plain_pattern(pattern: &MatchPattern) -> (kind: Option<crate::ast::Pattern>)
    ensures
        kind matches Some(k) ==> k is Value || k is Variable || k is Rest || k is IgnoreRest
            || k is IgnoreValue || k is Garbage,
{
    match &pattern.pattern {
        Pattern::Value(_) => Some(crate::ast::Pattern::Value),
        Pattern::Variable(_) => Some(crate::ast::Pattern::Variable),
        Pattern::Rest(_) => Some(crate::ast::Pattern::Rest),
        Pattern::IgnoreRest => Some(crate::ast::Pattern::IgnoreRest),
        Pattern::IgnoreValue => Some(crate::ast::Pattern::IgnoreValue),
        Pattern::Garbage => Some(crate::ast::Pattern::Garbage),
        _ => None,
    }
}

/// The expression of an expression pattern.
#[verifier::external_body]
pub(crate) fn pattern_expression(pattern: &MatchPattern) -> Option<&Expression> {
    match &pattern.pattern {
        Pattern::Expression(e) => Some(e),
        _ => None,
    }
}

/// The parts of an or-pattern or of a list pattern, with `true` for the
/// or-pattern.
#[verifier::external_body]
pub(crate) fn pattern_parts(pattern: &MatchPattern) -> Option<(bool, &Vec<MatchPattern>)> {
    match &pattern.pattern {
        Pattern::Or(parts) => Some((true, parts)),
        Pattern::List(parts) => Some((false, parts)),
        _ => None,
    }
}

/// The entries of a record pattern.
#[verifier::external_body]
pub(crate) fn pattern_entries(pattern: &MatchPattern) -> Option<&Vec<(String, MatchPattern)>> {
    match &pattern.pattern {
        Pattern::Record(entries) => Some(entries),
        _ => None,
    }
}

/// The positional parameters of a signature: required, optional, rest.
#[verifier::external_body]
pub(crate) fn signature_positionals(signature: &Signature) -> (
    &Vec<PositionalArg>,
    &Vec<PositionalArg>,
    Option<&PositionalArg>,
) {
    (
        &signature.required_positional,
        &signature.optional_positional,
        signature.rest_positional.as_ref(),
    )
}

/// The number of pairs of input and output type that a signature declares.
#[verifier::external_body]
pub(crate) fn signature_type_count(signature: &Signature) -> usize {
    signature.input_output_types.len()
}

/// Whether a positional parameter has a completer.
#[verifier::external_body]
pub(crate) fn positional_has_completer(parameter: &PositionalArg) -> bool {
    parameter.completion.is_some()
}

/// Whether a flag has a completer.
#[verifier::external_body]
pub(crate) fn flag_has_completer(flag: &Flag) -> bool {
    flag.completion.is_some()
}

/// The flags of a signature.
#[verifier::external_body]
pub(crate) fn signature_flags(signature: &Signature) -> &Vec<Flag> {
    &signature.named
}

/// The name, the shape and the default value of a positional parameter.
#[verifier::external_body]
pub(crate) fn positional_parts(parameter: &PositionalArg) -> (
    &String,
    &SyntaxShape,
    Option<&Value>,
) {
    (&parameter.name, &parameter.shape, parameter.default_value.as_ref())
}

/// The long name and the short name of a flag.
#[verifier::external_body]
pub(crate) fn flag_names(flag: &Flag) -> (&String, Option<String>) {
    (&flag.long, flag.short.map(|c| c.to_string()))
}

/// The shape of the value a flag takes, and its default value.
#[verifier::external_body]
pub(crate) fn flag_value(flag: &Flag) -> (Option<&SyntaxShape>, Option<&Value>) {
    (flag.arg.as_ref(), flag.default_value.as_ref())
}

/// `SyntaxShape`'s `Display`: the shape as it is written in a signature.
#[verifier::external_body]
pub(crate) fn shape_text(shape: &SyntaxShape) -> Vec<u8> {
    shape.to_string().into_bytes()
}

/// `Value::to_parsable_string` under the default configuration: the value
/// as it may be written in source text, the items of a list or a record
/// joined by `separator`. The text of a date depends on the current time, so
/// nothing is claimed of the result.
#[verifier::external_body]
pub(crate) fn value_text(value: &Value, separator: &str) -> Vec<u8> {
    value.to_parsable_string(separator, &nu_protocol::Config::default()).into_bytes()
}

/// The configuration value that a NUON text denotes; none for a text that
/// is no NUON.
pub uninterp spec fn nuon_value(content: Seq<char>) -> Option<ConfigValue>;

/// `nuon::from_nuon` without a span: the value that a NUON text denotes, as
/// a configuration value. What comes back depends on the text alone.
#[verifier::external_body]
pub(crate) fn parse_config_value(content: &str) -> (value: Option<ConfigValue>)
    ensures
        value == nuon_value(content@),
{
    nuon::from_nuon(content, None).ok().map(|value| config_value(&value))
}

/// A value as a configuration value: its kind with what it holds, and
/// `Value::get_type` with `Type`'s `Display` for the name of its type.
#[verifier::external_body]
fn config_value(value: &Value) -> ConfigValue {
    let entry = |(k, v): (&String, &Value)| ConfigEntry { key: k.clone(), value: config_value(v) };
    let data = match value {
        Value::Nothing { .. } => ConfigData::Nothing,
        Value::Int { val, .. } => ConfigData::Int(*val),
        Value::String { val, .. } => ConfigData::String(val.clone()),
        Value::List { vals, .. } => ConfigData::List(vals.iter().map(config_value).collect()),
        Value::Record { val, .. } => ConfigData::Record(val.iter().map(entry).collect()),
        _ => ConfigData::Other,
    };
    ConfigValue { data, kind_name: value.get_type().to_string() }
}

} // verus!
