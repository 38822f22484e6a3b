//! The renderer: walks the syntax tree and writes the formatted text.
//!
//! Every method performs on the formatter exactly the step that the rule of
//! the same construct describes.

use vstd::prelude::*;
use vstd::slice::slice_subrange;
use crate::ast::{
    Arg, ArmPattern, BlockNode, CallNode, Element, Expr, ExprNode, ExternalArg, ListEntry, MatchArm,
    PathStep, Pattern, PatternEntry, PipelineNode, Range, RecordEntry, Redirection, Span, Table,
    Target,
};
use crate::model::{text, Context, Formatter};
use crate::render::{
    element_end, has_parameters, is_lone_interpolation, item_on_its_line, list_is_inline,
    one_item_per_line, record_is_inline, render_alternatives,
    render_argument, render_arguments, render_arms, render_attributes, render_block,
    render_block_expression, render_block_lines, render_body, render_call, render_cells,
    render_closure, render_element, render_elements, render_expression, render_external_arguments,
    render_list, render_list_inline, render_list_item, render_list_lines, render_match_block,
    render_path, render_pattern, render_pattern_entries, render_pattern_items, render_pattern_shape,
    render_pipeline, render_pipelines, render_positional, render_range, render_record,
    render_record_inline, render_record_item, render_record_lines, render_row, render_rows,
    render_subexpression, render_table, render_target, target_span, write_flag,
};
use crate::shape::{
    all_list_items_simple, all_record_items_simple, classify_command, is_nested_complex_record,
    is_simple_block, CommandType,
};
use crate::text::{
    append_decimal, find_byte, trim_ascii_whitespace, AT_SIGN, CARET, OPEN_BRACE, PIPE, SPACE,
};

verus! {

/// Where the text of a pipeline element ends in the source.
pub fn end_of_element(element: &Element) -> (end: usize)
    ensures
        end == element_end(*element),
{
    match &element.redirection {
        Some(Redirection::Single(target)) => end_of_target(target),
        Some(Redirection::Separate { out, err }) => {
            let a = end_of_target(out);
            let b = end_of_target(err);
            if a >= b {
                a
            } else {
                b
            }
        },
        None => element.expr.span.end,
    }
}

fn end_of_target(target: &Target) -> (end: usize)
    ensures
        end == target_span(*target).end,
{
    match target {
        Target::File { span, .. } => span.end,
        Target::Pipe { span } => span.end,
    }
}

impl Formatter {
    /// Formats a block.
    pub fn format_block(&mut self, ctx: &Context, block: &BlockNode)
        requires
            old(self)@.consistent(ctx@.comments.len()),
        ensures
            final(self)@ == render_block(ctx@, old(self)@, *block),
            final(self)@.follows(old(self)@, ctx@.comments.len()),
        decreases block, 0int,
    {
        self.format_pipelines(ctx, &block.pipelines);
    }

    fn format_pipelines(&mut self, ctx: &Context, pipelines: &Vec<PipelineNode>)
        requires
            old(self)@.consistent(ctx@.comments.len()),
        ensures
            final(self)@ == render_pipelines(ctx@, old(self)@, *pipelines, pipelines.len() as int),
            final(self)@.follows(old(self)@, ctx@.comments.len()),
        decreases pipelines, pipelines.len(),
    {
        let n = pipelines.len();
        let mut i: usize = 0;
        while i < n
            invariant
                i <= n,
                n == pipelines.len(),
                self@ == render_pipelines(ctx@, old(self)@, *pipelines, i as int),
                self@.follows(old(self)@, ctx@.comments.len()),
            decreases n - i,
        {
            let pipeline = &pipelines[i];
            let m = pipeline.elements.len();
            if m > 0 {
                self.write_comments_before(ctx, pipeline.elements[0].expr.span.start);
                self.format_pipeline(ctx, pipeline);
                let end = end_of_element(&pipeline.elements[m - 1]);
                self.write_inline_comment(ctx, end);
            } else {
                self.format_pipeline(ctx, pipeline);
            }
            if i + 1 < n {
                self.newline();
            }
            i += 1;
        }
    }

    /// Formats a pipeline.
    pub fn format_pipeline(&mut self, ctx: &Context, pipeline: &PipelineNode)
        requires
            old(self)@.consistent(ctx@.comments.len()),
        ensures
            final(self)@ == render_pipeline(ctx@, old(self)@, *pipeline),
            final(self)@.follows(old(self)@, ctx@.comments.len()),
        decreases pipeline, 0int,
    {
        self.format_elements(ctx, &pipeline.elements);
    }

    fn format_elements(&mut self, ctx: &Context, elements: &Vec<Element>)
        requires
            old(self)@.consistent(ctx@.comments.len()),
        ensures
            final(self)@ == render_elements(ctx@, old(self)@, *elements, elements.len() as int),
            final(self)@.follows(old(self)@, ctx@.comments.len()),
        decreases elements, elements.len(),
    {
        let mut i: usize = 0;
        while i < elements.len()
            invariant
                i <= elements.len(),
                self@ == render_elements(ctx@, old(self)@, *elements, i as int),
                self@.follows(old(self)@, ctx@.comments.len()),
            decreases elements.len() - i,
        {
            if i > 0 {
                self.write(ctx, " | ");
            }
            self.format_pipeline_element(ctx, &elements[i]);
            i += 1;
        }
    }

    /// Formats a pipeline element.
    pub fn format_pipeline_element(&mut self, ctx: &Context, element: &Element)
        requires
            old(self)@.consistent(ctx@.comments.len()),
        ensures
            final(self)@ == render_element(ctx@, old(self)@, *element),
            final(self)@.follows(old(self)@, ctx@.comments.len()),
        decreases element, 0int,
    {
        self.format_expression(ctx, &element.expr);
        match &element.redirection {
            None => {},
            Some(Redirection::Single(target)) => {
                self.space();
                self.format_redirection_target(ctx, target);
            },
            Some(Redirection::Separate { out, err }) => {
                self.space();
                self.format_redirection_target(ctx, out);
                self.space();
                self.format_redirection_target(ctx, err);
            },
        }
    }

    /// Formats a redirection target.
    pub fn format_redirection_target(&mut self, ctx: &Context, target: &Target)
        requires
            old(self)@.consistent(ctx@.comments.len()),
        ensures
            final(self)@ == render_target(ctx@, old(self)@, *target),
            final(self)@.follows(old(self)@, ctx@.comments.len()),
        decreases target, 0int,
    {
        match target {
            Target::File { span, expr } => {
                self.write_span(ctx, *span);
                self.space();
                self.format_expression(ctx, expr);
            },
            Target::Pipe { span } => {
                self.write_span(ctx, *span);
            },
        }
    }

    /// Formats an expression.
    pub fn format_expression(&mut self, ctx: &Context, expr: &ExprNode)
        requires
            old(self)@.consistent(ctx@.comments.len()),
        ensures
            final(self)@ == render_expression(ctx@, old(self)@, *expr),
            final(self)@.follows(old(self)@, ctx@.comments.len()),
        decreases expr, 0int,
    {
        match &expr.expr {
            Expr::Call(call) => {
                self.format_call(ctx, call);
            },
            Expr::ExternalCall(head, arguments) => {
                let start = head.span.start;
                if 0 < start && start <= ctx.source.len() && ctx.source[start - 1] == CARET {
                    self.write(ctx, "^");
                }
                self.format_expression(ctx, head);
                self.format_external_arguments(ctx, arguments);
            },
            Expr::BinaryOp(lhs, op, rhs) => {
                self.format_expression(ctx, lhs);
                self.space();
                self.format_expression(ctx, op);
                self.space();
                let assignment = match &op.expr {
                    Expr::Operator { assignment } => *assignment,
                    _ => false,
                };
                match &rhs.expr {
                    Expr::Subexpression(block) => {
                        if assignment {
                            self.format_block(ctx, block);
                        } else {
                            self.format_expression(ctx, rhs);
                        }
                    },
                    _ => {
                        self.format_expression(ctx, rhs);
                    },
                }
            },
            Expr::UnaryNot(inner) => {
                self.write(ctx, "not ");
                self.format_expression(ctx, inner);
            },
            Expr::Block(block) => {
                self.format_block_expression(ctx, block, false);
            },
            Expr::Closure(block) => {
                self.format_closure_expression(ctx, block, expr.span);
            },
            Expr::Subexpression(block) => {
                self.format_subexpression(ctx, block);
            },
            Expr::RowCondition(block) => {
                self.format_block(ctx, block);
            },
            Expr::List(items) => {
                self.format_list(ctx, items);
            },
            Expr::Record(items) => {
                self.format_record(ctx, items);
            },
            Expr::Table(table) => {
                self.format_table(ctx, table);
            },
            Expr::Range(range) => {
                self.format_range(ctx, range);
            },
            Expr::CellPath(members) => {
                self.format_path(ctx, members);
            },
            Expr::FullCellPath(head, tail) => {
                self.format_expression(ctx, head);
                self.format_path(ctx, tail);
            },
            Expr::Keyword(keyword) => {
                self.write_span(ctx, keyword.span);
                self.space();
                self.format_body(ctx, &keyword.expr);
            },
            Expr::ValueWithUnit(value) => {
                self.format_expression(ctx, &value.expr);
                self.write_span(ctx, value.unit);
            },
            Expr::MatchBlock(arms) => {
                self.format_match_block(ctx, arms);
            },
            Expr::Collect(inner) => {
                self.format_expression(ctx, inner);
            },
            Expr::AttributeBlock(attributed) => {
                self.format_attributes(ctx, &attributed.attributes);
                self.format_expression(ctx, &attributed.item);
            },
            _ => {
                self.write_span(ctx, expr.span);
            },
        }
    }

    /// Formats an expression that stands where a body is expected.
    pub fn format_body(&mut self, ctx: &Context, expr: &ExprNode)
        requires
            old(self)@.consistent(ctx@.comments.len()),
        ensures
            final(self)@ == render_body(ctx@, old(self)@, *expr),
            final(self)@.follows(old(self)@, ctx@.comments.len()),
        decreases expr, 1int,
    {
        match &expr.expr {
            Expr::Block(block) | Expr::Closure(block) => {
                self.format_block_expression(ctx, block, true);
            },
            _ => {
                self.format_expression(ctx, expr);
            },
        }
    }

    fn format_external_arguments(&mut self, ctx: &Context, arguments: &Vec<ExternalArg>)
        requires
            old(self)@.consistent(ctx@.comments.len()),
        ensures
            final(self)@ == render_external_arguments(
                ctx@,
                old(self)@,
                *arguments,
                arguments.len() as int,
            ),
            final(self)@.follows(old(self)@, ctx@.comments.len()),
        decreases arguments, arguments.len(),
    {
        let mut i: usize = 0;
        while i < arguments.len()
            invariant
                i <= arguments.len(),
                self@ == render_external_arguments(ctx@, old(self)@, *arguments, i as int),
                self@.follows(old(self)@, ctx@.comments.len()),
            decreases arguments.len() - i,
        {
            self.space();
            if arguments[i].spread {
                self.write(ctx, "...");
            }
            self.format_expression(ctx, &arguments[i].expr);
            i += 1;
        }
    }

    /// Formats a call to a known command.
    pub fn format_call(&mut self, ctx: &Context, call: &CallNode)
        requires
            old(self)@.consistent(ctx@.comments.len()),
        ensures
            final(self)@ == render_call(ctx@, old(self)@, *call),
            final(self)@.follows(old(self)@, ctx@.comments.len()),
        decreases call, 0int,
    {
        if call.head.start < call.head.end {
            self.write_span(ctx, call.head);
        }
        let kind = classify_command(call.name.as_slice());
        self.format_arguments(ctx, kind, &call.arguments);
    }

    fn format_arguments(&mut self, ctx: &Context, kind: CommandType, arguments: &Vec<Arg>)
        requires
            old(self)@.consistent(ctx@.comments.len()),
        ensures
            final(self)@ == render_arguments(
                ctx@,
                old(self)@,
                kind,
                *arguments,
                arguments.len() as int,
            ),
            final(self)@.follows(old(self)@, ctx@.comments.len()),
        decreases arguments, arguments.len(),
    {
        let mut i: usize = 0;
        while i < arguments.len()
            invariant
                i <= arguments.len(),
                self@ == render_arguments(ctx@, old(self)@, kind, *arguments, i as int),
                self@.follows(old(self)@, ctx@.comments.len()),
            decreases arguments.len() - i,
        {
            self.format_argument(ctx, kind, &arguments[i]);
            i += 1;
        }
    }

    fn format_argument(&mut self, ctx: &Context, kind: CommandType, argument: &Arg)
        requires
            old(self)@.consistent(ctx@.comments.len()),
        ensures
            final(self)@ == render_argument(ctx@, old(self)@, kind, *argument),
            final(self)@.follows(old(self)@, ctx@.comments.len()),
        decreases argument, 0int,
    {
        match argument {
            Arg::Positional(e) | Arg::Unknown(e) => {
                self.space();
                self.format_positional(ctx, kind, e);
            },
            Arg::Spread(e) => {
                self.space();
                self.write(ctx, "...");
                self.format_expression(ctx, e);
            },
            Arg::Named { long, short, value } => {
                self.space();
                self.format_flag(ctx, *long, *short);
                if let Some(e) = value {
                    self.space();
                    self.format_expression(ctx, e);
                }
            },
        }
    }

    fn format_flag(&mut self, ctx: &Context, long: Span, short: Option<Span>)
        ensures
            final(self)@ == write_flag(ctx@, old(self)@, long, short),
            final(self)@.written == old(self)@.written,
            final(self)@.emitted == old(self)@.emitted,
    {
        if long.start < long.end {
            self.write_span(ctx, long);
        }
        if let Some(span) = short {
            if span.start != long.start || span.end != long.end {
                self.write_span(ctx, span);
            }
        }
    }

    fn format_positional(&mut self, ctx: &Context, kind: CommandType, expr: &ExprNode)
        requires
            old(self)@.consistent(ctx@.comments.len()),
        ensures
            final(self)@ == render_positional(ctx@, old(self)@, kind, *expr),
            final(self)@.follows(old(self)@, ctx@.comments.len()),
        decreases expr, 2int,
    {
        match kind {
            CommandType::Definition => match &expr.expr {
                Expr::Signature(signature) => {
                    if signature.complete {
                        self.format_signature(ctx, signature);
                    } else {
                        self.write_span(ctx, expr.span);
                    }
                },
                _ => {
                    self.format_body(ctx, expr);
                },
            },
            CommandType::Conditional | CommandType::BlockKeyword => {
                self.format_body(ctx, expr);
            },
            CommandType::LetLike => match &expr.expr {
                Expr::VarDecl => {
                    self.format_expression(ctx, expr);
                },
                Expr::Block(block) | Expr::Subexpression(block) => {
                    self.write(ctx, "= ");
                    self.format_block(ctx, block);
                },
                _ => {
                    self.write(ctx, "= ");
                    self.format_expression(ctx, expr);
                },
            },
            CommandType::Extern | CommandType::Regular => {
                self.format_expression(ctx, expr);
            },
        }
    }

    fn format_block_lines(&mut self, ctx: &Context, block: &BlockNode)
        requires
            old(self)@.consistent(ctx@.comments.len()),
        ensures
            final(self)@ == render_block_lines(ctx@, old(self)@, *block),
            final(self)@.follows(old(self)@, ctx@.comments.len()),
        decreases block, 1int,
    {
        self.newline();
        let saved = self.indent();
        self.format_block(ctx, block);
        self.newline();
        self.dedent(saved);
        self.write_indent(ctx);
    }

    /// Formats a block, between braces if `with_braces` is set.
    pub fn format_block_expression(&mut self, ctx: &Context, block: &BlockNode, with_braces: bool)
        requires
            old(self)@.consistent(ctx@.comments.len()),
        ensures
            final(self)@ == render_block_expression(ctx@, old(self)@, *block, with_braces),
            final(self)@.follows(old(self)@, ctx@.comments.len()),
        decreases block, 2int,
    {
        if with_braces {
            self.write(ctx, "{");
            if is_simple_block(block) {
                self.write(ctx, " ");
                self.format_block(ctx, block);
                self.write(ctx, " ");
            } else if block.pipelines.len() == 0 {
                self.write(ctx, " ");
            } else {
                self.format_block_lines(ctx, block);
            }
            self.write(ctx, "}");
        } else if block.pipelines.len() > 0 {
            self.format_block_lines(ctx, block);
        }
    }

    /// Formats a closure.
    pub fn format_closure_expression(&mut self, ctx: &Context, block: &BlockNode, span: Span)
        requires
            old(self)@.consistent(ctx@.comments.len()),
        ensures
            final(self)@ == render_closure(ctx@, old(self)@, *block, span),
            final(self)@.follows(old(self)@, ctx@.comments.len()),
        decreases block, 3int,
    {
        let content = if span.start <= span.end && span.end <= ctx.source.len() {
            slice_subrange(ctx.source, span.start, span.end)
        } else {
            slice_subrange(ctx.source, 0, 0)
        };
        assert(content@ == span.slice(ctx@.source));
        let n = content.len();
        let with_parameters = (n >= 2 && content[0] == OPEN_BRACE && content[1] == PIPE) || (n
            >= 3 && content[0] == OPEN_BRACE && content[1] == SPACE && content[2] == PIPE);
        assert(with_parameters == has_parameters(content@));
        if with_parameters {
            let first = find_byte(content, 0, PIPE);
            let second = if first < n {
                find_byte(content, first + 1, PIPE)
            } else {
                n
            };
            if first < n && second < n {
                self.write(ctx, "{|");
                self.write_bytes(
                    ctx,
                    trim_ascii_whitespace(slice_subrange(content, first + 1, second)),
                );
                self.write(ctx, "| ");
                if is_simple_block(block) {
                    self.format_block(ctx, block);
                    self.write(ctx, " }");
                } else if block.pipelines.len() == 0 {
                    self.write(ctx, "}");
                } else {
                    self.format_block_lines(ctx, block);
                    self.write(ctx, "}");
                }
            } else {
                self.write_span(ctx, span);
            }
        } else {
            self.format_block_expression(ctx, block, true);
        }
    }

    /// Formats a subexpression.
    pub fn format_subexpression(&mut self, ctx: &Context, block: &BlockNode)
        requires
            old(self)@.consistent(ctx@.comments.len()),
        ensures
            final(self)@ == render_subexpression(ctx@, old(self)@, *block),
            final(self)@.follows(old(self)@, ctx@.comments.len()),
        decreases block, 2int,
    {
        let lone = block.pipelines.len() == 1 && block.pipelines[0].elements.len() == 1
            && match &block.pipelines[0].elements[0].expr.expr {
            Expr::StringInterpolation => true,
            _ => false,
        };
        assert(lone == is_lone_interpolation(*block));
        if lone {
            self.format_block(ctx, block);
        } else {
            self.write(ctx, "(");
            if is_simple_block(block) {
                self.format_block(ctx, block);
            } else if block.pipelines.len() > 0 {
                self.format_block_lines(ctx, block);
            }
            self.write(ctx, ")");
        }
    }

    fn format_list_item(&mut self, ctx: &Context, item: &ListEntry)
        requires
            old(self)@.consistent(ctx@.comments.len()),
        ensures
            final(self)@ == render_list_item(ctx@, old(self)@, *item),
            final(self)@.follows(old(self)@, ctx@.comments.len()),
        decreases item, 0int,
    {
        if item.spread {
            self.write(ctx, "...");
        }
        self.format_expression(ctx, &item.expr);
    }

    fn format_list_inline(&mut self, ctx: &Context, items: &Vec<ListEntry>)
        requires
            old(self)@.consistent(ctx@.comments.len()),
        ensures
            final(self)@ == render_list_inline(ctx@, old(self)@, *items, items.len() as int),
            final(self)@.follows(old(self)@, ctx@.comments.len()),
        decreases items, items.len(),
    {
        let mut i: usize = 0;
        while i < items.len()
            invariant
                i <= items.len(),
                self@ == render_list_inline(ctx@, old(self)@, *items, i as int),
                self@.follows(old(self)@, ctx@.comments.len()),
            decreases items.len() - i,
        {
            if i > 0 {
                self.write(ctx, ", ");
            }
            self.format_list_item(ctx, &items[i]);
            i += 1;
        }
    }

    fn format_list_lines(&mut self, ctx: &Context, items: &Vec<ListEntry>)
        requires
            old(self)@.consistent(ctx@.comments.len()),
        ensures
            final(self)@ == render_list_lines(ctx@, old(self)@, *items, items.len() as int),
            final(self)@.follows(old(self)@, ctx@.comments.len()),
            old(self)@.at_line_start ==> one_item_per_line(ctx@, old(self)@, *items),
        decreases items, items.len(),
    {
        let mut i: usize = 0;
        while i < items.len()
            invariant
                i <= items.len(),
                self@ == render_list_lines(ctx@, old(self)@, *items, i as int),
                self@.follows(old(self)@, ctx@.comments.len()),
                old(self)@.at_line_start ==> self@.at_line_start,
                old(self)@.at_line_start ==> forall|k: int|
                    0 <= k < i ==> item_on_its_line(ctx@, old(self)@, *items, k),
            decreases items.len() - i,
        {
            let ghost before = self@;
            self.write_indent(ctx);
            self.format_list_item(ctx, &items[i]);
            self.newline();
            i += 1;
            assert(old(self)@.at_line_start ==> item_on_its_line(
                ctx@,
                old(self)@,
                *items,
                i - 1,
            ));
        }
    }

    /// Formats a list.
    pub fn format_list(&mut self, ctx: &Context, items: &Vec<ListEntry>)
        requires
            old(self)@.consistent(ctx@.comments.len()),
        ensures
            final(self)@ == render_list(ctx@, old(self)@, *items),
            final(self)@.follows(old(self)@, ctx@.comments.len()),
            items.len() > 0 && !list_is_inline(*items) ==> one_item_per_line(
                ctx@,
                old(self)@.write(ctx@, text("[")).newline().indented().with_structure(true),
                *items,
            ),
        decreases items, items.len() + 1,
    {
        if items.len() == 0 {
            self.write(ctx, "[]");
            return ;
        }
        let outer = self.in_structure;
        if all_list_items_simple(items) && items.len() <= 5 {
            self.write(ctx, "[");
            self.in_structure = true;
            self.format_list_inline(ctx, items);
            self.in_structure = outer;
        } else {
            self.write(ctx, "[");
            self.newline();
            let saved = self.indent();
            self.in_structure = true;
            self.format_list_lines(ctx, items);
            self.in_structure = outer;
            self.dedent(saved);
            self.write_indent(ctx);
        }
        self.write(ctx, "]");
    }

    fn format_record_item(&mut self, ctx: &Context, item: &RecordEntry)
        requires
            old(self)@.consistent(ctx@.comments.len()),
        ensures
            final(self)@ == render_record_item(ctx@, old(self)@, *item),
            final(self)@.follows(old(self)@, ctx@.comments.len()),
        decreases item, 0int,
    {
        match item {
            RecordEntry::Pair(key, value) => {
                self.format_expression(ctx, key);
                self.write(ctx, ": ");
                self.format_expression(ctx, value);
            },
            RecordEntry::Spread(e) => {
                self.write(ctx, "...");
                self.format_expression(ctx, e);
            },
        }
    }

    fn format_record_inline(&mut self, ctx: &Context, items: &Vec<RecordEntry>)
        requires
            old(self)@.consistent(ctx@.comments.len()),
        ensures
            final(self)@ == render_record_inline(ctx@, old(self)@, *items, items.len() as int),
            final(self)@.follows(old(self)@, ctx@.comments.len()),
        decreases items, items.len(),
    {
        let mut i: usize = 0;
        while i < items.len()
            invariant
                i <= items.len(),
                self@ == render_record_inline(ctx@, old(self)@, *items, i as int),
                self@.follows(old(self)@, ctx@.comments.len()),
            decreases items.len() - i,
        {
            if i > 0 {
                self.write(ctx, ", ");
            }
            self.format_record_item(ctx, &items[i]);
            i += 1;
        }
    }

    fn format_record_lines(&mut self, ctx: &Context, items: &Vec<RecordEntry>)
        requires
            old(self)@.consistent(ctx@.comments.len()),
        ensures
            final(self)@ == render_record_lines(ctx@, old(self)@, *items, items.len() as int),
            final(self)@.follows(old(self)@, ctx@.comments.len()),
        decreases items, items.len(),
    {
        let mut i: usize = 0;
        while i < items.len()
            invariant
                i <= items.len(),
                self@ == render_record_lines(ctx@, old(self)@, *items, i as int),
                self@.follows(old(self)@, ctx@.comments.len()),
            decreases items.len() - i,
        {
            self.write_indent(ctx);
            self.format_record_item(ctx, &items[i]);
            self.newline();
            i += 1;
        }
    }

    /// Formats a record.
    pub fn format_record(&mut self, ctx: &Context, items: &Vec<RecordEntry>)
        requires
            old(self)@.consistent(ctx@.comments.len()),
        ensures
            final(self)@ == render_record(ctx@, old(self)@, *items),
            final(self)@.follows(old(self)@, ctx@.comments.len()),
        decreases items, items.len() + 1,
    {
        if items.len() == 0 {
            self.write(ctx, "{}");
            return ;
        }
        let outer = self.in_structure;
        let inline = all_record_items_simple(items) && items.len() <= 3 && !(outer
            && is_nested_complex_record(items));
        assert(inline == record_is_inline(*items, outer));
        if inline {
            self.write(ctx, "{");
            self.in_structure = true;
            self.format_record_inline(ctx, items);
            self.in_structure = outer;
        } else {
            self.write(ctx, "{");
            self.newline();
            let saved = self.indent();
            self.in_structure = true;
            self.format_record_lines(ctx, items);
            self.in_structure = outer;
            self.dedent(saved);
            self.write_indent(ctx);
        }
        self.write(ctx, "}");
    }

    fn format_cells(&mut self, ctx: &Context, cells: &Vec<ExprNode>)
        requires
            old(self)@.consistent(ctx@.comments.len()),
        ensures
            final(self)@ == render_cells(ctx@, old(self)@, *cells, cells.len() as int),
            final(self)@.follows(old(self)@, ctx@.comments.len()),
        decreases cells, cells.len(),
    {
        let mut i: usize = 0;
        while i < cells.len()
            invariant
                i <= cells.len(),
                self@ == render_cells(ctx@, old(self)@, *cells, i as int),
                self@.follows(old(self)@, ctx@.comments.len()),
            decreases cells.len() - i,
        {
            if i > 0 {
                self.write(ctx, ", ");
            }
            self.format_expression(ctx, &cells[i]);
            i += 1;
        }
    }

    fn format_row(&mut self, ctx: &Context, cells: &Vec<ExprNode>)
        requires
            old(self)@.consistent(ctx@.comments.len()),
        ensures
            final(self)@ == render_row(ctx@, old(self)@, *cells),
            final(self)@.follows(old(self)@, ctx@.comments.len()),
        decreases cells, cells.len() + 1,
    {
        self.write(ctx, "[");
        self.format_cells(ctx, cells);
        self.write(ctx, "]");
    }

    fn format_rows(&mut self, ctx: &Context, rows: &Vec<Vec<ExprNode>>)
        requires
            old(self)@.consistent(ctx@.comments.len()),
        ensures
            final(self)@ == render_rows(ctx@, old(self)@, *rows, rows.len() as int),
            final(self)@.follows(old(self)@, ctx@.comments.len()),
        decreases rows, rows.len(),
    {
        let mut i: usize = 0;
        while i < rows.len()
            invariant
                i <= rows.len(),
                self@ == render_rows(ctx@, old(self)@, *rows, i as int),
                self@.follows(old(self)@, ctx@.comments.len()),
            decreases rows.len() - i,
        {
            if i > 0 {
                self.write(ctx, ", ");
            }
            self.format_row(ctx, &rows[i]);
            i += 1;
        }
    }

    /// Formats a table.
    pub fn format_table(&mut self, ctx: &Context, table: &Table)
        requires
            old(self)@.consistent(ctx@.comments.len()),
        ensures
            final(self)@ == render_table(ctx@, old(self)@, *table),
            final(self)@.follows(old(self)@, ctx@.comments.len()),
        decreases table, 0int,
    {
        let outer = self.in_structure;
        self.write(ctx, "[");
        self.in_structure = true;
        self.format_row(ctx, &table.columns);
        if table.rows.len() > 0 {
            self.write(ctx, "; ");
            self.format_rows(ctx, &table.rows);
        }
        self.in_structure = outer;
        self.write(ctx, "]");
    }

    /// Formats a range.
    pub fn format_range(&mut self, ctx: &Context, range: &Range)
        requires
            old(self)@.consistent(ctx@.comments.len()),
        ensures
            final(self)@ == render_range(ctx@, old(self)@, *range),
            final(self)@.follows(old(self)@, ctx@.comments.len()),
        decreases range, 0int,
    {
        if let Some(e) = &range.from {
            self.format_expression(ctx, e);
        }
        if let Some(e) = &range.next {
            self.write(ctx, "..");
            self.format_expression(ctx, e);
        }
        self.write_span(ctx, range.operator);
        if let Some(e) = &range.to {
            self.format_expression(ctx, e);
        }
    }

    /// Formats the members of a cell path.
    pub fn format_path(&mut self, ctx: &Context, members: &Vec<PathStep>)
        requires
            old(self)@.consistent(ctx@.comments.len()),
        ensures
            final(self)@ == render_path(ctx@, old(self)@, *members, members.len() as int),
            final(self)@.follows(old(self)@, ctx@.comments.len()),
    {
        let mut i: usize = 0;
        while i < members.len()
            invariant
                i <= members.len(),
                self@ == render_path(ctx@, old(self)@, *members, i as int),
                self@.follows(old(self)@, ctx@.comments.len()),
            decreases members.len() - i,
        {
            self.write(ctx, ".");
            match &members[i] {
                PathStep::Name { name, optional } => {
                    if *optional {
                        self.write(ctx, "?");
                    }
                    self.write_bytes(ctx, name.as_slice());
                },
                PathStep::Index { index, optional } => {
                    if *optional {
                        self.write(ctx, "?");
                    }
                    self.write_indent(ctx);
                    append_decimal(&mut self.output, *index);
                },
            }
            i += 1;
        }
    }

    fn format_attributes(&mut self, ctx: &Context, attributes: &Vec<Span>)
        requires
            old(self)@.consistent(ctx@.comments.len()),
        ensures
            final(self)@ == render_attributes(
                ctx@,
                old(self)@,
                *attributes,
                attributes.len() as int,
            ),
            final(self)@.follows(old(self)@, ctx@.comments.len()),
    {
        let mut i: usize = 0;
        while i < attributes.len()
            invariant
                i <= attributes.len(),
                self@ == render_attributes(ctx@, old(self)@, *attributes, i as int),
                self@.follows(old(self)@, ctx@.comments.len()),
            decreases attributes.len() - i,
        {
            let start = attributes[i].start;
            if 0 < start && start <= ctx.source.len() && ctx.source[start - 1] == AT_SIGN {
                self.write(ctx, "@");
            }
            self.write_span(ctx, attributes[i]);
            self.newline();
            i += 1;
        }
    }

    fn format_arms(&mut self, ctx: &Context, arms: &Vec<MatchArm>)
        requires
            old(self)@.consistent(ctx@.comments.len()),
        ensures
            final(self)@ == render_arms(ctx@, old(self)@, *arms, arms.len() as int),
            final(self)@.follows(old(self)@, ctx@.comments.len()),
        decreases arms, arms.len(),
    {
        let mut i: usize = 0;
        while i < arms.len()
            invariant
                i <= arms.len(),
                self@ == render_arms(ctx@, old(self)@, *arms, i as int),
                self@.follows(old(self)@, ctx@.comments.len()),
            decreases arms.len() - i,
        {
            self.write_indent(ctx);
            self.format_match_pattern(ctx, &arms[i].pattern);
            self.write(ctx, " => ");
            self.format_body(ctx, &arms[i].value);
            self.newline();
            i += 1;
        }
    }

    /// Formats a match block.
    pub fn format_match_block(&mut self, ctx: &Context, arms: &Vec<MatchArm>)
        requires
            old(self)@.consistent(ctx@.comments.len()),
        ensures
            final(self)@ == render_match_block(ctx@, old(self)@, *arms),
            final(self)@.follows(old(self)@, ctx@.comments.len()),
        decreases arms, arms.len() + 1,
    {
        self.write(ctx, "{");
        self.newline();
        let saved = self.indent();
        self.format_arms(ctx, arms);
        self.dedent(saved);
        self.write_indent(ctx);
        self.write(ctx, "}");
    }

    /// Formats a match pattern.
    pub fn format_match_pattern(&mut self, ctx: &Context, pattern: &ArmPattern)
        requires
            old(self)@.consistent(ctx@.comments.len()),
        ensures
            final(self)@ == render_pattern(ctx@, old(self)@, *pattern),
            final(self)@.follows(old(self)@, ctx@.comments.len()),
        decreases pattern, 1int,
    {
        self.format_pattern_shape(ctx, pattern);
        if let Some(guard) = &pattern.guard {
            self.write(ctx, " if ");
            self.format_expression(ctx, guard);
        }
    }

    fn format_pattern_shape(&mut self, ctx: &Context, pattern: &ArmPattern)
        requires
            old(self)@.consistent(ctx@.comments.len()),
        ensures
            final(self)@ == render_pattern_shape(ctx@, old(self)@, *pattern),
            final(self)@.follows(old(self)@, ctx@.comments.len()),
        decreases pattern, 0int,
    {
        match &pattern.pattern {
            Pattern::Expression(e) => {
                self.format_expression(ctx, e);
            },
            Pattern::Or(alternatives) => {
                self.format_alternatives(ctx, alternatives);
            },
            Pattern::List(items) => {
                self.write(ctx, "[");
                self.format_pattern_items(ctx, items);
                self.write(ctx, "]");
            },
            Pattern::Record(entries) => {
                self.write(ctx, "{");
                self.format_pattern_entries(ctx, entries);
                self.write(ctx, "}");
            },
            Pattern::IgnoreRest => {
                self.write(ctx, "..");
            },
            Pattern::IgnoreValue => {
                self.write(ctx, "_");
            },
            Pattern::Value | Pattern::Variable | Pattern::Rest | Pattern::Garbage => {
                self.write_span(ctx, pattern.span);
            },
        }
    }

    fn format_alternatives(&mut self, ctx: &Context, alternatives: &Vec<ArmPattern>)
        requires
            old(self)@.consistent(ctx@.comments.len()),
        ensures
            final(self)@ == render_alternatives(
                ctx@,
                old(self)@,
                *alternatives,
                alternatives.len() as int,
            ),
            final(self)@.follows(old(self)@, ctx@.comments.len()),
        decreases alternatives, alternatives.len(),
    {
        let mut i: usize = 0;
        while i < alternatives.len()
            invariant
                i <= alternatives.len(),
                self@ == render_alternatives(ctx@, old(self)@, *alternatives, i as int),
                self@.follows(old(self)@, ctx@.comments.len()),
            decreases alternatives.len() - i,
        {
            if i > 0 {
                self.write(ctx, " | ");
            }
            self.format_match_pattern(ctx, &alternatives[i]);
            i += 1;
        }
    }

    fn format_pattern_items(&mut self, ctx: &Context, items: &Vec<ArmPattern>)
        requires
            old(self)@.consistent(ctx@.comments.len()),
        ensures
            final(self)@ == render_pattern_items(ctx@, old(self)@, *items, items.len() as int),
            final(self)@.follows(old(self)@, ctx@.comments.len()),
        decreases items, items.len(),
    {
        let mut i: usize = 0;
        while i < items.len()
            invariant
                i <= items.len(),
                self@ == render_pattern_items(ctx@, old(self)@, *items, i as int),
                self@.follows(old(self)@, ctx@.comments.len()),
            decreases items.len() - i,
        {
            if i > 0 {
                self.write(ctx, ", ");
            }
            self.format_match_pattern(ctx, &items[i]);
            i += 1;
        }
    }

    fn format_pattern_entries(&mut self, ctx: &Context, entries: &Vec<PatternEntry>)
        requires
            old(self)@.consistent(ctx@.comments.len()),
        ensures
            final(self)@ == render_pattern_entries(
                ctx@,
                old(self)@,
                *entries,
                entries.len() as int,
            ),
            final(self)@.follows(old(self)@, ctx@.comments.len()),
        decreases entries, entries.len(),
    {
        let mut i: usize = 0;
        while i < entries.len()
            invariant
                i <= entries.len(),
                self@ == render_pattern_entries(ctx@, old(self)@, *entries, i as int),
                self@.follows(old(self)@, ctx@.comments.len()),
            decreases entries.len() - i,
        {
            if i > 0 {
                self.write(ctx, ", ");
            }
            self.write_bytes(ctx, entries[i].key.as_slice());
            self.write(ctx, ": ");
            self.format_match_pattern(ctx, &entries[i].pattern);
            i += 1;
        }
    }
}

} // verus!
