//! The rendering rules.
//!
//! Each function says what rendering one kind of node does to the renderer's
//! state. Together they define the formatted text of a program.

use vstd::prelude::*;
use crate::ast::{
    Arg, ArmPattern, BlockNode, CallNode, Element, Expr, ExprNode, ExternalArg, ListEntry, MatchArm,
    PathStep, Pattern, PatternEntry, PipelineNode, Range, RecordEntry, Redirection, Span, Table,
    Target,
};
use crate::model::{text, RenderContext, RenderState};
use crate::shape::{
    block_is_simple, command_type, list_items_simple, record_is_nested_complex, record_items_simple,
    CommandType,
};
use crate::signature::render_signature;
use crate::text::{decimal_digits, index_of_from, trimmed, AT_SIGN, CARET, OPEN_BRACE, PIPE, SPACE};

verus! {

/// Whether an expression kind is written exactly as it stands in the source.
pub open spec fn is_verbatim(e: Expr) -> bool {
    e is Int || e is Float || e is Bool || e is Nothing || e is DateTime || e is String
        || e is RawString || e is Binary || e is Filepath || e is Directory || e is GlobPattern
        || e is Var || e is VarDecl || e is Operator || e is StringInterpolation
        || e is GlobInterpolation || e is ImportPattern || e is Overlay || e is Signature
        || e is Garbage
}

/// Where the text of a pipeline element ends in the source: at the end of
/// its redirection operator where it has one, else at the end of its
/// expression.
pub open spec fn element_end(element: Element) -> nat {
    match element.redirection {
        Some(Redirection::Single(target)) => target_span(target).end as nat,
        Some(Redirection::Separate { out, err }) => if target_span(out).end >= target_span(
            err,
        ).end {
            target_span(out).end as nat
        } else {
            target_span(err).end as nat
        },
        None => element.expr.span.end as nat,
    }
}

/// The range of a redirection operator.
pub open spec fn target_span(target: Target) -> Span {
    match target {
        Target::File { span, .. } => span,
        Target::Pipe { span } => span,
    }
}

/// Renders a block: its pipelines, one per line, with the comments that
/// belong before and behind each.
pub open spec fn render_block(ctx: RenderContext, st: RenderState, block: BlockNode) -> RenderState
    decreases block, 0int,
{
    render_pipelines(ctx, st, block.pipelines, block.pipelines.len() as int)
}

/// Renders the first `n` pipelines of a block. Before a pipeline stand the
/// pending comments that end before its first element; behind it the
/// pending comment that follows its last element on the same source line; a
/// line feed separates it from the next pipeline.
pub open spec fn render_pipelines(
    ctx: RenderContext,
    st: RenderState,
    pipelines: Vec<PipelineNode>,
    n: int,
) -> RenderState
    decreases pipelines, n,
{
    if n <= 0 || n > pipelines.len() {
        st
    } else {
        let before = render_pipelines(ctx, st, pipelines, n - 1);
        let pipeline = pipelines[n - 1];
        let rendered = if pipeline.elements.len() > 0 {
            let first = pipeline.elements[0];
            let last = pipeline.elements[pipeline.elements.len() - 1];
            render_pipeline(
                ctx,
                before.comments_before(ctx, first.expr.span.start as nat),
                pipeline,
            ).inline_comment(ctx, element_end(last))
        } else {
            render_pipeline(ctx, before, pipeline)
        };
        if n < pipelines.len() {
            rendered.newline()
        } else {
            rendered
        }
    }
}

/// Renders a pipeline: its elements joined by ` | `.
pub open spec fn render_pipeline(ctx: RenderContext, st: RenderState, pipeline: PipelineNode)
    -> RenderState
    decreases pipeline, 0int,
{
    render_elements(ctx, st, pipeline.elements, pipeline.elements.len() as int)
}

/// Renders the first `n` elements of a pipeline.
pub open spec fn render_elements(
    ctx: RenderContext,
    st: RenderState,
    elements: Vec<Element>,
    n: int,
) -> RenderState
    decreases elements, n,
{
    if n <= 0 || n > elements.len() {
        st
    } else {
        let before = render_elements(ctx, st, elements, n - 1);
        let joined = if n > 1 {
            before.write(ctx, text(" | "))
        } else {
            before
        };
        render_element(ctx, joined, elements[n - 1])
    }
}

/// Renders a pipeline element: its expression, then its redirection, each
/// target after a soft space.
pub open spec fn render_element(ctx: RenderContext, st: RenderState, element: Element)
    -> RenderState
    decreases element, 0int,
{
    let s = render_expression(ctx, st, element.expr);
    match element.redirection {
        None => s,
        Some(Redirection::Single(target)) => render_target(ctx, s.space(), target),
        Some(Redirection::Separate { out, err }) => render_target(
            ctx,
            render_target(ctx, s.space(), out).space(),
            err,
        ),
    }
}

/// Renders a redirection target: the operator as written, and for a file
/// target a soft space and the file expression.
pub open spec fn render_target(ctx: RenderContext, st: RenderState, target: Target)
    -> RenderState
    decreases target, 0int,
{
    match target {
        Target::File { span, expr } => render_expression(
            ctx,
            st.write_span(ctx, span).space(),
            expr,
        ),
        Target::Pipe { span } => st.write_span(ctx, span),
    }
}

/// Renders an expression.
pub open spec fn render_expression(ctx: RenderContext, st: RenderState, e: ExprNode)
    -> RenderState
    decreases e, 0int,
{
    match e.expr {
        Expr::Call(call) => render_call(ctx, st, *call),
        Expr::ExternalCall(head, arguments) => render_external_arguments(
            ctx,
            render_expression(ctx, write_caret(ctx, st, head.span), *head),
            arguments,
            arguments.len() as int,
        ),
        Expr::BinaryOp(lhs, op, rhs) => {
            let s = render_expression(ctx, render_expression(ctx, st, *lhs).space(), *op).space();
            match (op.expr, rhs.expr) {
                (Expr::Operator { assignment: true }, Expr::Subexpression(block)) => render_block(
                    ctx,
                    s,
                    *block,
                ),
                _ => render_expression(ctx, s, *rhs),
            }
        },
        Expr::UnaryNot(inner) => render_expression(ctx, st.write(ctx, text("not ")), *inner),
        Expr::Block(block) => render_block_expression(ctx, st, *block, false),
        Expr::Closure(block) => render_closure(ctx, st, *block, e.span),
        Expr::Subexpression(block) => render_subexpression(ctx, st, *block),
        Expr::RowCondition(block) => render_block(ctx, st, *block),
        Expr::List(items) => render_list(ctx, st, items),
        Expr::Record(items) => render_record(ctx, st, items),
        Expr::Table(table) => render_table(ctx, st, *table),
        Expr::Range(range) => render_range(ctx, st, *range),
        Expr::CellPath(members) => render_path(ctx, st, members, members.len() as int),
        Expr::FullCellPath(head, tail) => render_path(
            ctx,
            render_expression(ctx, st, *head),
            tail,
            tail.len() as int,
        ),
        Expr::Keyword(keyword) => render_body(
            ctx,
            st.write_span(ctx, keyword.span).space(),
            keyword.expr,
        ),
        Expr::ValueWithUnit(value) => render_expression(ctx, st, value.expr).write_span(
            ctx,
            value.unit,
        ),
        Expr::MatchBlock(arms) => render_match_block(ctx, st, arms),
        Expr::Collect(inner) => render_expression(ctx, st, *inner),
        Expr::AttributeBlock(attributed) => render_expression(
            ctx,
            render_attributes(
                ctx,
                st,
                attributed.attributes,
                attributed.attributes.len() as int,
            ),
            attributed.item,
        ),
        _ => st.write_span(ctx, e.span),
    }
}

/// Renders an expression that stands where a body is expected: a block or a
/// closure between braces, anything else as an ordinary expression.
pub open spec fn render_body(ctx: RenderContext, st: RenderState, e: ExprNode) -> RenderState
    decreases e, 1int,
{
    match e.expr {
        Expr::Block(block) | Expr::Closure(block) => render_block_expression(
            ctx,
            st,
            *block,
            true,
        ),
        _ => render_expression(ctx, st, e),
    }
}

/// Writes `^` where the source has one just before the head of an external
/// call.
pub open spec fn write_caret(ctx: RenderContext, st: RenderState, head: Span) -> RenderState {
    if 0 < head.start <= ctx.source.len() && ctx.source[head.start - 1] == CARET {
        st.write(ctx, text("^"))
    } else {
        st
    }
}

/// Renders the first `n` arguments of an external call, each after a soft
/// space, a spread after `...`.
pub open spec fn render_external_arguments(
    ctx: RenderContext,
    st: RenderState,
    arguments: Vec<ExternalArg>,
    n: int,
) -> RenderState
    decreases arguments, n,
{
    if n <= 0 || n > arguments.len() {
        st
    } else {
        let before = render_external_arguments(ctx, st, arguments, n - 1).space();
        let argument = arguments[n - 1];
        render_expression(
            ctx,
            if argument.spread {
                before.write(ctx, text("..."))
            } else {
                before
            },
            argument.expr,
        )
    }
}

/// Renders a call: the command word as written, unless its range is empty,
/// then the arguments by the rules of the command's class.
pub open spec fn render_call(ctx: RenderContext, st: RenderState, call: CallNode) -> RenderState
    decreases call, 0int,
{
    render_arguments(
        ctx,
        if call.head.is_empty() {
            st
        } else {
            st.write_span(ctx, call.head)
        },
        command_type(call.name@),
        call.arguments,
        call.arguments.len() as int,
    )
}

/// Renders the first `n` arguments of a call.
pub open spec fn render_arguments(
    ctx: RenderContext,
    st: RenderState,
    kind: CommandType,
    arguments: Vec<Arg>,
    n: int,
) -> RenderState
    decreases arguments, n,
{
    if n <= 0 || n > arguments.len() {
        st
    } else {
        render_argument(
            ctx,
            render_arguments(ctx, st, kind, arguments, n - 1),
            kind,
            arguments[n - 1],
        )
    }
}

/// Renders one argument after a soft space: a positional by the rules of the
/// command's class; a flag as its token, its short form where that was written
/// apart from the token, and its value after a soft space; a spread after
/// `...`.
pub open spec fn render_argument(
    ctx: RenderContext,
    st: RenderState,
    kind: CommandType,
    argument: Arg,
) -> RenderState
    decreases argument, 0int,
{
    match argument {
        Arg::Positional(e) | Arg::Unknown(e) => render_positional(
            ctx,
            st.space(),
            kind,
            e,
        ),
        Arg::Spread(e) => render_expression(ctx, st.space().write(ctx, text("...")), e),
        Arg::Named { long, short, value } => {
            let flag = write_flag(ctx, st.space(), long, short);
            match value {
                Some(e) => render_expression(ctx, flag.space(), e),
                None => flag,
            }
        },
    }
}

/// Writes a flag's token, unless its range is empty, and its short form where
/// one was written in a range of its own.
pub open spec fn write_flag(ctx: RenderContext, st: RenderState, long: Span, short: Option<Span>)
    -> RenderState {
    let s = if long.is_empty() {
        st
    } else {
        st.write_span(ctx, long)
    };
    match short {
        Some(span) => if span == long {
            s
        } else {
            s.write_span(ctx, span)
        },
        None => s,
    }
}

/// Renders a positional argument.
///
/// - In a definition a signature is laid out as a parameter list, unless
///   that would lose something; then it is copied as written. A body stands
///   between braces.
/// - In a conditional or a block keyword a body stands between braces.
/// - In a binding the declared variable is written as it is; any other
///   argument is the bound value and stands after `= `, a block or a
///   subexpression without its delimiters.
/// - Everything else is an ordinary expression.
pub open spec fn render_positional(
    ctx: RenderContext,
    st: RenderState,
    kind: CommandType,
    e: ExprNode,
) -> RenderState
    decreases e, 2int,
{
    match kind {
        CommandType::Definition => match e.expr {
            Expr::Signature(signature) => if signature.complete {
                render_signature(ctx, st, *signature)
            } else {
                st.write_span(ctx, e.span)
            },
            _ => render_body(ctx, st, e),
        },
        CommandType::Conditional | CommandType::BlockKeyword => render_body(ctx, st, e),
        CommandType::LetLike => match e.expr {
            Expr::VarDecl => render_expression(ctx, st, e),
            Expr::Block(block) | Expr::Subexpression(block) => render_block(
                ctx,
                st.write(ctx, text("= ")),
                *block,
            ),
            _ => render_expression(ctx, st.write(ctx, text("= ")), e),
        },
        CommandType::Extern | CommandType::Regular => render_expression(ctx, st, e),
    }
}

/// Renders a block on lines of its own, one level deeper: a line feed, the
/// block, a line feed, and the indentation of the line that closes it.
pub open spec fn render_block_lines(ctx: RenderContext, st: RenderState, block: BlockNode)
    -> RenderState
    decreases block, 1int,
{
    render_block(ctx, st.newline().indented(), block).newline().at_level(
        st.indent_level,
    ).write_indent(ctx)
}

/// Renders a block, between braces if `braces` is set.
///
/// - A simple block between braces stands on one line: `{ content }`.
/// - A block without pipelines is `{ }` between braces and nothing without.
/// - Any other block stands on lines of its own.
pub open spec fn render_block_expression(
    ctx: RenderContext,
    st: RenderState,
    block: BlockNode,
    braces: bool,
) -> RenderState
    decreases block, 2int,
{
    if braces {
        let open = st.write(ctx, text("{"));
        if block_is_simple(block) {
            render_block(ctx, open.write(ctx, text(" ")), block).write(ctx, text(" ")).write(
                ctx,
                text("}"),
            )
        } else if block.pipelines.len() == 0 {
            open.write(ctx, text(" ")).write(ctx, text("}"))
        } else {
            render_block_lines(ctx, open, block).write(ctx, text("}"))
        }
    } else if block.pipelines.len() == 0 {
        st
    } else {
        render_block_lines(ctx, st, block)
    }
}

/// Whether the text of a closure starts with a parameter list: `{|` or
/// `{ |`.
pub open spec fn has_parameters(content: Seq<u8>) -> bool {
    ||| content.len() >= 2 && content[0] == OPEN_BRACE && content[1] == PIPE
    ||| content.len() >= 3 && content[0] == OPEN_BRACE && content[1] == SPACE && content[2]
        == PIPE
}

/// Renders a closure.
///
/// Where its text starts with a parameter list, the text between the first
/// two `|` is trimmed and written as `{|params| `, and the body follows: on
/// the same line if the block is simple, on lines of its own otherwise. A
/// parameter list that is not closed makes the closure be copied as written.
/// A closure without parameter list is a block between braces.
pub open spec fn render_closure(ctx: RenderContext, st: RenderState, block: BlockNode, span: Span)
    -> RenderState
    decreases block, 3int,
{
    let content = span.slice(ctx.source);
    if has_parameters(content) {
        let first = index_of_from(content, 0, PIPE);
        let second = index_of_from(content, first + 1, PIPE);
        if first < second < content.len() {
            let open = st.write(ctx, text("{|")).write(
                ctx,
                trimmed(content.subrange(first + 1, second)),
            ).write(ctx, text("| "));
            if block_is_simple(block) {
                render_block(ctx, open, block).write(ctx, text(" }"))
            } else if block.pipelines.len() == 0 {
                open.write(ctx, text("}"))
            } else {
                render_block_lines(ctx, open, block).write(ctx, text("}"))
            }
        } else {
            st.write_span(ctx, span)
        }
    } else {
        render_block_expression(ctx, st, block, true)
    }
}

/// Whether a block holds a string interpolation and nothing else.
pub open spec fn is_lone_interpolation(block: BlockNode) -> bool {
    block.pipelines.len() == 1 && block.pipelines[0].elements.len() == 1
        && block.pipelines[0].elements[0].expr.expr is StringInterpolation
}

/// Renders a subexpression: a lone string interpolation without parentheses;
/// a simple block as `(content)`; an empty one as `()`; any other on lines of
/// its own between the parentheses.
pub open spec fn render_subexpression(ctx: RenderContext, st: RenderState, block: BlockNode)
    -> RenderState
    decreases block, 2int,
{
    if is_lone_interpolation(block) {
        render_block(ctx, st, block)
    } else {
        let open = st.write(ctx, text("("));
        if block_is_simple(block) {
            render_block(ctx, open, block).write(ctx, text(")"))
        } else if block.pipelines.len() == 0 {
            open.write(ctx, text(")"))
        } else {
            render_block_lines(ctx, open, block).write(ctx, text(")"))
        }
    }
}

/// Renders a list item: `...` before a spread, then the expression.
pub open spec fn render_list_item(ctx: RenderContext, st: RenderState, item: ListEntry)
    -> RenderState
    decreases item, 0int,
{
    render_expression(
        ctx,
        if item.spread {
            st.write(ctx, text("..."))
        } else {
            st
        },
        item.expr,
    )
}

/// Renders the first `n` items of a list on one line, joined by `, `.
pub open spec fn render_list_inline(
    ctx: RenderContext,
    st: RenderState,
    items: Vec<ListEntry>,
    n: int,
) -> RenderState
    decreases items, n,
{
    if n <= 0 || n > items.len() {
        st
    } else {
        let before = render_list_inline(ctx, st, items, n - 1);
        render_list_item(
            ctx,
            if n > 1 {
                before.write(ctx, text(", "))
            } else {
                before
            },
            items[n - 1],
        )
    }
}

/// Renders the first `n` items of a list, each on a line of its own.
pub open spec fn render_list_lines(
    ctx: RenderContext,
    st: RenderState,
    items: Vec<ListEntry>,
    n: int,
) -> RenderState
    decreases items, n,
{
    if n <= 0 || n > items.len() {
        st
    } else {
        render_list_item(
            ctx,
            render_list_lines(ctx, st, items, n - 1).write_indent(ctx),
            items[n - 1],
        ).newline()
    }
}

/// Whether item `k` of a list that is written one item per line, from
/// `start` on, stands on a line of its own: it is rendered at the start of a
/// line, at the indentation level of `start`, and a line feed follows it.
pub open spec fn item_on_its_line(
    ctx: RenderContext,
    start: RenderState,
    items: Vec<ListEntry>,
    k: int,
) -> bool {
    let before = render_list_lines(ctx, start, items, k);
    &&& before.at_line_start
    &&& before.indent_level == start.indent_level
    &&& render_list_lines(ctx, start, items, k + 1) == render_list_item(
        ctx,
        before.write_indent(ctx),
        items[k],
    ).newline()
}

/// Whether every item of a list, of whatever kind, stands on a line of its
/// own when the list is written one item per line from `start` on.
pub open spec fn one_item_per_line(ctx: RenderContext, start: RenderState, items: Vec<ListEntry>)
    -> bool {
    forall|k: int| 0 <= k < items.len() ==> item_on_its_line(ctx, start, items, k)
}

/// Whether a list stands on one line: every item is simple, and there are at
/// most five.
pub open spec fn list_is_inline(items: Vec<ListEntry>) -> bool {
    list_items_simple(items, items.len() as int) && items.len() <= 5
}

/// Renders a list: `[]` if it is empty, `[a, b, c]` if it stands on one
/// line, and otherwise one item per line, one level deeper, between `[` and
/// `]`.
pub open spec fn render_list(ctx: RenderContext, st: RenderState, items: Vec<ListEntry>)
    -> RenderState
    decreases items, items.len() + 1,
{
    if items.len() == 0 {
        st.write(ctx, text("[]"))
    } else if list_is_inline(items) {
        render_list_inline(
            ctx,
            st.write(ctx, text("[")).with_structure(true),
            items,
            items.len() as int,
        ).with_structure(st.in_structure).write(ctx, text("]"))
    } else {
        render_list_lines(
            ctx,
            st.write(ctx, text("[")).newline().indented().with_structure(true),
            items,
            items.len() as int,
        ).with_structure(st.in_structure).at_level(st.indent_level).write_indent(ctx).write(
            ctx,
            text("]"),
        )
    }
}

/// Renders a record item: `key: value`, or `...` and the spread expression.
pub open spec fn render_record_item(ctx: RenderContext, st: RenderState, item: RecordEntry)
    -> RenderState
    decreases item, 0int,
{
    match item {
        RecordEntry::Pair(key, value) => render_expression(
            ctx,
            render_expression(ctx, st, key).write(ctx, text(": ")),
            value,
        ),
        RecordEntry::Spread(e) => render_expression(ctx, st.write(ctx, text("...")), e),
    }
}

/// Renders the first `n` items of a record on one line, joined by `, `.
pub open spec fn render_record_inline(
    ctx: RenderContext,
    st: RenderState,
    items: Vec<RecordEntry>,
    n: int,
) -> RenderState
    decreases items, n,
{
    if n <= 0 || n > items.len() {
        st
    } else {
        let before = render_record_inline(ctx, st, items, n - 1);
        render_record_item(
            ctx,
            if n > 1 {
                before.write(ctx, text(", "))
            } else {
                before
            },
            items[n - 1],
        )
    }
}

/// Renders the first `n` items of a record, each on a line of its own.
pub open spec fn render_record_lines(
    ctx: RenderContext,
    st: RenderState,
    items: Vec<RecordEntry>,
    n: int,
) -> RenderState
    decreases items, n,
{
    if n <= 0 || n > items.len() {
        st
    } else {
        render_record_item(
            ctx,
            render_record_lines(ctx, st, items, n - 1).write_indent(ctx),
            items[n - 1],
        ).newline()
    }
}

/// Whether a record stands on one line: every item is simple, there are at
/// most three, and it is not a record inside another structure that has two
/// or more items and a structured value among them.
pub open spec fn record_is_inline(items: Vec<RecordEntry>, in_structure: bool) -> bool {
    record_items_simple(items, items.len() as int) && items.len() <= 3 && !(in_structure
        && record_is_nested_complex(items))
}

/// Renders a record: `{}` if it is empty, `{a: 1, b: 2}` if it stands on one
/// line, and otherwise one item per line, one level deeper, between `{` and
/// `}`.
pub open spec fn render_record(ctx: RenderContext, st: RenderState, items: Vec<RecordEntry>)
    -> RenderState
    decreases items, items.len() + 1,
{
    if items.len() == 0 {
        st.write(ctx, text("{}"))
    } else if record_is_inline(items, st.in_structure) {
        render_record_inline(
            ctx,
            st.write(ctx, text("{")).with_structure(true),
            items,
            items.len() as int,
        ).with_structure(st.in_structure).write(ctx, text("}"))
    } else {
        render_record_lines(
            ctx,
            st.write(ctx, text("{")).newline().indented().with_structure(true),
            items,
            items.len() as int,
        ).with_structure(st.in_structure).at_level(st.indent_level).write_indent(ctx).write(
            ctx,
            text("}"),
        )
    }
}

/// Renders the first `n` expressions of a row, joined by `, `.
pub open spec fn render_cells(
    ctx: RenderContext,
    st: RenderState,
    cells: Vec<ExprNode>,
    n: int,
) -> RenderState
    decreases cells, n,
{
    if n <= 0 || n > cells.len() {
        st
    } else {
        let before = render_cells(ctx, st, cells, n - 1);
        render_expression(
            ctx,
            if n > 1 {
                before.write(ctx, text(", "))
            } else {
                before
            },
            cells[n - 1],
        )
    }
}

/// Renders a row between brackets.
pub open spec fn render_row(ctx: RenderContext, st: RenderState, cells: Vec<ExprNode>)
    -> RenderState
    decreases cells, cells.len() + 1,
{
    render_cells(ctx, st.write(ctx, text("[")), cells, cells.len() as int).write(ctx, text("]"))
}

/// Renders the first `n` data rows of a table, joined by `, `.
pub open spec fn render_rows(
    ctx: RenderContext,
    st: RenderState,
    rows: Vec<Vec<ExprNode>>,
    n: int,
) -> RenderState
    decreases rows, n,
{
    if n <= 0 || n > rows.len() {
        st
    } else {
        let before = render_rows(ctx, st, rows, n - 1);
        render_row(
            ctx,
            if n > 1 {
                before.write(ctx, text(", "))
            } else {
                before
            },
            rows[n - 1],
        )
    }
}

/// Renders a table on one line: `[[columns]; [row], [row]]`.
pub open spec fn render_table(ctx: RenderContext, st: RenderState, table: Table) -> RenderState
    decreases table, 0int,
{
    let header = render_row(
        ctx,
        st.write(ctx, text("[")).with_structure(true),
        table.columns,
    );
    let body = if table.rows.len() > 0 {
        render_rows(ctx, header.write(ctx, text("; ")), table.rows, table.rows.len() as int)
    } else {
        header
    };
    body.with_structure(st.in_structure).write(ctx, text("]"))
}

/// Renders a range: the start bound; for a range with a step `..` and the
/// step; the operator as written; the end bound.
pub open spec fn render_range(ctx: RenderContext, st: RenderState, range: Range) -> RenderState
    decreases range, 0int,
{
    let from = match range.from {
        Some(e) => render_expression(ctx, st, e),
        None => st,
    };
    let next = match range.next {
        Some(e) => render_expression(ctx, from.write(ctx, text("..")), e),
        None => from,
    };
    let operator = next.write_span(ctx, range.operator);
    match range.to {
        Some(e) => render_expression(ctx, operator, e),
        None => operator,
    }
}

/// Renders the first `n` members of a cell path: for each `.`, then `?` if
/// the member is optional, then the name or the index in decimal.
pub open spec fn render_path(
    ctx: RenderContext,
    st: RenderState,
    members: Vec<PathStep>,
    n: int,
) -> RenderState
    decreases n,
{
    if n <= 0 || n > members.len() {
        st
    } else {
        let dot = render_path(ctx, st, members, n - 1).write(ctx, text("."));
        match members[n - 1] {
            PathStep::Name { name, optional } => (if optional {
                dot.write(ctx, text("?"))
            } else {
                dot
            }).write(ctx, name@),
            PathStep::Index { index, optional } => (if optional {
                dot.write(ctx, text("?"))
            } else {
                dot
            }).write(ctx, decimal_digits(index as nat)),
        }
    }
}

/// Writes `@` where the source has one just before an attribute.
pub open spec fn write_at_sign(ctx: RenderContext, st: RenderState, attribute: Span)
    -> RenderState {
    if 0 < attribute.start <= ctx.source.len() && ctx.source[attribute.start - 1] == AT_SIGN {
        st.write(ctx, text("@"))
    } else {
        st
    }
}

/// Renders the first `n` attributes, each as written, after its `@`, and on
/// a line of its own.
pub open spec fn render_attributes(
    ctx: RenderContext,
    st: RenderState,
    attributes: Vec<Span>,
    n: int,
) -> RenderState
    decreases n,
{
    if n <= 0 || n > attributes.len() {
        st
    } else {
        write_at_sign(
            ctx,
            render_attributes(ctx, st, attributes, n - 1),
            attributes[n - 1],
        ).write_span(ctx, attributes[n - 1]).newline()
    }
}

/// Renders the first `n` arms of a match block, each on a line of its own:
/// `pattern => value`, a block value between braces.
pub open spec fn render_arms(ctx: RenderContext, st: RenderState, arms: Vec<MatchArm>, n: int)
    -> RenderState
    decreases arms, n,
{
    if n <= 0 || n > arms.len() {
        st
    } else {
        let arm = arms[n - 1];
        render_body(
            ctx,
            render_pattern(
                ctx,
                render_arms(ctx, st, arms, n - 1).write_indent(ctx),
                arm.pattern,
            ).write(ctx, text(" => ")),
            arm.value,
        ).newline()
    }
}

/// Renders a match block: always on several lines, the arms one level deeper
/// between `{` and `}`.
pub open spec fn render_match_block(ctx: RenderContext, st: RenderState, arms: Vec<MatchArm>)
    -> RenderState
    decreases arms, arms.len() + 1,
{
    render_arms(
        ctx,
        st.write(ctx, text("{")).newline().indented(),
        arms,
        arms.len() as int,
    ).at_level(st.indent_level).write_indent(ctx).write(ctx, text("}"))
}

/// Renders a pattern, and behind it ` if ` and its guard where it has one.
pub open spec fn render_pattern(ctx: RenderContext, st: RenderState, pattern: ArmPattern)
    -> RenderState
    decreases pattern, 1int,
{
    let s = render_pattern_shape(ctx, st, pattern);
    match pattern.guard {
        Some(guard) => render_expression(ctx, s.write(ctx, text(" if ")), *guard),
        None => s,
    }
}

/// Renders what a pattern matches: an expression as an expression;
/// alternatives joined by ` | `; a list between brackets and a record between
/// braces, their parts joined by `, `; `..` and `_` as such; anything else as
/// it is written.
pub open spec fn render_pattern_shape(ctx: RenderContext, st: RenderState, pattern: ArmPattern)
    -> RenderState
    decreases pattern, 0int,
{
    match pattern.pattern {
        Pattern::Expression(e) => render_expression(ctx, st, *e),
        Pattern::Or(alternatives) => render_alternatives(
            ctx,
            st,
            alternatives,
            alternatives.len() as int,
        ),
        Pattern::List(items) => render_pattern_items(
            ctx,
            st.write(ctx, text("[")),
            items,
            items.len() as int,
        ).write(ctx, text("]")),
        Pattern::Record(entries) => render_pattern_entries(
            ctx,
            st.write(ctx, text("{")),
            entries,
            entries.len() as int,
        ).write(ctx, text("}")),
        Pattern::IgnoreRest => st.write(ctx, text("..")),
        Pattern::IgnoreValue => st.write(ctx, text("_")),
        Pattern::Value | Pattern::Variable | Pattern::Rest | Pattern::Garbage => st.write_span(
            ctx,
            pattern.span,
        ),
    }
}

/// Renders the first `n` alternatives of an or-pattern, joined by ` | `.
pub open spec fn render_alternatives(
    ctx: RenderContext,
    st: RenderState,
    alternatives: Vec<ArmPattern>,
    n: int,
) -> RenderState
    decreases alternatives, n,
{
    if n <= 0 || n > alternatives.len() {
        st
    } else {
        let before = render_alternatives(ctx, st, alternatives, n - 1);
        render_pattern(
            ctx,
            if n > 1 {
                before.write(ctx, text(" | "))
            } else {
                before
            },
            alternatives[n - 1],
        )
    }
}

/// Renders the first `n` items of a list pattern, joined by `, `.
pub open spec fn render_pattern_items(
    ctx: RenderContext,
    st: RenderState,
    items: Vec<ArmPattern>,
    n: int,
) -> RenderState
    decreases items, n,
{
    if n <= 0 || n > items.len() {
        st
    } else {
        let before = render_pattern_items(ctx, st, items, n - 1);
        render_pattern(
            ctx,
            if n > 1 {
                before.write(ctx, text(", "))
            } else {
                before
            },
            items[n - 1],
        )
    }
}

/// Renders the first `n` entries of a record pattern as `key: pattern`,
/// joined by `, `.
pub open spec fn render_pattern_entries(
    ctx: RenderContext,
    st: RenderState,
    entries: Vec<PatternEntry>,
    n: int,
) -> RenderState
    decreases entries, n,
{
    if n <= 0 || n > entries.len() {
        st
    } else {
        let before = render_pattern_entries(ctx, st, entries, n - 1);
        let entry = entries[n - 1];
        render_pattern(
            ctx,
            (if n > 1 {
                before.write(ctx, text(", "))
            } else {
                before
            }).write(ctx, entry.key@).write(ctx, text(": ")),
            entry.pattern,
        )
    }
}

} // verus!
