//! What holds of every rendering.

use vstd::prelude::*;
use crate::ast::{
    Arg, BlockNode, CallNode, Element, Expr, ExprNode, ListEntry, PipelineNode, Span,
};
use crate::model::{suppresses_space, text, RenderContext, RenderState};
use crate::render::{
    element_end, is_verbatim, render_argument, render_arguments, render_block,
    render_block_expression, render_call, render_element, render_elements, render_expression,
    render_list, render_list_inline, render_list_item, render_list_lines, render_path,
    render_pipeline,
    render_pipelines, render_positional,
};
use crate::shape::{block_is_simple, command_type, is_simple, list_items_simple, CommandType};
use crate::text::{spaces, NEWLINE, SPACE};

verus! {

/// A soft space never doubles: a second one right after the first writes
/// nothing, and none is written at the start of a line or of the output.
pub proof fn lemma_soft_space(st: RenderState)
    ensures
        st.space().space() == st.space(),
        st.at_line_start || st.output.len() == 0 ==> st.space() == st,
        st.newline().space() == st.newline(),
{
}

/// What is written at the start of a line stands behind the indentation of
/// the current level: as many spaces as the level times the width of one
/// level.
pub proof fn lemma_indentation(ctx: RenderContext, st: RenderState, bytes: Seq<u8>)
    ensures
        st.newline().write(ctx, bytes).output == st.output.push(NEWLINE) + spaces(
            ctx.indent * st.indent_level,
        ) + bytes,
        !st.newline().write(ctx, bytes).at_line_start,
{
}

/// Whether `after` is `before` with `appended` written behind its output in
/// the middle of a line: the indentation level, the structure mark and the
/// record of written comments are what they were. The marks of copied
/// comments may have grown.
pub open spec fn appends(after: RenderState, before: RenderState, appended: Seq<u8>) -> bool {
    &&& after.output == before.output + appended
    &&& !after.at_line_start
    &&& after.indent_level == before.indent_level
    &&& after.in_structure == before.in_structure
    &&& after.written == before.written
    &&& after.emitted == before.emitted
}

/// No comment gets into the output twice by a copy: a range that was copied
/// and left the state intact held no comment that was written or copied
/// before.
pub proof fn lemma_copy_once(ctx: RenderContext, st: RenderState, span: Span)
    requires
        st.consistent(ctx.comments.len()),
        span.within(ctx.source.len()),
        st.write_span(ctx, span).intact,
    ensures
        st.intact,
        forall|k: int|
            0 <= k < ctx.comments.len() && span.holds((#[trigger] ctx.comments[k]).span)
                ==> !st.written[k] && !st.copied[k] && st.write_span(ctx, span).copied[k],
{
}

/// Literal fidelity: an expression that is written as it stands in the
/// source (a number, a string, a boolean, a date and the like) adds to the
/// output exactly the bytes of its range, after the indentation if it is
/// the first thing on its line, and changes nothing else but the marks of
/// the comments copied with it.
pub proof fn lemma_literal_fidelity(ctx: RenderContext, st: RenderState, e: ExprNode)
    requires
        is_verbatim(e.expr),
        e.span.within(ctx.source.len()),
    ensures
        render_expression(ctx, st, e) == st.write_span(ctx, e.span),
        appends(
            render_expression(ctx, st, e),
            st.write_indent(ctx),
            ctx.source.subrange(e.span.start as int, e.span.end as int),
        ),
{
}

/// Whether each of the first `n` elements is an expression written as it
/// stands in the source, without redirection, whose range lies inside the
/// source.
pub open spec fn plain_elements(ctx: RenderContext, elements: Vec<Element>, n: int) -> bool {
    forall|k: int|
        0 <= k < n ==> {
            &&& is_verbatim((#[trigger] elements[k]).expr.expr)
            &&& elements[k].redirection is None
            &&& elements[k].expr.span.within(ctx.source.len())
        }
}

/// The source bytes of the first `n` elements, joined by ` | `.
pub open spec fn piped_elements(ctx: RenderContext, elements: Vec<Element>, n: int) -> Seq<u8>
    decreases n,
{
    if n <= 0 || n > elements.len() {
        Seq::empty()
    } else if n == 1 {
        elements[0].expr.span.slice(ctx.source)
    } else {
        piped_elements(ctx, elements, n - 1) + text(" | ") + elements[n - 1].expr.span.slice(
            ctx.source,
        )
    }
}

/// The first `n` plain elements of a pipeline, written in the middle of a
/// line, add their source bytes joined by ` | `.
pub proof fn lemma_piped_elements(
    ctx: RenderContext,
    st: RenderState,
    elements: Vec<Element>,
    n: int,
)
    requires
        0 <= n <= elements.len(),
        plain_elements(ctx, elements, n),
        !st.at_line_start,
    ensures
        appends(render_elements(ctx, st, elements, n), st, piped_elements(ctx, elements, n)),
    decreases n,
{
    if n == 0 {
        assert(st.output + Seq::<u8>::empty() == st.output);
    } else {
        lemma_piped_elements(ctx, st, elements, n - 1);
        let before = render_elements(ctx, st, elements, n - 1);
        let element = elements[n - 1];
        let bytes = element.expr.span.slice(ctx.source);
        let joined = if n > 1 {
            before.write(ctx, text(" | "))
        } else {
            before
        };
        lemma_literal_fidelity(ctx, joined, element.expr);
        assert(render_elements(ctx, st, elements, n) == render_element(ctx, joined, element));
        assert(render_element(ctx, joined, element) == joined.write_span(ctx, element.expr.span));
        if n == 1 {
            assert(st.output + Seq::<u8>::empty() + bytes =~= st.output + bytes);
        } else {
            assert(st.output + piped_elements(ctx, elements, n - 1) + text(" | ") + bytes
                =~= st.output + (piped_elements(ctx, elements, n - 1) + text(" | ") + bytes));
        }
    }
}

/// Pipe canonicalization, for elements of any kind: the first element of a
/// pipeline is rendered where the pipeline starts, and each further element
/// is rendered behind ` | `, whatever stood between them in the source.
/// Nothing else is written between, before or behind the elements.
pub proof fn lemma_pipe_between_elements(
    ctx: RenderContext,
    st: RenderState,
    pipeline: PipelineNode,
    n: int,
)
    requires
        1 <= n <= pipeline.elements.len(),
    ensures
        render_pipeline(ctx, st, pipeline) == render_elements(
            ctx,
            st,
            pipeline.elements,
            pipeline.elements.len() as int,
        ),
        render_elements(ctx, st, pipeline.elements, 0) == st,
        n == 1 ==> render_elements(ctx, st, pipeline.elements, n) == render_element(
            ctx,
            st,
            pipeline.elements[0],
        ),
        n >= 2 ==> render_elements(ctx, st, pipeline.elements, n) == render_element(
            ctx,
            render_elements(ctx, st, pipeline.elements, n - 1).write(ctx, text(" | ")),
            pipeline.elements[n - 1],
        ),
{
    reveal_with_fuel(render_elements, 2);
}

/// Pipe canonicalization: a pipeline of plain elements is written as its
/// elements joined by ` | `, whatever stood between them in the source.
pub proof fn lemma_pipes_are_spaced(ctx: RenderContext, st: RenderState, pipeline: PipelineNode)
    requires
        plain_elements(ctx, pipeline.elements, pipeline.elements.len() as int),
        !st.at_line_start,
    ensures
        render_pipeline(ctx, st, pipeline).output == st.output + piped_elements(
            ctx,
            pipeline.elements,
            pipeline.elements.len() as int,
        ),
{
    lemma_piped_elements(ctx, st, pipeline.elements, pipeline.elements.len() as int);
}

/// Brace simplicity: a simple block between braces is written as `{ `, its
/// one element, and ` }`, whatever kind of expression the element is. This
/// holds whenever no comment is pending in front of the element and none is
/// pending behind it on its source line; a comment there is written at that
/// place and ends the line.
pub proof fn lemma_simple_block_on_one_line(ctx: RenderContext, st: RenderState, block: BlockNode)
    requires
        block_is_simple(block),
        ({
            let open = st.write(ctx, text("{")).write(ctx, text(" "));
            let element = block.pipelines[0].elements[0];
            &&& open.comments_before(ctx, element.expr.span.start as nat) == open
            &&& render_element(ctx, open, element).inline_comment(ctx, element_end(element))
                == render_element(ctx, open, element)
        }),
    ensures
        render_block_expression(ctx, st, block, true) == render_element(
            ctx,
            st.write(ctx, text("{")).write(ctx, text(" ")),
            block.pipelines[0].elements[0],
        ).write(ctx, text(" ")).write(ctx, text("}")),
{
    let open = st.write(ctx, text("{")).write(ctx, text(" "));
    let pipeline = block.pipelines[0];
    reveal_with_fuel(render_pipelines, 2);
    reveal_with_fuel(render_elements, 2);
    assert(render_pipeline(ctx, open, pipeline) == render_element(ctx, open, pipeline.elements[0]));
    assert(render_block(ctx, open, block) == render_element(ctx, open, pipeline.elements[0]));
}

/// `out`, with a space behind it unless it is empty or ends with a byte
/// that suppresses a soft space.
pub open spec fn soft_spaced(out: Seq<u8>) -> Seq<u8> {
    if out.len() > 0 && !suppresses_space(out.last()) {
        out.push(SPACE)
    } else {
        out
    }
}

/// Whether each of the first `n` arguments is a positional argument written
/// as it stands in the source, whose range lies inside the source.
pub open spec fn plain_arguments(ctx: RenderContext, arguments: Vec<Arg>, n: int) -> bool {
    forall|k: int|
        0 <= k < n ==> (#[trigger] arguments[k] matches Arg::Positional(e) && is_verbatim(e.expr)
            && e.span.within(ctx.source.len()))
}

/// The expression of a positional argument.
pub open spec fn positional(argument: Arg) -> ExprNode {
    match argument {
        Arg::Positional(e) => e,
        Arg::Unknown(e) => e,
        Arg::Spread(e) => e,
        Arg::Named { value, .. } => value->Some_0,
    }
}

/// `out` followed by the source bytes of the first `n` arguments, each
/// behind a soft space.
pub open spec fn spaced_arguments(ctx: RenderContext, out: Seq<u8>, arguments: Vec<Arg>, n: int)
    -> Seq<u8>
    decreases n,
{
    if n <= 0 || n > arguments.len() {
        out
    } else {
        soft_spaced(spaced_arguments(ctx, out, arguments, n - 1)) + positional(
            arguments[n - 1],
        ).span.slice(ctx.source)
    }
}

/// The first `n` plain arguments of an ordinary command, written in the
/// middle of a line, add their source bytes, each behind a soft space.
pub proof fn lemma_spaced_arguments(
    ctx: RenderContext,
    st: RenderState,
    arguments: Vec<Arg>,
    n: int,
)
    requires
        0 <= n <= arguments.len(),
        plain_arguments(ctx, arguments, n),
        !st.at_line_start,
    ensures
        ({
            let r = render_arguments(ctx, st, CommandType::Regular, arguments, n);
            &&& r.output == spaced_arguments(ctx, st.output, arguments, n)
            &&& !r.at_line_start
            &&& r.indent_level == st.indent_level
            &&& r.in_structure == st.in_structure
            &&& r.written == st.written
            &&& r.emitted == st.emitted
        }),
    decreases n,
{
    if n > 0 {
        lemma_spaced_arguments(ctx, st, arguments, n - 1);
        let before = render_arguments(ctx, st, CommandType::Regular, arguments, n - 1);
        let argument = arguments[n - 1];
        let e = positional(argument);
        lemma_literal_fidelity(ctx, before.space(), e);
        assert(render_arguments(ctx, st, CommandType::Regular, arguments, n) == render_argument(
            ctx,
            before,
            CommandType::Regular,
            argument,
        ));
        assert(render_argument(ctx, before, CommandType::Regular, argument) == render_positional(
            ctx,
            before.space(),
            CommandType::Regular,
            e,
        ));
        assert(before.space().output == soft_spaced(before.output));
    }
}

/// A call of an ordinary command with plain arguments is written on one
/// line: the command word as written, and each argument behind a soft
/// space, as in `echo yes`.
pub proof fn lemma_call_on_one_line(ctx: RenderContext, st: RenderState, call: CallNode)
    requires
        command_type(call.name@) is Regular,
        !call.head.is_empty(),
        call.head.within(ctx.source.len()),
        plain_arguments(ctx, call.arguments, call.arguments.len() as int),
    ensures
        render_call(ctx, st, call).output == spaced_arguments(
            ctx,
            st.write_indent(ctx).output + call.head.slice(ctx.source),
            call.arguments,
            call.arguments.len() as int,
        ),
        render_call(ctx, st, call).indent_level == st.indent_level,
{
    let head = st.write_span(ctx, call.head);
    lemma_spaced_arguments(ctx, head, call.arguments, call.arguments.len() as int);
}

/// The range that a simple expression is written from: its own, or that of
/// the head for a cell path with an empty tail.
pub open spec fn simple_span(e: ExprNode) -> Span {
    match e.expr {
        Expr::FullCellPath(head, _) => head.span,
        _ => e.span,
    }
}

/// A simple expression adds to the output exactly the bytes of the range it
/// is written from.
pub proof fn lemma_simple_fidelity(ctx: RenderContext, st: RenderState, e: ExprNode)
    requires
        is_simple(e),
        simple_span(e).within(ctx.source.len()),
    ensures
        render_expression(ctx, st, e) == st.write_span(ctx, simple_span(e)),
        appends(
            render_expression(ctx, st, e),
            st.write_indent(ctx),
            simple_span(e).slice(ctx.source),
        ),
{
    match e.expr {
        Expr::FullCellPath(head, tail) => {
            lemma_literal_fidelity(ctx, st, *head);
            assert(render_path(ctx, render_expression(ctx, st, *head), tail, 0)
                == render_expression(ctx, st, *head));
        },
        _ => {
            lemma_literal_fidelity(ctx, st, e);
        },
    }
}

/// Whether each of the first `n` items is simple (a primitive literal, or a
/// cell path with an empty tail over one), is no spread, and is written
/// from a range that lies inside the source.
pub open spec fn plain_items(ctx: RenderContext, items: Vec<ListEntry>, n: int) -> bool {
    forall|k: int|
        0 <= k < n ==> {
            &&& is_simple((#[trigger] items[k]).expr)
            &&& !items[k].spread
            &&& simple_span(items[k].expr).within(ctx.source.len())
        }
}

/// The source bytes of the first `n` items, joined by `, `.
pub open spec fn joined_items(ctx: RenderContext, items: Vec<ListEntry>, n: int) -> Seq<u8>
    decreases n,
{
    if n <= 0 || n > items.len() {
        Seq::empty()
    } else if n == 1 {
        simple_span(items[0].expr).slice(ctx.source)
    } else {
        joined_items(ctx, items, n - 1) + text(", ") + simple_span(items[n - 1].expr).slice(
            ctx.source,
        )
    }
}

/// The source bytes of the first `n` items, each on a line of its own behind
/// `margin` spaces.
pub open spec fn item_lines(ctx: RenderContext, items: Vec<ListEntry>, margin: nat, n: int) -> Seq<
    u8,
>
    decreases n,
{
    if n <= 0 || n > items.len() {
        Seq::empty()
    } else {
        (item_lines(ctx, items, margin, n - 1) + spaces(margin) + simple_span(
            items[n - 1].expr,
        ).slice(ctx.source)).push(NEWLINE)
    }
}

/// Plain items are simple.
pub proof fn lemma_plain_items_simple(ctx: RenderContext, items: Vec<ListEntry>, n: int)
    requires
        0 <= n <= items.len(),
        plain_items(ctx, items, n),
    ensures
        list_items_simple(items, n),
    decreases n,
{
    if n > 0 {
        lemma_plain_items_simple(ctx, items, n - 1);
    }
}

/// The first `n` plain items, written on one line in the middle of a
/// line, add their source bytes joined by `, `.
pub proof fn lemma_inline_items(ctx: RenderContext, st: RenderState, items: Vec<ListEntry>, n: int)
    requires
        0 <= n <= items.len(),
        plain_items(ctx, items, n),
        !st.at_line_start,
    ensures
        appends(render_list_inline(ctx, st, items, n), st, joined_items(ctx, items, n)),
    decreases n,
{
    if n == 0 {
        assert(st.output + Seq::<u8>::empty() == st.output);
    } else {
        lemma_inline_items(ctx, st, items, n - 1);
        let before = render_list_inline(ctx, st, items, n - 1);
        let item = items[n - 1];
        let bytes = simple_span(item.expr).slice(ctx.source);
        let joined = if n > 1 {
            before.write(ctx, text(", "))
        } else {
            before
        };
        lemma_simple_fidelity(ctx, joined, item.expr);
        assert(render_list_inline(ctx, st, items, n) == render_list_item(ctx, joined, item));
        assert(render_list_item(ctx, joined, item) == joined.write_span(
            ctx,
            simple_span(item.expr),
        ));
        if n == 1 {
            assert(st.output + Seq::<u8>::empty() + bytes =~= st.output + bytes);
        } else {
            assert(st.output + joined_items(ctx, items, n - 1) + text(", ") + bytes =~= st.output
                + (joined_items(ctx, items, n - 1) + text(", ") + bytes));
        }
    }
}

/// The first `n` plain items, written one per line, add for each the
/// indentation of the current level, its source bytes and a line feed.
pub proof fn lemma_item_lines(ctx: RenderContext, st: RenderState, items: Vec<ListEntry>, n: int)
    requires
        0 <= n <= items.len(),
        plain_items(ctx, items, n),
        st.at_line_start,
    ensures
        ({
            let r = render_list_lines(ctx, st, items, n);
            &&& r.output == st.output + item_lines(ctx, items, ctx.indent * st.indent_level, n)
            &&& r.at_line_start
            &&& r.indent_level == st.indent_level
            &&& r.in_structure == st.in_structure
        }),
    decreases n,
{
    if n == 0 {
        assert(st.output + Seq::<u8>::empty() == st.output);
    } else {
        lemma_item_lines(ctx, st, items, n - 1);
        let margin = ctx.indent * st.indent_level;
        let item = items[n - 1];
        let bytes = simple_span(item.expr).slice(ctx.source);
        let before = item_lines(ctx, items, margin, n - 1);
        let indented = render_list_lines(ctx, st, items, n - 1).write_indent(ctx);
        lemma_simple_fidelity(ctx, indented, item.expr);
        assert(render_list_lines(ctx, st, items, n) == render_list_item(
            ctx,
            indented,
            item,
        ).newline());
        assert(render_list_item(ctx, indented, item) == indented.write_span(
            ctx,
            simple_span(item.expr),
        ));
        assert((st.output + before + spaces(margin) + bytes).push(NEWLINE) =~= st.output + (before
            + spaces(margin) + bytes).push(NEWLINE));
    }
}

/// Structural threshold of lists: a list of one to five simple items is
/// written on one line, as `[a, b, c]`; a list of six or more is written
/// with one item per line, one level deeper, between `[` and `]` on lines of
/// their own. Either way the list starts behind the indentation if it is
/// the first thing on its line.
pub proof fn lemma_list_threshold(ctx: RenderContext, st: RenderState, items: Vec<ListEntry>)
    requires
        items.len() >= 1,
        plain_items(ctx, items, items.len() as int),
    ensures
        items.len() <= 5 ==> render_list(ctx, st, items).output == st.write_indent(ctx).output
            + text("[") + joined_items(ctx, items, items.len() as int) + text("]"),
        items.len() >= 6 ==> render_list(ctx, st, items).output == (st.write_indent(ctx).output
            + text("[")).push(NEWLINE) + item_lines(
            ctx,
            items,
            ctx.indent * st.indented().indent_level,
            items.len() as int,
        ) + spaces(ctx.indent * st.indent_level) + text("]"),
{
    let n = items.len() as int;
    lemma_plain_items_simple(ctx, items, n);
    if items.len() <= 5 {
        let open = st.write(ctx, text("[")).with_structure(true);
        lemma_inline_items(ctx, open, items, n);
    } else {
        let open = st.write(ctx, text("[")).newline().indented().with_structure(true);
        lemma_item_lines(ctx, open, items, n);
    }
}

} // verus!
