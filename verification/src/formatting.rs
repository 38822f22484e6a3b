//! Formatting a parsed program.

use vstd::prelude::*;
use vstd::slice::slice_to_vec;
use crate::ast::BlockNode;
use crate::comments::lemma_comments_within;
use crate::config::Config;
use crate::format_error::FormatError;
use crate::garbage::{block_has_garbage, has_garbage};
use crate::model::{Context, Formatter, RenderContext, RenderState};
use crate::render::render_block;

verus! {

/// Renders a whole program: the top-level block, and after it every
/// comment that is still pending.
pub open spec fn render_program(ctx: RenderContext, program: BlockNode) -> RenderState {
    render_block(ctx, RenderState::initial(ctx.comments.len()), program).comments_before(
        ctx,
        ctx.source.len(),
    )
}

/// Comment conservation. Every comment of the source is in the output,
/// either written by itself or inside a range of the source that was copied
/// as written. No comment was written twice. And in an intact rendering no
/// comment is in the output twice: none was both written and copied, and
/// none was copied a second time, since a range to copy that holds a
/// comment which is in the output already ends the intactness.
pub open spec fn comments_conserved(ctx: RenderContext, st: RenderState) -> bool {
    &&& st.consistent(ctx.comments.len())
    &&& forall|k: int|
        0 <= k < ctx.comments.len() ==> st.emitted.contains(k) || #[trigger] st.copied[k]
    &&& st.intact ==> forall|k: int|
        0 <= k < ctx.comments.len() ==> !(st.emitted.contains(k) && #[trigger] st.copied[k])
}

/// What formatting `source`, parsed as `program`, comes to with `indent`
/// spaces per level.
///
/// - A program that holds garbage is rejected.
/// - A source without code and without comments stays as it is.
/// - Any other is rendered. A rendering that is not intact is no result but
///   a violated invariant: it came upon a range outside the source, or upon
///   a range to copy that holds a comment the output has already.
pub open spec fn formatted(source: Seq<u8>, program: BlockNode, indent: nat) -> Result<
    Seq<u8>,
    FormatError,
> {
    let ctx = RenderContext::of(source, indent);
    if block_has_garbage(program) {
        Err(FormatError::GarbageFound)
    } else if program.pipelines.len() == 0 && ctx.comments.len() == 0 {
        Ok(source)
    } else if render_program(ctx, program).intact {
        Ok(render_program(ctx, program).output)
    } else {
        Err(FormatError::InvariantViolated)
    }
}

/// Whether `result` holds the bytes, or the error, of `expected`.
pub open spec fn agrees(
    result: Result<Vec<u8>, FormatError>,
    expected: Result<Seq<u8>, FormatError>,
) -> bool {
    match expected {
        Ok(bytes) => result matches Ok(out) && out@ == bytes,
        Err(e) => result matches Err(f) && f == e,
    }
}

/// Formats `contents`, of which `program` is the syntax tree.
///
/// Comments are conserved in the rendering of a program without garbage:
/// each comment of the source is written once, or lies in a range that was
/// copied as written; in a result that is `Ok` none is in the output
/// twice.
pub fn format_program(contents: &[u8], program: &BlockNode, config: &Config) -> (result: Result<
    Vec<u8>,
    FormatError,
>)
    ensures
        agrees(result, formatted(contents@, *program, config.indent as nat)),
        !block_has_garbage(*program) ==> comments_conserved(
            RenderContext::of(contents@, config.indent as nat),
            render_program(RenderContext::of(contents@, config.indent as nat), *program),
        ),
{
    if has_garbage(program) {
        return Err(FormatError::GarbageFound);
    }
    let ctx = Context::new(contents, config);
    let mut formatter = Formatter::new(&ctx);
    let len = contents.len();
    formatter.format_block(&ctx, program);
    formatter.write_comments_before(&ctx, len);
    proof {
        lemma_comments_within(contents@);
        assert forall|k: int| 0 <= k < ctx@.comments.len() implies formatter@.emitted.contains(k)
            || #[trigger] formatter@.copied[k] by {
            assert(ctx@.comments[k].span.within(contents@.len()));
            assert(formatter@.written[k] || formatter@.copied[k]);
        }
        if formatter@.intact {
            assert forall|k: int| 0 <= k < ctx@.comments.len() implies !(
            formatter@.emitted.contains(k) && #[trigger] formatter@.copied[k]) by {
                assert(formatter@.written[k] <==> formatter@.emitted.contains(k));
            }
        }
    }
    if program.pipelines.len() == 0 && ctx.comments.len() == 0 {
        return Ok(slice_to_vec(contents));
    }
    if formatter.intact {
        Ok(formatter.output)
    } else {
        Err(FormatError::InvariantViolated)
    }
}

} // verus!
