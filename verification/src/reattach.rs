//! Putting comments back into the output.
//!
//! A comment is written once: on a line of its own before the construct that
//! follows it in the source, or at the end of the line of the construct that
//! stands before it on its source line.
//!
//! A comment is pending as long as it was neither written nor copied to the
//! output inside a range of the source that was copied as written. Each step
//! takes pending comments only, so no comment is written twice, and none is
//! written that the output holds already. A comment that no step found a
//! place for, one inside a list for instance, is still pending when the
//! next pipeline starts, and is written in front of that pipeline; behind
//! the last pipeline all that is still pending is written.

use vstd::prelude::*;
use crate::model::{text, Context, Formatter, RenderContext, RenderState};
use crate::text::{append, find_byte, index_of_from, NEWLINE};

verus! {

impl RenderState {
    /// Writes comment `k` on a line of its own: the current line is ended
    /// first if something stands on it, and the comment's line is ended after
    /// it.
    pub open spec fn comment_line(self, ctx: RenderContext, k: int) -> Self {
        let marked = self.mark_written(k);
        let fresh = if !marked.at_line_start && marked.output.len() > 0 && marked.output.last()
            != NEWLINE {
            marked.newline()
        } else {
            marked
        };
        fresh.write(ctx, ctx.comments[k].content).newline()
    }

    /// Whether comment `k` is pending: neither written nor copied.
    pub open spec fn pending(self, ctx: RenderContext, k: int) -> bool {
        &&& 0 <= k < ctx.comments.len()
        &&& k < self.written.len()
        &&& k < self.copied.len()
        &&& !self.written[k]
        &&& !self.copied[k]
    }

    /// Whether comment `k` is pending and ends at or before `pos`.
    pub open spec fn pending_before(self, ctx: RenderContext, pos: nat, k: int) -> bool {
        self.pending(ctx, k) && ctx.comments[k].span.end <= pos
    }

    /// Writes, among the first `n` comments, those that are pending and end
    /// at or before `pos`, each on a line of its own, in source order.
    pub open spec fn comments_before_upto(self, ctx: RenderContext, pos: nat, n: int) -> Self
        decreases n,
    {
        if n <= 0 {
            self
        } else {
            let before = self.comments_before_upto(ctx, pos, n - 1);
            if before.pending_before(ctx, pos, n - 1) {
                before.comment_line(ctx, n - 1)
            } else {
                before
            }
        }
    }

    /// Writes every pending comment that ends at or before `pos`.
    pub open spec fn comments_before(self, ctx: RenderContext, pos: nat) -> Self {
        self.comments_before_upto(ctx, pos, ctx.comments.len() as int)
    }

    /// Whether comment `k` is pending and starts in `[after, line_end)`.
    pub open spec fn pending_inline(self, ctx: RenderContext, after: nat, line_end: int, k: int)
        -> bool {
        &&& self.pending(ctx, k)
        &&& ctx.comments[k].span.start >= after
        &&& ctx.comments[k].span.start < line_end
    }

    /// The first comment at or after index `k` that is pending and starts in
    /// `[after, line_end)`; the number of comments where there is none.
    pub open spec fn first_inline(self, ctx: RenderContext, after: nat, line_end: int, k: int)
        -> int
        decreases ctx.comments.len() - k,
    {
        if k < 0 || k >= ctx.comments.len() {
            ctx.comments.len() as int
        } else if self.pending_inline(ctx, after, line_end, k) {
            k
        } else {
            self.first_inline(ctx, after, line_end, k + 1)
        }
    }

    /// Writes the comment that follows source offset `after` on the same
    /// source line, if one is pending there: a space, then the comment.
    pub open spec fn inline_comment(self, ctx: RenderContext, after: nat) -> Self {
        let line_end = index_of_from(ctx.source, after as int, NEWLINE);
        let k = self.first_inline(ctx, after, line_end, 0);
        if 0 <= k < ctx.comments.len() {
            let s = self.mark_written(k).write(ctx, text(" "));
            RenderState { output: s.output + ctx.comments[k].content, ..s }
        } else {
            self
        }
    }
}

/// After the comments before `pos` are written among the first `n`, none of
/// them that ends at or before `pos` is pending any more; what was written
/// stays written, and what was copied is what it was.
pub proof fn lemma_comments_before_covers(s: RenderState, ctx: RenderContext, pos: nat, n: int)
    requires
        0 <= n <= ctx.comments.len(),
        s.written.len() == ctx.comments.len(),
        s.copied.len() == ctx.comments.len(),
    ensures
        s.comments_before_upto(ctx, pos, n).copied == s.copied,
        s.comments_before_upto(ctx, pos, n).written.len() == s.written.len(),
        forall|k: int|
            0 <= k < s.written.len() && s.written[k] ==> #[trigger] s.comments_before_upto(
                ctx,
                pos,
                n,
            ).written[k],
        forall|k: int|
            0 <= k < n && ctx.comments[k].span.end <= pos ==> (#[trigger] s.comments_before_upto(
                ctx,
                pos,
                n,
            ).written[k]) || s.copied[k],
    decreases n,
{
    if n > 0 {
        lemma_comments_before_covers(s, ctx, pos, n - 1);
    }
}

/// Writing a comment that was not written before keeps the record sound.
pub proof fn lemma_mark_written_consistent(s: RenderState, comments: nat, k: int)
    requires
        s.consistent(comments),
        0 <= k < comments,
        !s.written[k],
        !s.copied[k],
    ensures
        s.mark_written(k).consistent(comments),
{
    let t = s.mark_written(k);
    assert forall|i: int, j: int| 0 <= i < t.emitted.len() && 0 <= j < t.emitted.len() && i
        != j implies t.emitted[i] != t.emitted[j] by {
        if i < s.emitted.len() && j < s.emitted.len() {
        } else if i < s.emitted.len() {
            assert(s.emitted.contains(s.emitted[i]));
        } else {
            assert(s.emitted.contains(s.emitted[j]));
        }
    }
    assert forall|m: int| 0 <= m < comments implies (#[trigger] t.written[m]
        <==> t.emitted.contains(m)) by {
        if m == k {
            assert(t.emitted[s.emitted.len() as int] == k);
        } else {
            if s.emitted.contains(m) {
                let i = choose|i: int| 0 <= i < s.emitted.len() && s.emitted[i] == m;
                assert(t.emitted[i] == m);
            }
            if t.emitted.contains(m) {
                let i = choose|i: int| 0 <= i < t.emitted.len() && t.emitted[i] == m;
                assert(s.emitted[i] == m);
            }
        }
    }
}

impl Formatter {
    /// Marks comment `k` as written.
    fn mark_written(&mut self, ctx: &Context, k: usize)
        requires
            old(self)@.consistent(ctx@.comments.len()),
            k < ctx@.comments.len(),
            !old(self)@.written[k as int],
            !old(self)@.copied[k as int],
        ensures
            final(self)@ == old(self)@.mark_written(k as int),
            final(self)@.follows(old(self)@, ctx@.comments.len()),
    {
        self.written[k] = true;
        proof {
            self.emitted@ = self.emitted@.push(k as int);
            lemma_mark_written_consistent(old(self)@, ctx@.comments.len(), k as int);
        }
    }

    /// Writes the pending comments that end at or before `pos`.
    pub fn write_comments_before(&mut self, ctx: &Context, pos: usize)
        requires
            old(self)@.consistent(ctx@.comments.len()),
        ensures
            final(self)@ == old(self)@.comments_before(ctx@, pos as nat),
            final(self)@.follows(old(self)@, ctx@.comments.len()),
            forall|k: int|
                0 <= k < ctx@.comments.len() && ctx@.comments[k].span.end <= pos ==> (
                #[trigger] final(self)@.written[k]) || final(self)@.copied[k],
    {
        proof {
            lemma_comments_before_covers(
                old(self)@,
                ctx@,
                pos as nat,
                ctx@.comments.len() as int,
            );
        }
        let mut k: usize = 0;
        while k < ctx.comments.len()
            invariant
                k <= ctx.comments.len(),
                self@ == old(self)@.comments_before_upto(ctx@, pos as nat, k as int),
                self@.follows(old(self)@, ctx@.comments.len()),
            decreases ctx.comments.len() - k,
        {
            let end = ctx.comments[k].span.end;
            if !self.written[k] && !self.copied[k] && end <= pos {
                self.mark_written(ctx, k);
                let n = self.output.len();
                if !self.at_line_start && n > 0 && self.output[n - 1] != NEWLINE {
                    self.newline();
                }
                self.write_bytes(ctx, ctx.comments[k].content.as_slice());
                self.newline();
            }
            k += 1;
        }
    }

    /// Writes the comment that follows source offset `after` on its line.
    pub fn write_inline_comment(&mut self, ctx: &Context, after: usize)
        requires
            old(self)@.consistent(ctx@.comments.len()),
        ensures
            final(self)@ == old(self)@.inline_comment(ctx@, after as nat),
            final(self)@.follows(old(self)@, ctx@.comments.len()),
    {
        let line_end = find_byte(ctx.source, after, NEWLINE);
        let mut k: usize = 0;
        while k < ctx.comments.len()
            invariant
                k <= ctx.comments.len(),
                self@ == old(self)@,
                self@.follows(old(self)@, ctx@.comments.len()),
                line_end == index_of_from(ctx@.source, after as int, NEWLINE),
                old(self)@.first_inline(ctx@, after as nat, line_end as int, 0) == old(
                    self,
                )@.first_inline(ctx@, after as nat, line_end as int, k as int),
            decreases ctx.comments.len() - k,
        {
            let start = ctx.comments[k].span.start;
            if !self.written[k] && !self.copied[k] && start >= after && start < line_end {
                self.mark_written(ctx, k);
                self.write(ctx, " ");
                append(&mut self.output, ctx.comments[k].content.as_slice());
                return ;
            }
            k += 1;
        }
    }
}

} // verus!
