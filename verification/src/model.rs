//! The renderer's state and its basic writing operations.
//!
//! `RenderState` is the mathematical state that the rendering rules are
//! stated over; `Formatter` is the executable state, and each of its methods
//! is proved to perform the corresponding step on the view.

use vstd::prelude::*;
use vstd::string::StringSliceAdditionalSpecFns;
use vstd::slice::slice_subrange;
use crate::ast::Span;
use crate::comments::{comment_texts, comments_of, extract_comments, Comment, CommentText};
use crate::config::Config;
use crate::text::{append, spaces, NEWLINE, OPEN_BRACKET, OPEN_PAREN, SPACE, TAB};

verus! {

/// What stays fixed while one source text is rendered.
pub struct RenderContext {
    /// The source text.
    pub source: Seq<u8>,
    /// Spaces per indentation level.
    pub indent: nat,
    /// The comments of the source, in source order.
    pub comments: Seq<CommentText>,
}

impl RenderContext {
    /// The context for rendering `source` with `indent` spaces per level: the
    /// comments are those of the source.
    pub open spec fn of(source: Seq<u8>, indent: nat) -> Self {
        RenderContext { source, indent, comments: comments_of(source) }
    }
}

/// What changes while a source text is rendered.
pub struct RenderState {
    /// The bytes written so far.
    pub output: Seq<u8>,
    /// The current indentation level.
    pub indent_level: nat,
    /// Whether nothing was written on the current line yet.
    pub at_line_start: bool,
    /// Whether the renderer is inside a list, a record or a table.
    pub in_structure: bool,
    /// Whether every range copied so far lay inside the source.
    pub intact: bool,
    /// For each comment, whether it was written.
    pub written: Seq<bool>,
    /// For each comment, whether it lies in a range of the source that was
    /// copied to the output as written.
    pub copied: Seq<bool>,
    /// The indices of the comments written so far, in the order of writing.
    pub emitted: Seq<int>,
}

/// The bytes of a string.
pub open spec fn text(s: &str) -> Seq<u8> {
    s.spec_bytes()
}

/// Whether a soft space after byte `b` is suppressed.
pub open spec fn suppresses_space(b: u8) -> bool {
    b == SPACE || b == NEWLINE || b == TAB || b == OPEN_PAREN || b == OPEN_BRACKET
}

impl RenderState {
    /// The state before anything is written, with `comments` comments still
    /// to place.
    pub open spec fn initial(comments: nat) -> Self {
        RenderState {
            output: Seq::empty(),
            indent_level: 0,
            at_line_start: true,
            in_structure: false,
            intact: true,
            written: Seq::new(comments, |k: int| false),
            copied: Seq::new(comments, |k: int| false),
            emitted: Seq::empty(),
        }
    }

    /// At the start of a line, writes the indentation: `indent` spaces for
    /// each level. Elsewhere nothing changes.
    pub open spec fn write_indent(self, ctx: RenderContext) -> Self {
        if self.at_line_start {
            RenderState {
                output: self.output + spaces(ctx.indent * self.indent_level),
                at_line_start: false,
                ..self
            }
        } else {
            self
        }
    }

    /// Writes `bytes`, indenting first at the start of a line.
    pub open spec fn write(self, ctx: RenderContext, bytes: Seq<u8>) -> Self {
        let s = self.write_indent(ctx);
        RenderState { output: s.output + bytes, ..s }
    }

    /// Ends the current line.
    pub open spec fn newline(self) -> Self {
        RenderState { output: self.output.push(NEWLINE), at_line_start: true, ..self }
    }

    /// Writes one space, unless the output is empty, the line has just
    /// started, or the last byte written is a space, a tab, a line feed, `(`
    /// or `[`.
    pub open spec fn space(self) -> Self {
        if !self.at_line_start && self.output.len() > 0 && !suppresses_space(self.output.last()) {
            RenderState { output: self.output.push(SPACE), ..self }
        } else {
            self
        }
    }

    /// Whether `span` holds a comment that is in the output already, written
    /// or copied.
    pub open spec fn repeats(self, ctx: RenderContext, span: Span) -> bool {
        exists|k: int|
            0 <= k < self.copied.len() && k < self.written.len() && k < ctx.comments.len()
                && span.holds((#[trigger] ctx.comments[k]).span) && (self.written[k]
                || self.copied[k])
    }

    /// Marks the comments that lie inside `span` as copied. If one of them
    /// is in the output already, the state is no longer intact: the comment
    /// would stand in the output twice.
    pub open spec fn mark_copied(self, ctx: RenderContext, span: Span) -> Self {
        RenderState {
            intact: self.intact && !self.repeats(ctx, span),
            copied: Seq::new(
                self.copied.len(),
                |k: int|
                    self.copied[k] || (k < ctx.comments.len() && span.holds(
                        ctx.comments[k].span,
                    )),
            ),
            ..self
        }
    }

    /// Copies the bytes of the source in `span`, and marks the comments that
    /// lie inside it as copied: they are in the output with the text around
    /// them. A range that does not lie inside the source writes nothing and
    /// leaves the state marked as not intact.
    pub open spec fn write_span(self, ctx: RenderContext, span: Span) -> Self {
        if span.within(ctx.source.len()) {
            self.write(ctx, span.slice(ctx.source)).mark_copied(ctx, span)
        } else {
            RenderState { intact: false, ..self }
        }
    }

    /// One level deeper. The level stays where it is once it has reached the
    /// largest value the machine can count to.
    pub open spec fn indented(self) -> Self {
        if self.indent_level < usize::MAX {
            RenderState { indent_level: self.indent_level + 1, ..self }
        } else {
            self
        }
    }

    /// Back at indentation level `level`.
    pub open spec fn at_level(self, level: nat) -> Self {
        RenderState { indent_level: level, ..self }
    }

    /// With the marker for being inside a structure set to `inside`.
    pub open spec fn with_structure(self, inside: bool) -> Self {
        RenderState { in_structure: inside, ..self }
    }

    /// Records that comment `k` is written now.
    pub open spec fn mark_written(self, k: int) -> Self {
        RenderState { written: self.written.update(k, true), emitted: self.emitted.push(k), ..self }
    }

    /// Whether this state may follow `before` when a part of the tree was
    /// rendered with `comments` comments: the indentation level and the
    /// structure mark are back where they were, the record of written
    /// comments is sound, and what was written or copied before is still so.
    pub open spec fn follows(self, before: RenderState, comments: nat) -> bool {
        &&& self.indent_level == before.indent_level
        &&& self.in_structure == before.in_structure
        &&& self.consistent(comments)
        &&& forall|k: int|
            0 <= k < comments && before.written[k] ==> #[trigger] self.written[k]
        &&& forall|k: int| 0 <= k < comments && before.copied[k] ==> #[trigger] self.copied[k]
    }

    /// Whether the record of written comments is sound for `comments`
    /// comments: the flags and the log speak of the same comments, no
    /// comment is in the log twice, and as long as the state is intact no
    /// comment is both written and copied.
    pub open spec fn consistent(self, comments: nat) -> bool {
        &&& self.written.len() == comments
        &&& self.copied.len() == comments
        &&& self.intact ==> forall|k: int|
            0 <= k < comments ==> !(#[trigger] self.written[k] && self.copied[k])
        &&& self.emitted.no_duplicates()
        &&& forall|j: int|
            0 <= j < self.emitted.len() ==> 0 <= #[trigger] self.emitted[j] < comments
        &&& forall|k: int|
            0 <= k < comments ==> (#[trigger] self.written[k] <==> self.emitted.contains(k))
    }
}

/// The fixed inputs of one rendering: the source, the indentation width, and
/// the comments found in the source.
pub struct Context<'a> {
    pub source: &'a [u8],
    pub indent: usize,
    pub comments: Vec<Comment>,
}

impl<'a> Context<'a> {
    pub open spec fn view(&self) -> RenderContext {
        RenderContext {
            source: self.source@,
            indent: self.indent as nat,
            comments: comment_texts(self.comments@),
        }
    }

    /// The context for rendering `source` under `config`: its comments are
    /// those of the source.
    pub fn new(source: &'a [u8], config: &Config) -> (ctx: Self)
        ensures
            ctx@ == RenderContext::of(source@, config.indent as nat),
    {
        Context { source, indent: config.indent, comments: extract_comments(source) }
    }
}

/// The renderer's mutable state.
pub struct Formatter {
    pub output: Vec<u8>,
    pub indent_level: usize,
    pub at_line_start: bool,
    pub in_structure: bool,
    pub intact: bool,
    pub written: Vec<bool>,
    pub copied: Vec<bool>,
    pub emitted: Ghost<Seq<int>>,
}

impl Formatter {
    pub open spec fn view(&self) -> RenderState {
        RenderState {
            output: self.output@,
            indent_level: self.indent_level as nat,
            at_line_start: self.at_line_start,
            in_structure: self.in_structure,
            intact: self.intact,
            written: self.written@,
            copied: self.copied@,
            emitted: self.emitted@,
        }
    }

    /// A formatter that has written nothing, for a source with the comments
    /// of `ctx`.
    pub fn new(ctx: &Context) -> (f: Self)
        ensures
            f@ == RenderState::initial(ctx@.comments.len()),
            f@.consistent(ctx@.comments.len()),
    {
        let mut written: Vec<bool> = Vec::new();
        let mut copied: Vec<bool> = Vec::new();
        let mut k: usize = 0;
        while k < ctx.comments.len()
            invariant
                k <= ctx.comments.len(),
                written@ == Seq::new(k as nat, |j: int| false),
                copied@ == Seq::new(k as nat, |j: int| false),
            decreases ctx.comments.len() - k,
        {
            written.push(false);
            copied.push(false);
            k += 1;
            assert(written@ == Seq::new(k as nat, |j: int| false));
            assert(copied@ == Seq::new(k as nat, |j: int| false));
        }
        Formatter {
            output: Vec::new(),
            indent_level: 0,
            at_line_start: true,
            in_structure: false,
            intact: true,
            written,
            copied,
            emitted: Ghost(Seq::empty()),
        }
    }

    pub fn write_indent(&mut self, ctx: &Context)
        ensures
            final(self)@ == old(self)@.write_indent(ctx@),
    {
        if self.at_line_start {
            let mut level: usize = 0;
            while level < self.indent_level
                invariant
                    level <= self.indent_level,
                    self@ == (RenderState {
                        output: old(self)@.output + spaces((ctx.indent * level) as nat),
                        ..old(self)@
                    }),
                decreases self.indent_level - level,
            {
                let mut j: usize = 0;
                while j < ctx.indent
                    invariant
                        j <= ctx.indent,
                        level < self.indent_level,
                        self@ == (RenderState {
                            output: old(self)@.output + spaces((ctx.indent * level + j) as nat),
                            ..old(self)@
                        }),
                    decreases ctx.indent - j,
                {
                    self.output.push(SPACE);
                    assert(spaces((ctx.indent * level + j) as nat).push(SPACE) == spaces(
                        (ctx.indent * level + j + 1) as nat,
                    ));
                    j += 1;
                }
                assert(ctx.indent * level + ctx.indent == ctx.indent * (level + 1))
                    by (nonlinear_arith);
                level += 1;
            }
            self.at_line_start = false;
        }
    }

    /// Writes `bytes`.
    pub fn write_bytes(&mut self, ctx: &Context, bytes: &[u8])
        ensures
            final(self)@ == old(self)@.write(ctx@, bytes@),
    {
        self.write_indent(ctx);
        append(&mut self.output, bytes);
    }

    /// Writes a string.
    pub fn write(&mut self, ctx: &Context, s: &str)
        ensures
            final(self)@ == old(self)@.write(ctx@, text(s)),
    {
        self.write_bytes(ctx, s.as_bytes());
    }

    pub fn newline(&mut self)
        ensures
            final(self)@ == old(self)@.newline(),
    {
        self.output.push(NEWLINE);
        self.at_line_start = true;
    }

    /// Writes a soft space.
    pub fn space(&mut self)
        ensures
            final(self)@ == old(self)@.space(),
    {
        let n = self.output.len();
        if !self.at_line_start && n > 0 {
            let last = self.output[n - 1];
            if last != SPACE && last != NEWLINE && last != TAB && last != OPEN_PAREN && last
                != OPEN_BRACKET {
                self.output.push(SPACE);
            }
        }
    }

    /// Copies the source bytes in `span` to the output.
    pub fn write_span(&mut self, ctx: &Context, span: Span)
        ensures
            final(self)@ == old(self)@.write_span(ctx@, span),
            old(self)@.consistent(ctx@.comments.len()) ==> final(self)@.follows(
                old(self)@,
                ctx@.comments.len(),
            ),
    {
        if span.start <= span.end && span.end <= ctx.source.len() {
            self.write_bytes(ctx, slice_subrange(ctx.source, span.start, span.end));
            let ghost written = self@;
            let n = self.copied.len();
            let mut clash = false;
            let mut k: usize = 0;
            assert(self@.copied =~= Seq::new(
                n as nat,
                |j: int|
                    written.copied[j] || (j < 0 && j < ctx@.comments.len() && span.holds(
                        ctx@.comments[j].span,
                    )),
            ));
            while k < n
                invariant
                    k <= n,
                    n == self.copied.len(),
                    n == written.copied.len(),
                    clash <==> exists|j: int|
                        0 <= j < k && j < written.written.len() && j < ctx@.comments.len()
                            && span.holds((#[trigger] ctx@.comments[j]).span) && (
                        written.written[j] || written.copied[j]),
                    self@ == (RenderState {
                        copied: Seq::new(
                            n as nat,
                            |j: int|
                                written.copied[j] || (j < k && j < ctx@.comments.len()
                                    && span.holds(ctx@.comments[j].span)),
                        ),
                        ..written
                    }),
                decreases n - k,
            {
                if k < ctx.comments.len() {
                    let inner = ctx.comments[k].span;
                    if span.start <= inner.start && inner.end <= span.end {
                        if k < self.written.len() && (self.written[k] || self.copied[k]) {
                            clash = true;
                            assert(span.holds(ctx@.comments[k as int].span));
                        }
                        self.copied[k] = true;
                    }
                }
                k += 1;
                assert(self@.copied =~= Seq::new(
                    n as nat,
                    |j: int|
                        written.copied[j] || (j < k && j < ctx@.comments.len() && span.holds(
                            ctx@.comments[j].span,
                        )),
                ));
            }
            assert(self@.copied =~= written.mark_copied(ctx@, span).copied);
            assert(clash == written.repeats(ctx@, span));
            if clash {
                self.intact = false;
            }
        } else {
            self.intact = false;
        }
    }

    /// Goes one indentation level deeper and returns the level to come back
    /// to.
    pub fn indent(&mut self) -> (saved: usize)
        ensures
            final(self)@ == old(self)@.indented(),
            saved == old(self)@.indent_level,
    {
        let saved = self.indent_level;
        if self.indent_level < usize::MAX {
            self.indent_level += 1;
        }
        saved
    }

    /// Comes back to indentation level `level`.
    pub fn dedent(&mut self, level: usize)
        ensures
            final(self)@ == old(self)@.at_level(level as nat),
    {
        self.indent_level = level;
    }
}

} // verus!
