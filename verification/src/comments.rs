//! Finding the comments of a source text.
//!
//! Comments are no part of the syntax tree. They are found by a scan of the
//! raw bytes, and the renderer puts them back where they belong.

use vstd::prelude::*;
use vstd::slice::{slice_subrange, slice_to_vec};
use crate::ast::Span;
use crate::text::{
    find_byte, index_of_from, lemma_index_of_from, BACKSLASH, DOUBLE_QUOTE, HASH, NEWLINE,
    SINGLE_QUOTE,
};

verus! {

/// A comment: where it stands in the source, and its bytes from the `#` up
/// to the end of its line.
#[derive(Debug)]
pub struct Comment {
    pub span: Span,
    pub content: Vec<u8>,
}

/// A comment as the rendering rules see it.
pub struct CommentText {
    pub span: Span,
    pub content: Seq<u8>,
}

impl Comment {
    pub open spec fn view(&self) -> CommentText {
        CommentText { span: self.span, content: self.content@ }
    }
}

/// What the scanner is in the middle of.
pub enum ScanMode {
    /// Ordinary code.
    Code,
    /// A string literal opened by the given quote byte.
    InString(u8),
}

/// The ranges of the comments that a scan of `source` finds from position `i`
/// on, when it arrives there in `mode`.
///
/// Inside a string a backslash hides the byte after it, and the quote that
/// opened the string closes it. In code a quote opens a string, and a `#`
/// opens a comment that runs up to the next line feed or the end of the text.
pub open spec fn comments_from(source: Seq<u8>, i: int, mode: ScanMode) -> Seq<Span>
    decreases source.len() - i,
{
    if i < 0 || i >= source.len() {
        Seq::empty()
    } else {
        match mode {
            ScanMode::InString(quote) => {
                if source[i] == BACKSLASH && i + 1 < source.len() {
                    comments_from(source, i + 2, mode)
                } else if source[i] == quote {
                    comments_from(source, i + 1, ScanMode::Code)
                } else {
                    comments_from(source, i + 1, mode)
                }
            },
            ScanMode::Code => {
                if source[i] == DOUBLE_QUOTE || source[i] == SINGLE_QUOTE {
                    comments_from(source, i + 1, ScanMode::InString(source[i]))
                } else if source[i] == HASH {
                    let end = index_of_from(source, i, NEWLINE);
                    let here = seq![Span { start: i as usize, end: end as usize }];
                    if i <= end < source.len() {
                        here + comments_from(source, end + 1, ScanMode::Code)
                    } else {
                        here
                    }
                } else {
                    comments_from(source, i + 1, ScanMode::Code)
                }
            },
        }
    }
}

/// The ranges of all comments of `source`, in the order they stand in it.
pub open spec fn comment_spans(source: Seq<u8>) -> Seq<Span> {
    comments_from(source, 0, ScanMode::Code)
}

/// All comments of `source`, in the order they stand in it, each with the
/// bytes of the source in its range.
pub open spec fn comments_of(source: Seq<u8>) -> Seq<CommentText> {
    Seq::new(
        comment_spans(source).len(),
        |k: int|
            CommentText {
                span: comment_spans(source)[k],
                content: comment_spans(source)[k].slice(source),
            },
    )
}

/// What a list of comments holds.
pub open spec fn comment_texts(comments: Seq<Comment>) -> Seq<CommentText> {
    Seq::new(comments.len(), |k: int| comments[k]@)
}

/// The ranges of a list of comments.
pub open spec fn spans_of(comments: Seq<CommentText>) -> Seq<Span> {
    Seq::new(comments.len(), |k: int| comments[k].span)
}

/// Whether each comment holds exactly the bytes of `source` in its range.
pub open spec fn contents_match(comments: Seq<CommentText>, source: Seq<u8>) -> bool {
    forall|k: int|
        0 <= k < comments.len() ==> (#[trigger] comments[k]).content == comments[k].span.slice(
            source,
        )
}

/// Every comment found from `i` on lies inside the source, at or after `i`.
pub proof fn lemma_comments_from_within(source: Seq<u8>, i: int, mode: ScanMode)
    requires
        0 <= i,
        source.len() <= usize::MAX,
    ensures
        forall|k: int|
            0 <= k < comments_from(source, i, mode).len() ==> i <= (#[trigger] comments_from(
                source,
                i,
                mode,
            )[k]).start && comments_from(source, i, mode)[k].within(source.len()),
    decreases source.len() - i,
{
    let all = comments_from(source, i, mode);
    if i < source.len() {
        let in_code = mode is Code;
        if !in_code && source[i] == BACKSLASH && i + 1 < source.len() {
            lemma_comments_from_within(source, i + 2, mode);
            assert(all == comments_from(source, i + 2, mode));
        } else if in_code && source[i] == HASH {
            let end = index_of_from(source, i, NEWLINE);
            lemma_index_of_from(source, i, NEWLINE);
            let here = Span { start: i as usize, end: end as usize };
            assert(here.start == i && here.end == end);
            if end < source.len() {
                lemma_comments_from_within(source, end + 1, ScanMode::Code);
                let rest = comments_from(source, end + 1, ScanMode::Code);
                assert(all == seq![here] + rest);
                assert forall|k: int| 0 <= k < all.len() implies i <= (#[trigger] all[k]).start
                    && all[k].within(source.len()) by {
                    if k > 0 {
                        assert(all[k] == rest[k - 1]);
                    }
                }
            } else {
                assert(all == seq![here]);
            }
        } else {
            let next = match mode {
                ScanMode::InString(quote) => if source[i] == quote {
                    ScanMode::Code
                } else {
                    mode
                },
                ScanMode::Code => if source[i] == DOUBLE_QUOTE || source[i] == SINGLE_QUOTE {
                    ScanMode::InString(source[i])
                } else {
                    ScanMode::Code
                },
            };
            lemma_comments_from_within(source, i + 1, next);
            assert(all == comments_from(source, i + 1, next));
        }
    }
}

/// Whether the comments stand in order: none ends before it starts, and
/// each ends before the next one starts.
pub open spec fn ordered(comments: Seq<CommentText>) -> bool {
    &&& forall|k: int|
        0 <= k < comments.len() ==> (#[trigger] comments[k]).span.start <= comments[k].span.end
    &&& forall|k: int, m: int|
        0 <= k < m < comments.len() ==> (#[trigger] comments[k]).span.end < (
        #[trigger] comments[m]).span.start
}

/// Of the comments found from `i` on, each ends before the next one starts.
pub proof fn lemma_comments_from_ordered(source: Seq<u8>, i: int, mode: ScanMode)
    requires
        0 <= i,
        source.len() <= usize::MAX,
    ensures
        forall|k: int, m: int|
            0 <= k < m < comments_from(source, i, mode).len() ==> (#[trigger] comments_from(
                source,
                i,
                mode,
            )[k]).end < (#[trigger] comments_from(source, i, mode)[m]).start,
    decreases source.len() - i,
{
    let all = comments_from(source, i, mode);
    if i < source.len() {
        let in_code = mode is Code;
        if !in_code && source[i] == BACKSLASH && i + 1 < source.len() {
            lemma_comments_from_ordered(source, i + 2, mode);
            assert(all == comments_from(source, i + 2, mode));
        } else if in_code && source[i] == HASH {
            let end = index_of_from(source, i, NEWLINE);
            lemma_index_of_from(source, i, NEWLINE);
            let here = Span { start: i as usize, end: end as usize };
            assert(here.start == i && here.end == end);
            if end < source.len() {
                lemma_comments_from_ordered(source, end + 1, ScanMode::Code);
                lemma_comments_from_within(source, end + 1, ScanMode::Code);
                let rest = comments_from(source, end + 1, ScanMode::Code);
                assert(all == seq![here] + rest);
                assert forall|k: int, m: int| 0 <= k < m < all.len() implies (#[trigger] all[k]).end
                    < (#[trigger] all[m]).start by {
                    assert(all[m] == rest[m - 1]);
                    if k > 0 {
                        assert(all[k] == rest[k - 1]);
                    }
                }
            } else {
                assert(all == seq![here]);
            }
        } else {
            let next = match mode {
                ScanMode::InString(quote) => if source[i] == quote {
                    ScanMode::Code
                } else {
                    mode
                },
                ScanMode::Code => if source[i] == DOUBLE_QUOTE || source[i] == SINGLE_QUOTE {
                    ScanMode::InString(source[i])
                } else {
                    ScanMode::Code
                },
            };
            lemma_comments_from_ordered(source, i + 1, next);
            assert(all == comments_from(source, i + 1, next));
        }
    }
}

/// The comments of a source stand in source order, and none overlaps
/// another.
pub proof fn lemma_comments_ordered(source: Seq<u8>)
    requires
        source.len() <= usize::MAX,
    ensures
        ordered(comments_of(source)),
{
    lemma_comments_from_ordered(source, 0, ScanMode::Code);
    lemma_comments_from_within(source, 0, ScanMode::Code);
}

/// Every comment of a source lies inside it.
pub proof fn lemma_comments_within(source: Seq<u8>)
    requires
        source.len() <= usize::MAX,
    ensures
        forall|k: int|
            0 <= k < comments_of(source).len() ==> (#[trigger] comments_of(source)[k]).span.within(
                source.len(),
            ),
{
    lemma_comments_from_within(source, 0, ScanMode::Code);
}

/// Finds the comments of `source`: one for each `#` that stands outside a
/// string literal and outside an earlier comment, in the order they stand in
/// the source. An unterminated last comment runs to the end of the text; after
/// an unterminated string nothing more is found.
pub fn extract_comments(source: &[u8]) -> (comments: Vec<Comment>)
    ensures
        comment_texts(comments@) == comments_of(source@),
{
    let n = source.len();
    let mut comments: Vec<Comment> = Vec::new();
    let mut i: usize = 0;
    let mut in_string = false;
    let mut string_char: u8 = DOUBLE_QUOTE;
    while i < n
        invariant
            n == source@.len(),
            contents_match(comment_texts(comments@), source@),
            comment_spans(source@) == spans_of(comment_texts(comments@)) + comments_from(
                source@,
                i as int,
                if in_string {
                    ScanMode::InString(string_char)
                } else {
                    ScanMode::Code
                },
            ),
        decreases n - i,
    {
        let c = source[i];
        if in_string {
            if c == BACKSLASH && i + 1 < n {
                i += 2;
            } else {
                if c == string_char {
                    in_string = false;
                }
                i += 1;
            }
        } else if c == DOUBLE_QUOTE || c == SINGLE_QUOTE {
            in_string = true;
            string_char = c;
            i += 1;
        } else if c == HASH {
            let start = i;
            let end = find_byte(source, start, NEWLINE);
            let content = slice_to_vec(slice_subrange(source, start, end));
            let ghost before = comment_texts(comments@);
            comments.push(Comment { span: Span { start, end }, content });
            proof {
                let after = comment_texts(comments@);
                assert(spans_of(after) == spans_of(before) + seq![Span { start, end }]);
                assert forall|k: int| 0 <= k < after.len() implies (#[trigger] after[k]).content
                    == after[k].span.slice(source@) by {
                    if k < before.len() {
                        assert(after[k] == before[k]);
                    }
                }
            }
            if end < n {
                i = end + 1;
            } else {
                i = n;
            }
        } else {
            i += 1;
        }
    }
    proof {
        let found = comment_texts(comments@);
        assert(spans_of(found) + Seq::<Span>::empty() == spans_of(found));
        assert(found.len() == comment_spans(source@).len());
        assert forall|k: int| 0 <= k < found.len() implies found[k] == comments_of(source@)[k] by {
            assert(spans_of(found)[k] == found[k].span);
        }
        assert(found == comments_of(source@));
    }
    comments
}

} // verus!
