//! Final touches applied to rendered output.

use vstd::prelude::*;
use crate::text::NEWLINE;

verus! {

/// Whether `bytes` ends with a line feed.
pub open spec fn ends_with_newline(bytes: Seq<u8>) -> bool {
    bytes.len() > 0 && bytes.last() == NEWLINE
}

/// `bytes`, with a line feed appended unless it ends with one.
pub open spec fn with_final_newline(bytes: Seq<u8>) -> Seq<u8> {
    if ends_with_newline(bytes) {
        bytes
    } else {
        bytes.push(NEWLINE)
    }
}

/// The number of line feeds at the end of `bytes`.
pub open spec fn trailing_newlines(bytes: Seq<u8>) -> nat
    decreases bytes.len(),
{
    if ends_with_newline(bytes) {
        1 + trailing_newlines(bytes.drop_last())
    } else {
        0
    }
}

/// A text with a final line feed ends with exactly one line feed, unless the
/// text itself ended with more than one; then it keeps as many as it had.
pub proof fn lemma_final_newline_count(bytes: Seq<u8>)
    ensures
        trailing_newlines(bytes) <= 1 ==> trailing_newlines(with_final_newline(bytes)) == 1,
        trailing_newlines(bytes) > 1 ==> trailing_newlines(with_final_newline(bytes))
            == trailing_newlines(bytes),
        ends_with_newline(with_final_newline(bytes)),
{
    if !ends_with_newline(bytes) {
        assert(bytes.push(NEWLINE).drop_last() == bytes);
    } else if trailing_newlines(bytes) <= 1 {
    }
}

/// `bytes` without the line feeds at its end.
pub open spec fn without_final_newlines(bytes: Seq<u8>) -> Seq<u8>
    decreases bytes.len(),
{
    if ends_with_newline(bytes) {
        without_final_newlines(bytes.drop_last())
    } else {
        bytes
    }
}

/// `bytes` ending with exactly one line feed: the line feeds at its end,
/// however many, give way to one.
pub open spec fn with_one_final_newline(bytes: Seq<u8>) -> Seq<u8> {
    without_final_newlines(bytes).push(NEWLINE)
}

/// What is left without its final line feeds ends with none.
pub proof fn lemma_without_final_newlines(bytes: Seq<u8>)
    ensures
        !ends_with_newline(without_final_newlines(bytes)),
        without_final_newlines(bytes).len() <= bytes.len(),
    decreases bytes.len(),
{
    if ends_with_newline(bytes) {
        lemma_without_final_newlines(bytes.drop_last());
    }
}

/// Trailing newline: a text ended with one line feed ends with exactly one,
/// not none and not several. It is the text itself if that ended with one,
/// the text with a line feed added if it ended with none, and ending it so
/// a second time changes nothing.
pub proof fn lemma_one_final_newline(bytes: Seq<u8>)
    ensures
        trailing_newlines(with_one_final_newline(bytes)) == 1,
        trailing_newlines(bytes) == 1 ==> with_one_final_newline(bytes) == bytes,
        trailing_newlines(bytes) <= 1 ==> with_one_final_newline(bytes) == with_final_newline(
            bytes,
        ),
        with_one_final_newline(with_one_final_newline(bytes)) == with_one_final_newline(bytes),
{
    let stripped = without_final_newlines(bytes);
    lemma_without_final_newlines(bytes);
    let one = stripped.push(NEWLINE);
    assert(one.drop_last() == stripped);
    assert(ends_with_newline(one));
    assert(trailing_newlines(stripped) == 0);
    assert(trailing_newlines(one) == 1 + trailing_newlines(one.drop_last()));
    assert(without_final_newlines(one) == stripped) by {
        assert(without_final_newlines(one) == without_final_newlines(one.drop_last()));
    }
    if trailing_newlines(bytes) == 1 {
        assert(ends_with_newline(bytes));
        assert(trailing_newlines(bytes) == 1 + trailing_newlines(bytes.drop_last()));
        assert(!ends_with_newline(bytes.drop_last()));
        assert(without_final_newlines(bytes.drop_last()) == bytes.drop_last());
        assert(stripped == without_final_newlines(bytes.drop_last()));
        assert(bytes.drop_last().push(NEWLINE) == bytes);
    }
}

/// Adding the final line feed a second time changes nothing.
pub proof fn lemma_final_newline_idempotent(bytes: Seq<u8>)
    ensures
        with_final_newline(with_final_newline(bytes)) == with_final_newline(bytes),
{
}

/// `bytes` followed by one line feed.
pub fn insert_newline(bytes: Vec<u8>) -> (out: Vec<u8>)
    ensures
        out@ == bytes@.push(NEWLINE),
{
    let mut bytes = bytes;
    bytes.push(NEWLINE);
    bytes
}

/// Makes sure there is a line feed at the end of a buffer: a buffer that
/// ends with one is returned as it is, any other gets one appended.
pub fn add_newline_at_end_of_file(out: Vec<u8>) -> (result: Vec<u8>)
    ensures
        result@ == with_final_newline(out@),
        ends_with_newline(result@),
{
    let n = out.len();
    if n > 0 && out[n - 1] == NEWLINE {
        out
    } else {
        insert_newline(out)
    }
}

/// Ends a buffer with exactly one line feed: the line feeds at its end are
/// taken off, and one is put in their place.
pub fn end_with_one_newline(out: Vec<u8>) -> (result: Vec<u8>)
    ensures
        result@ == with_one_final_newline(out@),
{
    let mut out = out;
    let ghost whole = out@;
    while out.len() > 0 && out[out.len() - 1] == NEWLINE
        invariant
            without_final_newlines(out@) == without_final_newlines(whole),
        decreases out.len(),
    {
        let ghost before = out@;
        out.pop();
        assert(out@ == before.drop_last());
    }
    add_newline_at_end_of_file(out)
}

} // verus!
