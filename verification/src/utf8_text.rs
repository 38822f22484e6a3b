//! What the final line feed of a byte text means for the text it encodes.

use vstd::prelude::*;
use vstd::utf8::{
    decode_utf8, decode_utf8_encode_utf8, encode_scalar, encode_utf8, encode_utf8_decode_utf8,
    is_char_boundary, is_char_boundary_iff_not_is_continuation_byte, is_continuation_byte,
    valid_utf8, valid_utf8_split,
};
use crate::postprocess::{
    ends_with_newline, lemma_without_final_newlines, with_one_final_newline,
    without_final_newlines,
};
use crate::text::NEWLINE;

verus! {

/// Whether a text ends with exactly one line feed, not none and not
/// several.
pub open spec fn ends_with_one_line_feed(text: Seq<char>) -> bool {
    &&& text.len() > 0
    &&& text.last() == '\n'
    &&& text.len() >= 2 ==> text[text.len() - 2] != '\n'
}

/// A line feed is encoded as the one byte `10`.
pub proof fn lemma_line_feed_byte()
    ensures
        encode_scalar('\n' as u32) == seq![NEWLINE],
{
    assert('\n' as u32 == 10u32);
    assert(encode_scalar(10u32) =~= seq![10u8]) by {
        assert(vstd::utf8::has_width_1_encoding(10u32));
        assert(vstd::utf8::leading_byte_width_1(10u32) == 10u8) by {
            assert((10u32 & 0x7F) as u8 == 10u8) by (bit_vector);
        }
    }
}

/// The encoding of a text with one more character is the encoding of the
/// text followed by the encoding of the character.
pub proof fn lemma_encode_push(chars: Seq<char>, c: char)
    ensures
        encode_utf8(chars.push(c)) == encode_utf8(chars) + encode_scalar(c as u32),
    decreases chars.len(),
{
    if chars.len() == 0 {
        assert(chars.push(c).drop_first() =~= Seq::<char>::empty());
        assert(encode_utf8(Seq::<char>::empty()) =~= Seq::<u8>::empty());
        assert(encode_utf8(chars.push(c)) =~= encode_scalar(c as u32));
        assert(encode_utf8(chars) + encode_scalar(c as u32) =~= encode_scalar(c as u32));
    } else {
        lemma_encode_push(chars.drop_first(), c);
        assert(chars.push(c).drop_first() =~= chars.drop_first().push(c));
        assert(chars.push(c)[0] == chars[0]);
        assert(encode_utf8(chars.push(c)) =~= encode_utf8(chars) + encode_scalar(c as u32));
    }
}

/// Valid bytes that end with a line feed decode to what the bytes before it
/// decode to, followed by a line feed; and those bytes are valid.
pub proof fn lemma_decode_final_line_feed(bytes: Seq<u8>)
    requires
        valid_utf8(bytes.push(NEWLINE)),
    ensures
        valid_utf8(bytes),
        decode_utf8(bytes.push(NEWLINE)) == decode_utf8(bytes).push('\n'),
{
    let whole = bytes.push(NEWLINE);
    let at = bytes.len() as int;
    assert(!is_continuation_byte(whole[at]));
    is_char_boundary_iff_not_is_continuation_byte(whole, at);
    assert(is_char_boundary(whole, at));
    valid_utf8_split(whole, at);
    assert(whole.subrange(0, at) =~= bytes);
    decode_utf8_encode_utf8(bytes);
    lemma_encode_push(decode_utf8(bytes), '\n');
    lemma_line_feed_byte();
    assert(encode_utf8(decode_utf8(bytes).push('\n')) =~= whole);
    encode_utf8_decode_utf8(decode_utf8(bytes).push('\n'));
}

/// Valid bytes whose text ends with a line feed end with the byte of a line
/// feed.
pub proof fn lemma_final_line_feed_byte(bytes: Seq<u8>)
    requires
        valid_utf8(bytes),
        decode_utf8(bytes).len() > 0,
        decode_utf8(bytes).last() == '\n',
    ensures
        ends_with_newline(bytes),
{
    let text = decode_utf8(bytes);
    decode_utf8_encode_utf8(bytes);
    assert(text.drop_last().push('\n') =~= text);
    lemma_encode_push(text.drop_last(), '\n');
    lemma_line_feed_byte();
    assert(bytes == encode_utf8(text.drop_last()) + seq![NEWLINE]);
}

/// Trailing newline: the text of bytes that were ended with one line feed
/// ends with exactly one line feed.
pub proof fn lemma_text_ends_with_one_line_feed(bytes: Seq<u8>)
    requires
        valid_utf8(with_one_final_newline(bytes)),
    ensures
        ends_with_one_line_feed(decode_utf8(with_one_final_newline(bytes))),
{
    let body = without_final_newlines(bytes);
    lemma_without_final_newlines(bytes);
    lemma_decode_final_line_feed(body);
    let text = decode_utf8(body);
    if text.len() > 0 && text.last() == '\n' {
        lemma_final_line_feed_byte(body);
    }
    assert(text.push('\n')[text.len() as int] == '\n');
    if text.len() > 0 {
        assert(text.push('\n')[text.len() - 1] == text.last());
    }
}

} // verus!
