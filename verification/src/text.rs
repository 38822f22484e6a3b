//! Byte-level helpers shared by the scanner and the renderer.

use vstd::prelude::*;
use vstd::slice::slice_subrange;

verus! {

pub const TAB: u8 = 9;

pub const NEWLINE: u8 = 10;

pub const FORM_FEED: u8 = 12;

pub const CARRIAGE_RETURN: u8 = 13;

pub const SPACE: u8 = 32;

pub const DOUBLE_QUOTE: u8 = 34;

pub const HASH: u8 = 35;

pub const SINGLE_QUOTE: u8 = 39;

pub const OPEN_PAREN: u8 = 40;

pub const DIGIT_ZERO: u8 = 48;

pub const AT_SIGN: u8 = 64;

pub const OPEN_BRACKET: u8 = 91;

pub const BACKSLASH: u8 = 92;

pub const CARET: u8 = 94;

pub const OPEN_BRACE: u8 = 123;

pub const PIPE: u8 = 124;

/// The ASCII whitespace bytes: space, tab, line feed, form feed, carriage
/// return.
pub open spec fn is_whitespace(b: u8) -> bool {
    b == SPACE || b == TAB || b == NEWLINE || b == FORM_FEED || b == CARRIAGE_RETURN
}

pub fn is_ascii_whitespace(b: u8) -> (r: bool)
    ensures
        r == is_whitespace(b),
{
    b == SPACE || b == TAB || b == NEWLINE || b == FORM_FEED || b == CARRIAGE_RETURN
}

/// Whether every byte of `s` is ASCII whitespace.
pub open spec fn all_whitespace(s: Seq<u8>) -> bool {
    forall|i: int| 0 <= i < s.len() ==> is_whitespace(#[trigger] s[i])
}

/// The index of the first byte of `s` that is no whitespace, `s.len()` where
/// there is none.
pub open spec fn trim_start_index(s: Seq<u8>) -> int
    decreases s.len(),
{
    if s.len() > 0 && is_whitespace(s[0]) {
        1 + trim_start_index(s.drop_first())
    } else {
        0
    }
}

/// The index after the last byte of `s` that is no whitespace, `0` where there
/// is none.
pub open spec fn trim_end_index(s: Seq<u8>) -> int
    decreases s.len(),
{
    if s.len() > 0 && is_whitespace(s.last()) {
        trim_end_index(s.drop_last())
    } else {
        s.len() as int
    }
}

/// `s` without its leading and trailing whitespace.
pub open spec fn trimmed(s: Seq<u8>) -> Seq<u8> {
    if trim_start_index(s) >= trim_end_index(s) {
        Seq::empty()
    } else {
        s.subrange(trim_start_index(s), trim_end_index(s))
    }
}

/// `trim_start_index` counts exactly the leading whitespace.
pub proof fn lemma_trim_start_index(s: Seq<u8>, k: int)
    requires
        0 <= k <= s.len(),
        all_whitespace(s.subrange(0, k)),
        k == s.len() || !is_whitespace(s[k]),
    ensures
        trim_start_index(s) == k,
    decreases k,
{
    if k == 0 {
    } else {
        assert(s.subrange(0, k)[0] == s[0]);
        let t = s.drop_first();
        assert forall|i: int| 0 <= i < k - 1 implies is_whitespace(
            #[trigger] t.subrange(0, k - 1)[i],
        ) by {
            assert(t.subrange(0, k - 1)[i] == s.subrange(0, k)[i + 1]);
        }
        lemma_trim_start_index(t, k - 1);
    }
}

/// `trim_end_index` stops exactly behind the last byte that is no whitespace.
pub proof fn lemma_trim_end_index(s: Seq<u8>, k: int)
    requires
        0 <= k <= s.len(),
        all_whitespace(s.subrange(k, s.len() as int)),
        k == 0 || !is_whitespace(s[k - 1]),
    ensures
        trim_end_index(s) == k,
    decreases s.len() - k,
{
    if k == s.len() {
    } else {
        let n = s.len() as int;
        assert(s.subrange(k, n)[n - 1 - k] == s[n - 1]);
        let t = s.drop_last();
        assert forall|i: int| 0 <= i < n - 1 - k implies is_whitespace(
            #[trigger] t.subrange(k, n - 1)[i],
        ) by {
            assert(t.subrange(k, n - 1)[i] == s.subrange(k, n)[i]);
        }
        lemma_trim_end_index(t, k);
    }
}

/// Strips the whitespace at both ends of a sequence of bytes. A sequence of
/// whitespace alone gives the empty sequence.
pub fn trim_ascii_whitespace(x: &[u8]) -> (out: &[u8])
    ensures
        out@ == trimmed(x@),
{
    let n = x.len();
    let mut from: usize = 0;
    while from < n && is_ascii_whitespace(x[from])
        invariant
            from <= n,
            n == x@.len(),
            all_whitespace(x@.subrange(0, from as int)),
        decreases n - from,
    {
        from += 1;
    }
    let mut to: usize = n;
    while to > 0 && is_ascii_whitespace(x[to - 1])
        invariant
            to <= n,
            n == x@.len(),
            all_whitespace(x@.subrange(to as int, n as int)),
        decreases to,
    {
        to -= 1;
        assert forall|i: int| 0 <= i < n - to implies is_whitespace(
            #[trigger] x@.subrange(to as int, n as int)[i],
        ) by {
            if i > 0 {
                assert(x@.subrange(to as int, n as int)[i] == x@.subrange(to + 1, n as int)[i - 1]);
            }
        }
    }
    proof {
        lemma_trim_start_index(x@, from as int);
        lemma_trim_end_index(x@, to as int);
    }
    if from >= to {
        slice_subrange(x, 0, 0)
    } else {
        slice_subrange(x, from, to)
    }
}

/// The least index `i >= from` with `s[i] == b`, `s.len()` where there is
/// none.
pub open spec fn index_of_from(s: Seq<u8>, from: int, b: u8) -> int
    decreases s.len() - from,
{
    if from < 0 || from >= s.len() {
        s.len() as int
    } else if s[from] == b {
        from
    } else {
        index_of_from(s, from + 1, b)
    }
}

/// `index_of_from` is the first occurrence: no byte between `from` and it
/// equals `b`, and the byte at it does unless it is `s.len()`.
pub proof fn lemma_index_of_from(s: Seq<u8>, from: int, b: u8)
    requires
        0 <= from <= s.len(),
    ensures
        from <= index_of_from(s, from, b) <= s.len(),
        index_of_from(s, from, b) < s.len() ==> s[index_of_from(s, from, b)] == b,
        forall|j: int| from <= j < index_of_from(s, from, b) ==> s[j] != b,
    decreases s.len() - from,
{
    if from < s.len() && s[from] != b {
        lemma_index_of_from(s, from + 1, b);
    }
}

/// Finds the first `b` in `bytes` at or after `from`; the length of `bytes`
/// when there is none.
pub fn find_byte(bytes: &[u8], from: usize, b: u8) -> (at: usize)
    ensures
        at == index_of_from(bytes@, from as int, b),
        from <= bytes@.len() ==> from <= at <= bytes@.len(),
{
    let n = bytes.len();
    if from >= n {
        return n;
    }
    let mut i: usize = from;
    while i < n && bytes[i] != b
        invariant
            from <= i <= n,
            n == bytes@.len(),
            index_of_from(bytes@, from as int, b) == index_of_from(bytes@, i as int, b),
        decreases n - i,
    {
        i += 1;
    }
    i
}

/// Whether two byte strings are the same.
pub fn bytes_equal(a: &[u8], b: &[u8]) -> (same: bool)
    ensures
        same == (a@ == b@),
{
    if a.len() != b.len() {
        return false;
    }
    let mut i: usize = 0;
    while i < a.len()
        invariant
            i <= a@.len(),
            a@.len() == b@.len(),
            a@.subrange(0, i as int) == b@.subrange(0, i as int),
        decreases a.len() - i,
    {
        if a[i] != b[i] {
            assert(a@[i as int] != b@[i as int]);
            return false;
        }
        i += 1;
        assert(a@.subrange(0, i as int) == a@.subrange(0, i - 1).push(a@[i - 1]));
        assert(b@.subrange(0, i as int) == b@.subrange(0, i - 1).push(b@[i - 1]));
    }
    assert(a@ == a@.subrange(0, i as int));
    assert(b@ == b@.subrange(0, i as int));
    true
}

/// Appends `bytes` to `out`.
pub fn append(out: &mut Vec<u8>, bytes: &[u8])
    ensures
        final(out)@ == old(out)@ + bytes@,
{
    let mut i: usize = 0;
    while i < bytes.len()
        invariant
            i <= bytes@.len(),
            out@ == old(out)@ + bytes@.subrange(0, i as int),
        decreases bytes.len() - i,
    {
        out.push(bytes[i]);
        i += 1;
        assert(bytes@.subrange(0, i as int) == bytes@.subrange(0, i - 1).push(bytes@[i - 1]));
    }
    assert(bytes@.subrange(0, i as int) == bytes@);
}

/// The decimal digits of `n`, most significant first.
pub open spec fn decimal_digits(n: nat) -> Seq<u8>
    decreases n,
{
    if n < 10 {
        seq![(DIGIT_ZERO + n) as u8]
    } else {
        decimal_digits(n / 10).push((DIGIT_ZERO + n % 10) as u8)
    }
}

/// Appends `n` in decimal to `out`.
pub fn append_decimal(out: &mut Vec<u8>, n: usize)
    ensures
        final(out)@ == old(out)@ + decimal_digits(n as nat),
    decreases n,
{
    if n >= 10 {
        append_decimal(out, n / 10);
        let digit: u8 = (n % 10) as u8;
        out.push(DIGIT_ZERO + digit);
        assert(out@ == old(out)@ + decimal_digits(n as nat));
    } else {
        let digit: u8 = n as u8;
        out.push(DIGIT_ZERO + digit);
        assert(out@ == old(out)@ + decimal_digits(n as nat));
    }
}

/// `count` spaces.
pub open spec fn spaces(count: nat) -> Seq<u8> {
    Seq::new(count, |i: int| SPACE)
}

} // verus!
