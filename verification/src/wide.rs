//! Fixed-capacity, sentinel-terminated buffers of UTF-16 code units.

use vstd::prelude::*;
use vstd::slice::slice_subrange;

verus! {

/// The number of leading units of `buf` that come before the first `sentinel`,
/// or the whole length where `buf` holds none.
pub open spec fn sentinel_index(buf: Seq<u16>, sentinel: u16) -> nat
    decreases buf.len(),
{
    if buf.len() == 0 || buf[0] == sentinel {
        0
    } else {
        1 + sentinel_index(buf.drop_first(), sentinel)
    }
}

/// The units of `buf` up to its first `sentinel`, the sentinel left out. What
/// follows the sentinel is undefined filler and never read.
pub open spec fn truncated(buf: Seq<u16>, sentinel: u16) -> Seq<u16> {
    buf.take(sentinel_index(buf, sentinel) as int)
}

/// `n` cuts `buf` at its first `sentinel`: nothing before `n` is the sentinel,
/// and `n` is either the place of one or the end of the buffer.
pub open spec fn cuts_at(buf: Seq<u16>, sentinel: u16, n: int) -> bool {
    &&& 0 <= n <= buf.len()
    &&& forall|i: int| 0 <= i < n ==> buf[i] != sentinel
    &&& n < buf.len() ==> buf[n] == sentinel
}

/// The cut of a buffer is unique, and it is `sentinel_index`.
pub proof fn lemma_cut_is_sentinel_index(buf: Seq<u16>, sentinel: u16, n: int)
    ensures
        cuts_at(buf, sentinel, n) <==> n == sentinel_index(buf, sentinel),
    decreases buf.len(),
{
    if buf.len() == 0 || buf[0] == sentinel {
        if cuts_at(buf, sentinel, n) && n > 0 {
            assert(buf[0] != sentinel);
        }
    } else {
        let rest = buf.drop_first();
        lemma_cut_is_sentinel_index(rest, sentinel, n - 1);
        if cuts_at(buf, sentinel, n) {
            assert(n > 0);
            assert forall|i: int| 0 <= i < n - 1 implies rest[i] != sentinel by {
                assert(rest[i] == buf[i + 1]);
            }
            assert(cuts_at(rest, sentinel, n - 1));
        }
        if n == sentinel_index(buf, sentinel) {
            assert(cuts_at(rest, sentinel, n - 1));
            assert forall|i: int| 0 <= i < n implies buf[i] != sentinel by {
                if i > 0 {
                    assert(rest[i - 1] == buf[i]);
                }
            }
            assert(n < buf.len() ==> buf[n] == rest[n - 1]);
        }
    }
}

/// Finds where `buf` is cut: the index of its first `sentinel`, or its length.
pub fn scan_to_sentinel(buf: &[u16], sentinel: u16) -> (n: usize)
    ensures
        n == sentinel_index(buf@, sentinel),
        cuts_at(buf@, sentinel, n as int),
{
    let mut n: usize = 0;
    while n < buf.len() && buf[n] != sentinel
        invariant
            n <= buf@.len(),
            forall|i: int| 0 <= i < n ==> buf@[i] != sentinel,
        decreases buf@.len() - n,
    {
        n += 1;
    }
    proof {
        lemma_cut_is_sentinel_index(buf@, sentinel, n as int);
    }
    n
}

/// The part of `buf` before its first `sentinel`, borrowed from `buf`.
pub fn truncate_at_sentinel(buf: &[u16], sentinel: u16) -> (head: &[u16])
    ensures
        head@ == truncated(buf@, sentinel),
{
    let n = scan_to_sentinel(buf, sentinel);
    slice_subrange(buf, 0, n)
}

/// What `String::from_utf16_lossy` makes of a sequence of UTF-16 code units:
/// the decoded characters, with U+FFFD in place of data that is not valid
/// UTF-16.
pub uninterp spec fn utf16_lossy(units: Seq<u16>) -> Seq<char>;

/// Calls `String::from_utf16_lossy`. Trusted: the text that comes back is
/// `utf16_lossy` of the units handed in, and depends on nothing else.
#[verifier::external_body]
fn string_from_utf16_lossy(units: &[u16]) -> (text: String)
    ensures
        text@ == utf16_lossy(units@),
{
    String::from_utf16_lossy(units)
}

/// Decodes a null-terminated wide-character buffer: the units before the first
/// zero, read as UTF-16. A buffer without a zero is decoded whole.
pub fn decode_wide(buf: &[u16]) -> (text: String)
    ensures
        text@ == utf16_lossy(truncated(buf@, 0)),
{
    string_from_utf16_lossy(truncate_at_sentinel(buf, 0))
}

/// The UTF-16 code units of one character: itself where it fits in one unit,
/// and a surrogate pair otherwise.
pub open spec fn utf16_of_char(c: char) -> Seq<u16> {
    let n = c as u32;
    if n < 0x10000 {
        seq![n as u16]
    } else {
        seq![
            (0xD800 + (n - 0x10000) / 0x400) as u16,
            (0xDC00 + (n - 0x10000) % 0x400) as u16,
        ]
    }
}

/// The UTF-16 encoding of a text, character by character.
pub open spec fn utf16_units(text: Seq<char>) -> Seq<u16>
    decreases text.len(),
{
    if text.len() == 0 {
        Seq::empty()
    } else {
        utf16_units(text.drop_last()) + utf16_of_char(text.last())
    }
}

/// Calls `str::encode_utf16` and collects what it yields. Trusted: the units
/// are the UTF-16 encoding of the text, without a byte-order mark.
#[verifier::external_body]
fn str_encode_utf16(text: &str) -> (units: Vec<u16>)
    ensures
        units@ == utf16_units(text@),
{
    text.encode_utf16().collect()
}

/// Encodes a text as a null-terminated wide-character buffer: its UTF-16
/// code units and one zero after them.
pub fn encode_wide(text: &str) -> (buf: Vec<u16>)
    ensures
        buf@ == utf16_units(text@).push(0),
{
    let mut buf = str_encode_utf16(text);
    buf.push(0);
    buf
}

proof fn lemma_char_units_are_not_null(c: char)
    requires
        c as u32 != 0,
    ensures
        forall|j: int| 0 <= j < utf16_of_char(c).len() ==> utf16_of_char(c)[j] != 0,
{
    let n = c as u32;
    if n >= 0x10000 {
        let high = 0xD800 + (n - 0x10000) / 0x400;
        let low = 0xDC00 + (n - 0x10000) % 0x400;
        assert(n <= 0x10FFFF);
        assert(0xD800 <= high <= 0xDBFF);
        assert(0xDC00 <= low <= 0xDFFF);
        assert(utf16_of_char(c)[0] == high as u16);
        assert(utf16_of_char(c)[1] == low as u16);
    } else {
        assert(utf16_of_char(c)[0] == n as u16);
    }
}

proof fn lemma_units_are_not_null(text: Seq<char>)
    requires
        forall|i: int| 0 <= i < text.len() ==> text[i] as u32 != 0,
    ensures
        forall|j: int| 0 <= j < utf16_units(text).len() ==> utf16_units(text)[j] != 0,
    decreases text.len(),
{
    if text.len() > 0 {
        let head = text.drop_last();
        assert forall|i: int| 0 <= i < head.len() implies head[i] as u32 != 0 by {
            assert(head[i] == text[i]);
        }
        lemma_units_are_not_null(head);
        lemma_char_units_are_not_null(text.last());
        let front = utf16_units(head);
        let back = utf16_of_char(text.last());
        assert forall|j: int| 0 <= j < utf16_units(text).len() implies utf16_units(text)[j]
            != 0 by {
            if j < front.len() {
                assert(utf16_units(text)[j] == front[j]);
            } else {
                assert(utf16_units(text)[j] == back[j - front.len()]);
            }
        }
    }
}

/// A text without a null character, encoded as a wide buffer, is cut at the
/// zero that ends it: what stands before the cut is the text's encoding, all
/// of it.
pub proof fn lemma_encoded_text_is_terminated(text: Seq<char>)
    requires
        forall|i: int| 0 <= i < text.len() ==> text[i] as u32 != 0,
    ensures
        truncated(utf16_units(text).push(0), 0) == utf16_units(text),
{
    let units = utf16_units(text);
    let buf = units.push(0);
    lemma_units_are_not_null(text);
    assert(cuts_at(buf, 0, units.len() as int));
    lemma_cut_is_sentinel_index(buf, 0, units.len() as int);
    assert(buf.take(units.len() as int) =~= units);
}

} // verus!
