//! Monitor device identifiers: opaque strings, compared letter for letter.
//! One that is empty or holds nothing but white space names no monitor.

use vstd::prelude::*;

verus! {

/// Whether `c` has the Unicode property White_Space: the ASCII blanks and
/// line controls, NEL, the no-break spaces, the Ogham space mark, the
/// typographic spaces, the line and paragraph separators, and the
/// ideographic space.
pub open spec fn is_white_space(c: char) -> bool {
    let n = c as u32;
    ||| 0x0009 <= n <= 0x000D
    ||| n == 0x0020
    ||| n == 0x0085
    ||| n == 0x00A0
    ||| n == 0x1680
    ||| 0x2000 <= n <= 0x200A
    ||| n == 0x2028
    ||| n == 0x2029
    ||| n == 0x202F
    ||| n == 0x205F
    ||| n == 0x3000
}

/// An identifier is blank when every character of it is white space; the
/// empty identifier is blank.
pub open spec fn is_blank(id: Seq<char>) -> bool {
    forall|i: int| 0 <= i < id.len() ==> is_white_space(#[trigger] id[i])
}

/// Tests one character for the White_Space property.
pub fn is_white_space_char(c: char) -> (white: bool)
    ensures
        white == is_white_space(c),
{
    let n: u32 = c as u32;
    (0x0009 <= n && n <= 0x000D) || n == 0x0020 || n == 0x0085 || n == 0x00A0 || n == 0x1680 || (
    0x2000 <= n && n <= 0x200A) || n == 0x2028 || n == 0x2029 || n == 0x202F || n == 0x205F || n
        == 0x3000
}

/// Tests whether an identifier is blank, and so never eligible for a match.
pub fn is_blank_id(id: &str) -> (blank: bool)
    ensures
        blank == is_blank(id@),
{
    let len: usize = id.unicode_len();
    let mut i: usize = 0;
    while i < len
        invariant
            len == id@.len(),
            i <= len,
            forall|j: int| 0 <= j < i ==> is_white_space(#[trigger] id@[j]),
        decreases len - i,
    {
        if !is_white_space_char(id.get_char(i)) {
            return false;
        }
        i += 1;
    }
    true
}

} // verus!
