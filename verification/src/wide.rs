//! UTF-16 text, as the Windows API takes it.
use vstd::prelude::*;

use crate::text::chars_of;

verus! {

/// The UTF-16 code units of one character: the character itself below
/// U+10000, else a high and a low surrogate.
pub open spec fn utf16_of_char(c: char) -> Seq<u16> {
    let n = c as u32;
    if n < 0x10000 {
        seq![n as u16]
    } else {
        let m = n - 0x10000;
        seq![(0xD800 + m / 0x400) as u16, (0xDC00 + m % 0x400) as u16]
    }
}

/// The UTF-16 code units of a text (`str::encode_utf16`).
pub open spec fn utf16(t: Seq<char>) -> Seq<u16>
    decreases t.len(),
{
    if t.len() == 0 {
        Seq::empty()
    } else {
        utf16(t.drop_last()) + utf16_of_char(t.last())
    }
}

/// The UTF-16 code units of `s`.
pub fn encode_utf16(s: &str) -> (v: Vec<u16>)
    ensures
        v@ == utf16(s@),
{
    let chars = chars_of(s);
    let mut v: Vec<u16> = Vec::new();
    let mut i: usize = 0;
    while i < chars.len()
        invariant
            i <= chars.len(),
            chars@ == s@,
            v@ == utf16(chars@.take(i as int)),
        decreases chars.len() - i,
    {
        let c = chars[i];
        proof {
            vstd::utf8::char_is_scalar(c);
        }
        let n = c as u32;
        if n < 0x10000 {
            v.push(n as u16);
        } else {
            let m = n - 0x10000;
            assert(m / 0x400 < 0x400) by {
                assert(m < 0x100000);
            }
            v.push((0xD800 + m / 0x400) as u16);
            v.push((0xDC00 + m % 0x400) as u16);
        }
        proof {
            assert(chars@.take(i + 1).drop_last() =~= chars@.take(i as int));
            assert(v@ =~= utf16(chars@.take(i as int)) + utf16_of_char(c));
        }
        i = i + 1;
    }
    assert(chars@.take(i as int) =~= s@);
    v
}

/// The UTF-16 code units of `s`, ended by a 0 unit.
pub fn wide_null(s: &str) -> (v: Vec<u16>)
    ensures
        v@ == utf16(s@).push(0),
{
    let mut v = encode_utf16(s);
    v.push(0);
    v
}

} // verus!
