//! Text as the platform wants it: UTF-16 code units with a terminating zero.

use vstd::prelude::*;

verus! {

/// The UTF-16 code units of one character: one unit for a character of the
/// basic plane, else a pair of surrogates.
pub open spec fn utf16_units(c: char) -> Seq<u16> {
    let code = c as u32 as int;
    if code < 0x10000 {
        seq![code as u16]
    } else {
        seq![(0xD800 + (code - 0x10000) / 0x400) as u16, (0xDC00 + (code - 0x10000) % 0x400) as u16]
    }
}

/// The UTF-16 encoding of a text.
pub open spec fn utf16(text: Seq<char>) -> Seq<u16>
    decreases text.len(),
{
    if text.len() == 0 {
        Seq::empty()
    } else {
        utf16(text.drop_last()) + utf16_units(text.last())
    }
}

/// The UTF-16 encoding of `input`, followed by a terminating zero.
pub fn wide_string(input: &str) -> (wide: Vec<u16>)
    ensures
        wide@ == utf16(input@).push(0u16),
{
    let n = input.unicode_len();
    let mut wide: Vec<u16> = Vec::new();
    let mut i: usize = 0;
    proof {
        assert(input@.subrange(0, 0) =~= Seq::<char>::empty());
    }
    while i < n
        invariant
            i <= n,
            n == input@.len(),
            wide@ == utf16(input@.subrange(0, i as int)),
        decreases n - i,
    {
        let c = input.get_char(i);
        let code: u32 = c as u32;
        let ghost before = wide@;
        if code < 0x10000 {
            wide.push(code as u16);
        } else {
            let rest: u32 = code - 0x10000;
            wide.push((0xD800 + rest / 0x400) as u16);
            wide.push((0xDC00 + rest % 0x400) as u16);
        }
        proof {
            let upto = input@.subrange(0, i + 1);
            assert(upto.drop_last() =~= input@.subrange(0, i as int));
            assert(upto.last() == c);
            assert(wide@ =~= before + utf16_units(c));
        }
        i += 1;
    }
    proof {
        assert(input@.subrange(0, n as int) =~= input@);
    }
    wide.push(0);
    wide
}

} // verus!
