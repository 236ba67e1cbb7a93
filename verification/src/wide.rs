//! UTF-16 encoding of text, as the wide-character Win32 calls expect it.
use vstd::prelude::*;

verus! {

/// The UTF-16 code units of one character: one unit below `0x10000`, a
/// surrogate pair above.
pub open spec fn utf16_char(c: char) -> Seq<u16> {
    let n = c as u32 as int;
    if n < 0x10000 {
        seq![n as u16]
    } else {
        let m = n - 0x10000;
        seq![(0xD800 + m / 0x400) as u16, (0xDC00 + m % 0x400) as u16]
    }
}

/// The UTF-16 encoding of a character sequence.
pub open spec fn utf16(s: Seq<char>) -> Seq<u16>
    decreases s.len(),
{
    if s.len() == 0 {
        Seq::empty()
    } else {
        utf16(s.drop_last()) + utf16_char(s.last())
    }
}

/// Encoding a sequence extended by one character extends its encoding by the
/// encoding of that character.
pub proof fn lemma_utf16_push(s: Seq<char>, c: char)
    ensures
        utf16(s.push(c)) == utf16(s) + utf16_char(c),
{
    assert(s.push(c).drop_last() =~= s);
}

/// Appends the UTF-16 encoding of `c` to `out`.
pub fn push_utf16(out: &mut Vec<u16>, c: char)
    ensures
        final(out)@ == old(out)@ + utf16_char(c),
{
    let n = c as u32;
    if n < 0x10000 {
        out.push(n as u16);
        proof {
            assert(final(out)@ =~= old(out)@ + utf16_char(c));
        }
    } else {
        let m = n - 0x10000;
        assert(m < 0x100000);
        out.push((0xD800 + m / 0x400) as u16);
        out.push((0xDC00 + m % 0x400) as u16);
        proof {
            assert(final(out)@ =~= old(out)@ + utf16_char(c));
        }
    }
}

/// Appends the UTF-16 encoding of `s` to `out`.
pub fn extend_utf16(out: &mut Vec<u16>, s: &str)
    ensures
        final(out)@ == old(out)@ + utf16(s@),
{
    let n = s.unicode_len();
    let mut i: usize = 0;
    while i < n
        invariant
            n == s@.len(),
            i <= n,
            out@ == old(out)@ + utf16(s@.take(i as int)),
        decreases n - i,
    {
        let c = s.get_char(i);
        push_utf16(out, c);
        proof {
            assert(s@.take(i + 1) =~= s@.take(i as int).push(c));
            lemma_utf16_push(s@.take(i as int), c);
        }
        i = i + 1;
    }
    proof {
        assert(s@.take(n as int) =~= s@);
    }
}

/// Converts text to a null-terminated UTF-16 buffer.
pub fn to_wide_null(s: &str) -> (w: Vec<u16>)
    ensures
        w@ == utf16(s@).push(0),
{
    let mut w = Vec::new();
    extend_utf16(&mut w, s);
    w.push(0);
    proof {
        assert(w@ =~= utf16(s@).push(0));
    }
    w
}

} // verus!
