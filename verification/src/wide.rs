//! UEFI strings: UTF-16 code units ending in a single NUL.

use vstd::prelude::*;

verus! {

/// The UTF-16 code units of one character: the character itself when it lies in the
/// basic multilingual plane, a surrogate pair otherwise.
pub open spec fn char_units(c: char) -> Seq<u16> {
    let v = c as u32;
    if v < 0x10000 {
        seq![v as u16]
    } else {
        seq![(0xD800 + (v - 0x10000) / 0x400) as u16, (0xDC00 + (v - 0x10000) % 0x400) as u16]
    }
}

/// The UTF-16 encoding of a character sequence.
pub open spec fn utf16(s: Seq<char>) -> Seq<u16>
    decreases s.len(),
{
    if s.len() == 0 {
        Seq::empty()
    } else {
        utf16(s.drop_last()) + char_units(s.last())
    }
}

/// A character sequence as a UEFI string: its UTF-16 encoding followed by a NUL unit.
pub open spec fn wide(s: Seq<char>) -> Seq<u16> {
    utf16(s).push(0u16)
}

/// A sequence of code units is a UEFI string: it ends in a NUL unit and holds no other.
pub open spec fn is_nul_terminated(units: Seq<u16>) -> bool {
    &&& units.len() > 0
    &&& units.last() == 0
    &&& forall|i: int| 0 <= i < units.len() - 1 ==> units[i] != 0
}

/// A character sequence holds no NUL character.
pub open spec fn has_no_nul(s: Seq<char>) -> bool {
    forall|i: int| 0 <= i < s.len() ==> s[i] != '\0'
}

/// Encodes a string as a NUL-terminated UTF-16 UEFI string.
pub fn w(s: &str) -> (r: Vec<u16>)
    ensures
        r@ == wide(s@),
{
    let mut units: Vec<u16> = Vec::new();
    for c in it: s.chars()
        invariant
            it.seq() == s@,
            units@ == utf16(s@.take(it.index() as int)),
    {
        let ghost before = units@;
        proof {
            assert(s@.take(it.index() + 1).drop_last() =~= s@.take(it.index() as int));
            assert(c == s@[it.index() as int]);
        }
        let code = c as u32;
        assert(code == c as u32);
        if code < 0x10000 {
            units.push(code as u16);
        } else {
            let v = code - 0x10000;
            units.push((0xD800 + v / 0x400) as u16);
            units.push((0xDC00 + v % 0x400) as u16);
        }
        assert(units@ == before + char_units(c));
    }
    proof {
        assert(s@.take(s@.len() as int) =~= s@);
    }
    units.push(0);
    units
}

proof fn lemma_char_units_nonzero(c: char)
    requires
        c != '\0',
    ensures
        forall|i: int| 0 <= i < char_units(c).len() ==> char_units(c)[i] != 0,
{
    vstd::utf8::char_u32_cast(c, c as u32);
    assert(c as u32 != 0) by {
        if c as u32 == 0 {
            assert((0u32 as char) == '\0');
        }
    }
}

proof fn lemma_utf16_nonzero(s: Seq<char>)
    requires
        forall|i: int| 0 <= i < s.len() ==> s[i] != '\0',
    ensures
        forall|i: int| 0 <= i < utf16(s).len() ==> utf16(s)[i] != 0,
    decreases s.len(),
{
    if s.len() > 0 {
        lemma_utf16_nonzero(s.drop_last());
        lemma_char_units_nonzero(s.last());
        let head = utf16(s.drop_last());
        let tail = char_units(s.last());
        assert forall|i: int| 0 <= i < utf16(s).len() implies utf16(s)[i] != 0 by {
            if i < head.len() {
                assert(utf16(s)[i] == head[i]);
            } else {
                assert(utf16(s)[i] == tail[i - head.len()]);
            }
        }
    }
}

/// A string without NUL characters becomes a well-formed UEFI string: the firmware,
/// reading up to the first NUL unit, sees exactly the encoded text.
pub proof fn lemma_wide_is_nul_terminated(s: Seq<char>)
    requires
        has_no_nul(s),
    ensures
        is_nul_terminated(wide(s)),
        wide(s).len() >= s.len() + 1,
{
    lemma_utf16_nonzero(s);
    lemma_utf16_len(s);
}

proof fn lemma_utf16_len(s: Seq<char>)
    ensures
        s.len() <= utf16(s).len() <= 2 * s.len(),
    decreases s.len(),
{
    if s.len() > 0 {
        lemma_utf16_len(s.drop_last());
    }
}

/// In the basic multilingual plane each character is one code unit, its own value.
pub proof fn lemma_utf16_bmp(s: Seq<char>)
    requires
        forall|i: int| 0 <= i < s.len() ==> (s[i] as u32) < 0x10000,
    ensures
        utf16(s).len() == s.len(),
        forall|i: int| 0 <= i < s.len() ==> utf16(s)[i] == s[i] as u32 as u16,
    decreases s.len(),
{
    if s.len() > 0 {
        lemma_utf16_bmp(s.drop_last());
        assert forall|i: int| 0 <= i < s.len() implies utf16(s)[i] == s[i] as u32 as u16 by {
            if i < s.len() - 1 {
                assert(s.drop_last()[i] == s[i]);
            }
        }
    }
}

/// A character in the basic multilingual plane is one code unit, its own value; any
/// other character is a high surrogate followed by a low surrogate, which together give
/// the character back.
pub proof fn lemma_char_units_decode(c: char)
    ensures
        (c as u32) < 0x10000 ==> char_units(c) == seq![(c as u32) as u16],
        (c as u32) >= 0x10000 ==> {
            &&& char_units(c).len() == 2
            &&& 0xD800 <= char_units(c)[0] < 0xDC00
            &&& 0xDC00 <= char_units(c)[1] < 0xE000
            &&& (char_units(c)[0] - 0xD800) * 0x400 + (char_units(c)[1] - 0xDC00) + 0x10000 == (c as u32)
        },
{
    vstd::utf8::char_is_scalar(c);
}

/// Encoding distributes over concatenation: the units of `a + b` are those of `a`
/// followed by those of `b`; a single character is encoded as its own units.
pub proof fn lemma_utf16_concat(a: Seq<char>, b: Seq<char>)
    ensures
        utf16(a + b) == utf16(a) + utf16(b),
    decreases b.len(),
{
    if b.len() == 0 {
        assert(a + b =~= a);
        assert(utf16(a) + utf16(b) =~= utf16(a));
    } else {
        lemma_utf16_concat(a, b.drop_last());
        assert((a + b).drop_last() =~= a + b.drop_last());
        assert((a + b).last() == b.last());
        assert(utf16(a) + utf16(b) =~= utf16(a) + utf16(b.drop_last()) + char_units(b.last()));
    }
}

/// A single character is encoded as its own units.
pub proof fn lemma_utf16_single(c: char)
    ensures
        utf16(seq![c]) == char_units(c),
{
    let one = seq![c];
    assert(one.len() == 1);
    assert(one.last() == c);
    assert(one.drop_last() =~= Seq::<char>::empty());
    assert(utf16(Seq::<char>::empty()) == Seq::<u16>::empty());
    assert(utf16(one) == utf16(one.drop_last()) + char_units(c));
    assert(Seq::<u16>::empty() + char_units(c) =~= char_units(c));
}

} // verus!
