//! Widening of text to null-terminated UTF-16, the form the OS shell and
//! window interfaces expect for tooltips, menu labels, captions and class
//! names.

use vstd::prelude::*;

verus! {

/// The UTF-16 code units of one character: a single unit for a character in
/// the basic multilingual plane, a surrogate pair above it.
pub open spec fn utf16_units(c: char) -> Seq<u16> {
    if (c as u32) < 0x10000 {
        seq![(c as u32) as u16]
    } else {
        seq![
            (0xD800 + ((c as u32 - 0x10000) / 0x400)) as u16,
            (0xDC00 + ((c as u32 - 0x10000) % 0x400)) as u16,
        ]
    }
}

/// The UTF-16 code units of a whole string, without a terminator.
pub open spec fn wide_of(s: Seq<char>) -> Seq<u16>
    decreases s.len(),
{
    if s.len() == 0 {
        Seq::empty()
    } else {
        utf16_units(s[0]) + wide_of(s.drop_first())
    }
}

/// Widening a string grown by one character appends that character's units.
pub proof fn lemma_wide_of_push(s: Seq<char>, c: char)
    ensures
        wide_of(s.push(c)) == wide_of(s) + utf16_units(c),
    decreases s.len(),
{
    if s.len() == 0 {
        assert(s.push(c)[0] == c);
        assert(s.push(c).drop_first() =~= Seq::<char>::empty());
        assert(wide_of(s.push(c)) == utf16_units(c) + wide_of(Seq::<char>::empty()));
        assert(wide_of(s.push(c)) =~= wide_of(s) + utf16_units(c));
    } else {
        assert(s.push(c)[0] == s[0]);
        assert(s.push(c).drop_first() =~= s.drop_first().push(c));
        lemma_wide_of_push(s.drop_first(), c);
        assert(wide_of(s.push(c)) == utf16_units(s[0]) + (wide_of(s.drop_first()) + utf16_units(c)));
        assert(wide_of(s.push(c)) =~= wide_of(s) + utf16_units(c));
    }
}

/// Converts a string to its null-terminated UTF-16 form.
pub fn to_wide(s: &str) -> (r: Vec<u16>)
    ensures
        r@ == wide_of(s@).push(0u16),
{
    let n = s.unicode_len();
    let mut r: Vec<u16> = Vec::new();
    let mut i: usize = 0;
    while i < n
        invariant
            n == s@.len(),
            i <= n,
            r@ == wide_of(s@.take(i as int)),
        decreases n - i,
    {
        let c = s.get_char(i);
        proof {
            lemma_wide_of_push(s@.take(i as int), c);
            assert(s@.take(i as int).push(c) =~= s@.take(i as int + 1));
        }
        let u = c as u32;
        if u < 0x10000 {
            r.push(u as u16);
        } else {
            r.push((0xD800 + (u - 0x10000) / 0x400) as u16);
            r.push((0xDC00 + (u - 0x10000) % 0x400) as u16);
        }
        i = i + 1;
    }
    proof {
        assert(s@.take(n as int) =~= s@);
    }
    r.push(0u16);
    r
}

} // verus!
