//! NUL-terminated UTF-16 strings for the Windows API.
use vstd::prelude::*;

verus! {

/// The UTF-16 code units of one character: one unit below U+10000, otherwise
/// a high and a low surrogate.
pub open spec fn utf16_units(c: char) -> Seq<u16> {
    let v = c as u32;
    if v < 0x10000 {
        seq![v as u16]
    } else {
        let w = v - 0x10000;
        seq![(0xD800 + w / 0x400) as u16, (0xDC00 + w % 0x400) as u16]
    }
}

/// The UTF-16 encoding of a character sequence.
pub open spec fn encode_utf16(s: Seq<char>) -> Seq<u16>
    decreases s.len(),
{
    if s.len() == 0 {
        Seq::empty()
    } else {
        encode_utf16(s.drop_last()) + utf16_units(s.last())
    }
}

/// The UTF-16 encoding of `s` followed by a terminating NUL unit.
pub fn encode_wide(s: &str) -> (r: Vec<u16>)
    ensures
        r@ == encode_utf16(s@).push(0),
{
    let chars = crate::text::chars_of(s);
    let mut r: Vec<u16> = Vec::new();
    let mut i: usize = 0;
    while i < chars.len()
        invariant
            chars@ == s@,
            i <= chars@.len(),
            r@ == encode_utf16(s@.subrange(0, i as int)),
        decreases chars.len() - i,
    {
        let c = chars[i];
        let v = c as u32;
        proof {
            vstd::utf8::char_is_scalar(c);
        }
        if v < 0x10000 {
            r.push(v as u16);
        } else {
            let w = v - 0x10000;
            r.push((0xD800 + w / 0x400) as u16);
            r.push((0xDC00 + w % 0x400) as u16);
        }
        assert(s@.subrange(0, i + 1).drop_last() =~= s@.subrange(0, i as int));
        i = i + 1;
        assert(r@ =~= encode_utf16(s@.subrange(0, i as int)));
    }
    assert(s@.subrange(0, chars@.len() as int) =~= s@);
    r.push(0);
    r
}

/// A string of characters below U+10000 (ASCII among them) encodes to one
/// unit per character, holding the character's code.
pub proof fn lemma_basic_plane_one_unit_each(s: Seq<char>)
    requires
        forall|i: int| 0 <= i < s.len() ==> (#[trigger] s[i]) as u32 <= 0xFFFF,
    ensures
        encode_utf16(s).len() == s.len(),
        forall|i: int| 0 <= i < s.len() ==> encode_utf16(s)[i] == (#[trigger] s[i]) as u32,
    decreases s.len(),
{
    if s.len() > 0 {
        let t = s.drop_last();
        assert forall|i: int| 0 <= i < t.len() implies (#[trigger] t[i]) as u32 <= 0xFFFF by {
            assert(t[i] == s[i]);
        }
        lemma_basic_plane_one_unit_each(t);
        let last = s.last();
        assert(last as u32 <= 0xFFFF);
        assert(utf16_units(last) =~= seq![(last as u32) as u16]);
        let e = encode_utf16(s);
        assert(e == encode_utf16(t) + utf16_units(last));
        assert forall|i: int| 0 <= i < s.len() implies e[i] == (#[trigger] s[i]) as u32 by {
            if i < t.len() {
                assert(t[i] == s[i]);
            } else {
                assert(e[i] == utf16_units(last)[0]);
            }
        }
    }
}

/// A string without NUL characters encodes to units none of which is zero,
/// so that the Windows API, which reads up to the first NUL, sees the whole
/// string.
pub proof fn lemma_no_inner_nul(s: Seq<char>)
    requires
        forall|i: int| 0 <= i < s.len() ==> (#[trigger] s[i]) as u32 != 0,
    ensures
        forall|j: int| 0 <= j < encode_utf16(s).len() ==> #[trigger] encode_utf16(s)[j] != 0,
    decreases s.len(),
{
    if s.len() > 0 {
        let t = s.drop_last();
        assert forall|i: int| 0 <= i < t.len() implies (#[trigger] t[i]) as u32 != 0 by {
            assert(t[i] == s[i]);
        }
        lemma_no_inner_nul(t);
        let last = s.last();
        vstd::utf8::char_is_scalar(last);
        let u = utf16_units(last);
        assert forall|k: int| 0 <= k < u.len() implies #[trigger] u[k] != 0 by {
            let v = last as u32;
            if v >= 0x10000 {
                let w = v - 0x10000;
                assert(w / 0x400 < 0x400);
            }
        }
        let e = encode_utf16(s);
        assert(e == encode_utf16(t) + u);
        assert forall|j: int| 0 <= j < e.len() implies #[trigger] e[j] != 0 by {
            if j < encode_utf16(t).len() {
                assert(e[j] == encode_utf16(t)[j]);
            } else {
                assert(e[j] == u[j - encode_utf16(t).len()]);
            }
        }
    }
}

/// The unit is a surrogate (`0xD800..=0xDFFF`).
pub open spec fn is_surrogate(u: u16) -> bool {
    0xD800 <= u <= 0xDFFF
}

/// The unit is a high (leading) surrogate.
pub open spec fn is_high_surrogate(u: u16) -> bool {
    0xD800 <= u <= 0xDBFF
}

/// The unit is a low (trailing) surrogate.
pub open spec fn is_low_surrogate(u: u16) -> bool {
    0xDC00 <= u <= 0xDFFF
}

/// The character that a surrogate pair stands for.
pub open spec fn pair_char(high: u16, low: u16) -> char {
    ((0x10000 + (high - 0xD800) * 0x400 + (low - 0xDC00)) as u32) as char
}

/// UTF-16 decoding, as `String::from_utf16` does it: `None` where a
/// surrogate is unpaired.
pub open spec fn decode_utf16(units: Seq<u16>) -> Option<Seq<char>>
    decreases units.len(),
{
    if units.len() == 0 {
        Some(Seq::empty())
    } else if !is_surrogate(units[0]) {
        match decode_utf16(units.drop_first()) {
            Some(rest) => Some(seq![(units[0] as u32) as char] + rest),
            None => None,
        }
    } else if is_high_surrogate(units[0]) && units.len() >= 2 && is_low_surrogate(units[1]) {
        match decode_utf16(units.skip(2)) {
            Some(rest) => Some(seq![pair_char(units[0], units[1])] + rest),
            None => None,
        }
    } else {
        None
    }
}

/// Encoding a concatenation concatenates the encodings.
proof fn lemma_encode_concat(a: Seq<char>, b: Seq<char>)
    ensures
        encode_utf16(a + b) == encode_utf16(a) + encode_utf16(b),
    decreases b.len(),
{
    if b.len() == 0 {
        assert(a + b =~= a);
        assert(encode_utf16(a) + encode_utf16(b) =~= encode_utf16(a));
    } else {
        lemma_encode_concat(a, b.drop_last());
        assert((a + b).drop_last() =~= a + b.drop_last());
        assert((a + b).last() == b.last());
        assert(encode_utf16(a + b) =~= encode_utf16(a) + encode_utf16(b));
    }
}

/// The units of one character decode back to it, in front of whatever follows.
proof fn lemma_decode_units(c: char, rest: Seq<u16>)
    ensures
        decode_utf16(utf16_units(c) + rest) == match decode_utf16(rest) {
            Some(r) => Some(seq![c] + r),
            None => None,
        },
{
    vstd::utf8::char_is_scalar(c);
    let v = c as u32;
    vstd::utf8::char_u32_cast(c, v);
    let u = utf16_units(c) + rest;
    if v < 0x10000 {
        assert(u[0] == v as u16);
        assert((u[0] as u32) == v);
        assert(u.drop_first() =~= rest);
    } else {
        let w = v - 0x10000;
        let high = (0xD800 + w / 0x400) as u16;
        let low = (0xDC00 + w % 0x400) as u16;
        assert(w == (w / 0x400) * 0x400 + w % 0x400) by (nonlinear_arith)
            requires
                0 <= w,
        ;
        assert(u[0] == high && u[1] == low);
        assert(u.skip(2) =~= rest);
        assert(0x10000 + (high - 0xD800) * 0x400 + (low - 0xDC00) == v);
    }
}

/// Decoding undoes encoding: the UTF-16 units of a character sequence decode
/// back to it.
pub proof fn lemma_decode_encode(s: Seq<char>)
    ensures
        decode_utf16(encode_utf16(s)) == Some(s),
    decreases s.len(),
{
    if s.len() > 0 {
        let first = seq![s[0]];
        let rest = s.drop_first();
        assert(s =~= first + rest);
        lemma_encode_concat(first, rest);
        assert(first.drop_last() =~= Seq::<char>::empty());
        assert(first.last() == s[0]);
        assert(encode_utf16(first.drop_last()) =~= Seq::<u16>::empty());
        assert(encode_utf16(first) =~= utf16_units(s[0]));
        lemma_decode_encode(rest);
        lemma_decode_units(s[0], encode_utf16(rest));
        assert(seq![s[0]] + rest =~= s);
    }
}

/// What `encode_wide` hands to the Windows API reads back as the string: for
/// a string without NUL characters, the units before the terminating NUL
/// decode to the string, and that NUL is the only zero unit.
pub proof fn lemma_encode_wide_round_trip(s: Seq<char>)
    requires
        forall|i: int| 0 <= i < s.len() ==> (#[trigger] s[i]) as u32 != 0,
    ensures
        ({
            let wide = encode_utf16(s).push(0);
            &&& decode_utf16(wide.drop_last()) == Some(s)
            &&& wide.last() == 0
            &&& forall|j: int| 0 <= j < wide.len() - 1 ==> #[trigger] wide[j] != 0
        }),
{
    let wide = encode_utf16(s).push(0);
    assert(wide.drop_last() =~= encode_utf16(s));
    lemma_decode_encode(s);
    lemma_no_inner_nul(s);
    assert forall|j: int| 0 <= j < wide.len() - 1 implies #[trigger] wide[j] != 0 by {
        assert(wide[j] == encode_utf16(s)[j]);
    }
}

} // verus!
