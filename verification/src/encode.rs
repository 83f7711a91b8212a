//! Encoding text as the UTF-16 the native presentation layer takes, and its
//! coherence with the lenient decoding: what is encoded decodes back to the
//! same text.

use vstd::prelude::*;
use vstd::utf8::char_is_scalar;
use vstd::utf8::char_u32_cast;
use crate::decode::{decode_units, is_surrogate, pair_scalar, pair_char, unit_char};

verus! {

/// The UTF-16 units that encode one character: itself when it lies in the
/// basic plane, a surrogate pair otherwise.
pub open spec fn encode_char(c: char) -> Seq<u16> {
    if (c as u32) < 0x10000 {
        seq![(c as u32) as u16]
    } else {
        seq![
            (0xD800 + ((c as u32) - 0x10000) / 0x400) as u16,
            (0xDC00 + ((c as u32) - 0x10000) % 0x400) as u16,
        ]
    }
}

/// The UTF-16 encoding of a sequence of characters, front to back.
pub open spec fn encode_units(s: Seq<char>) -> Seq<u16>
    decreases s.len(),
{
    if s.len() == 0 {
        Seq::empty()
    } else {
        encode_char(s[0]) + encode_units(s.skip(1))
    }
}

/// Encodes text as UTF-16.
pub fn encode_utf16(chars: &Vec<char>) -> (r: Vec<u16>)
    ensures
        r@ == encode_units(chars@),
{
    let mut r: Vec<u16> = Vec::new();
    let mut i: usize = 0;
    proof {
        assert(chars@.skip(0) =~= chars@);
        assert(r@ + encode_units(chars@) =~= encode_units(chars@));
    }
    while i < chars.len()
        invariant
            i <= chars@.len(),
            encode_units(chars@) == r@ + encode_units(chars@.skip(i as int)),
        decreases chars@.len() - i,
    {
        let c = chars[i];
        proof {
            assert(chars@.skip(i as int)[0] == chars@[i as int]);
            assert(chars@.skip(i as int).skip(1) =~= chars@.skip(i + 1));
        }
        let v: u32 = c as u32;
        proof {
            char_is_scalar(c);
        }
        if v < 0x10000 {
            r.push(v as u16);
            proof {
                assert(encode_char(c) =~= seq![v as u16]);
                assert(encode_units(chars@) =~= r@ + encode_units(chars@.skip(i + 1)));
            }
        } else {
            let high: u16 = (0xD800 + (v - 0x10000) / 0x400) as u16;
            let low: u16 = (0xDC00 + (v - 0x10000) % 0x400) as u16;
            r.push(high);
            r.push(low);
            proof {
                assert(encode_char(c) =~= seq![high, low]);
                assert(encode_units(chars@) =~= r@ + encode_units(chars@.skip(i + 1)));
            }
        }
        i = i + 1;
    }
    proof {
        assert(encode_units(chars@.skip(chars@.len() as int)) =~= Seq::<u16>::empty());
        assert(encode_units(chars@) =~= r@);
    }
    r
}

/// Encodes text as UTF-16 with the one trailing terminator unit the native
/// presentation layer expects.
pub fn encode_terminated(chars: &Vec<char>) -> (r: Vec<u16>)
    ensures
        r@ == encode_units(chars@) + seq![0u16],
{
    let mut r = encode_utf16(chars);
    r.push(0);
    proof {
        assert(r@ =~= encode_units(chars@) + seq![0u16]);
    }
    r
}

/// What is encoded decodes back to the same text: the lenient decoder undoes
/// the encoder on every text, since no character encodes to an invalid unit.
pub proof fn lemma_decode_encode_roundtrip(s: Seq<char>)
    ensures
        decode_units(encode_units(s)) == s,
    decreases s.len(),
{
    if s.len() == 0 {
        assert(decode_units(encode_units(s)) =~= s);
    } else {
        let c = s[0];
        let rest = encode_units(s.skip(1));
        char_is_scalar(c);
        lemma_decode_encode_roundtrip(s.skip(1));
        if (c as u32) < 0x10000 {
            let u = (c as u32) as u16;
            assert(encode_units(s) =~= seq![u] + rest);
            assert((seq![u] + rest)[0] == u);
            assert(!is_surrogate(u));
            assert((seq![u] + rest).skip(1) =~= rest);
            char_u32_cast(c, u as u32);
            assert(unit_char(u) == c);
            assert(decode_units(encode_units(s)) =~= seq![c] + decode_units(rest));
            assert(seq![c] + s.skip(1) =~= s);
        } else {
            let v = c as u32;
            let q = (v - 0x10000) / 0x400;
            let m = (v - 0x10000) % 0x400;
            let high = (0xD800 + q) as u16;
            let low = (0xDC00 + m) as u16;
            assert(0 <= q < 0x400 && 0 <= m < 0x400 && q * 0x400 + m == v - 0x10000) by (nonlinear_arith)
                requires
                    0x10000 <= v <= 0x10FFFF,
                    q == (v - 0x10000) / 0x400,
                    m == (v - 0x10000) % 0x400,
            ;
            assert(encode_units(s) =~= seq![high, low] + rest);
            assert((seq![high, low] + rest)[0] == high);
            assert((seq![high, low] + rest)[1] == low);
            assert((seq![high, low] + rest).skip(2) =~= rest);
            assert(pair_scalar(high, low) == v);
            char_u32_cast(c, v);
            assert(pair_char(high, low) == c);
            assert(decode_units(encode_units(s)) =~= seq![c] + decode_units(rest));
            assert(seq![c] + s.skip(1) =~= s);
        }
    }
}

} // verus!
