//! Lenient decoding of the UTF-16 buffers in which the device-configuration
//! subsystem reports instance identifiers.
//!
//! Decoding never fails: a well-formed unit or surrogate pair becomes the
//! character it encodes, and every invalid unit — an unpaired or reversed
//! surrogate — becomes one replacement character, after which decoding
//! continues with the next unit.

use vstd::prelude::*;
use vstd::utf8::char_u32_cast;

verus! {

/// The character substituted for each invalid text unit.
pub const REPLACEMENT_CHARACTER: char = '\u{FFFD}';

/// A unit in the surrogate block, which encodes no character on its own.
pub open spec fn is_surrogate(u: u16) -> bool {
    0xD800 <= u && u <= 0xDFFF
}

/// The leading half of a surrogate pair.
pub open spec fn is_high_surrogate(u: u16) -> bool {
    0xD800 <= u && u <= 0xDBFF
}

/// The trailing half of a surrogate pair.
pub open spec fn is_low_surrogate(u: u16) -> bool {
    0xDC00 <= u && u <= 0xDFFF
}

/// The scalar value encoded by a surrogate pair.
pub open spec fn pair_scalar(h: u16, l: u16) -> u32
    recommends
        is_high_surrogate(h),
        is_low_surrogate(l),
{
    (0x10000 + (h - 0xD800) * 0x400 + (l - 0xDC00)) as u32
}

/// The character carried by one unit outside the surrogate block.
pub open spec fn unit_char(u: u16) -> char
    recommends
        !is_surrogate(u),
{
    (u as u32) as char
}

/// The character carried by a surrogate pair.
pub open spec fn pair_char(h: u16, l: u16) -> char
    recommends
        is_high_surrogate(h),
        is_low_surrogate(l),
{
    pair_scalar(h, l) as char
}

/// The lenient decoding of a sequence of UTF-16 units, front to back: a
/// non-surrogate unit stands for itself, a high surrogate followed by a low
/// one stands for the character they encode together, and anything else is
/// one invalid unit, replaced.
pub open spec fn decode_units(s: Seq<u16>) -> Seq<char>
    decreases s.len(),
{
    if s.len() == 0 {
        Seq::empty()
    } else if !is_surrogate(s[0]) {
        seq![unit_char(s[0])] + decode_units(s.skip(1))
    } else if is_high_surrogate(s[0]) && s.len() >= 2 && is_low_surrogate(s[1]) {
        seq![pair_char(s[0], s[1])] + decode_units(s.skip(2))
    } else {
        seq![REPLACEMENT_CHARACTER] + decode_units(s.skip(1))
    }
}

/// An invalid unit never fails the decode: it becomes exactly one
/// replacement character and decoding continues behind it.
pub proof fn lemma_invalid_unit_replaced(s: Seq<u16>)
    requires
        s.len() > 0,
        is_surrogate(s[0]),
        !(is_high_surrogate(s[0]) && s.len() >= 2 && is_low_surrogate(s[1])),
    ensures
        decode_units(s) == seq![REPLACEMENT_CHARACTER] + decode_units(s.skip(1)),
        decode_units(s)[0] == REPLACEMENT_CHARACTER,
{
    assert((seq![REPLACEMENT_CHARACTER] + decode_units(s.skip(1)))[0] == REPLACEMENT_CHARACTER);
}

/// Relies on char::from_u32: it returns a character exactly when the value
/// is a Unicode scalar value — below the surrogate block, or above it and at
/// most 0x10FFFF — and the character it returns has that value.
pub assume_specification[ char::from_u32 ](v: u32) -> (r: Option<char>)
    ensures
        r is Some <==> (v < 0xD800 || (0xE000 <= v && v <= 0x10FFFF)),
        r matches Some(c) ==> c as u32 == v,
;

/// Decodes the first `n` units of `units` leniently.
fn decode_prefix(units: &Vec<u16>, n: usize) -> (r: Vec<char>)
    requires
        n <= units@.len(),
    ensures
        r@ == decode_units(units@.take(n as int)),
{
    let ghost t = units@.take(n as int);
    let mut r: Vec<char> = Vec::new();
    let mut i: usize = 0;
    proof {
        assert(t.skip(0) =~= t);
        assert(r@ + decode_units(t) =~= decode_units(t));
    }
    while i < n
        invariant
            n <= units@.len(),
            i <= n,
            t == units@.take(n as int),
            decode_units(t) == r@ + decode_units(t.skip(i as int)),
        decreases n - i,
    {
        let u = units[i];
        proof {
            assert(t.skip(i as int)[0] == t[i as int]);
            assert(t[i as int] == units@[i as int]);
        }
        if u < 0xD800 || u > 0xDFFF {
            let v: u32 = u as u32;
            let c = char::from_u32(v).unwrap();
            proof {
                char_u32_cast(c, v);
                assert(c == unit_char(u));
                assert(t.skip(i as int).skip(1) =~= t.skip(i + 1));
                assert(decode_units(t.skip(i as int)) == seq![c] + decode_units(t.skip(i + 1)));
            }
            r.push(c);
            proof {
                assert(r@ =~= (r@.drop_last() + seq![c]));
                assert(decode_units(t) =~= r@ + decode_units(t.skip(i + 1)));
            }
            i = i + 1;
        } else if u <= 0xDBFF && i + 1 < n && 0xDC00 <= units[i + 1] && units[i + 1] <= 0xDFFF {
            let l = units[i + 1];
            proof {
                assert(t.skip(i as int)[1] == t[i + 1]);
            }
            let v: u32 = 0x10000 + (u as u32 - 0xD800) * 0x400 + (l as u32 - 0xDC00);
            proof {
                assert(v == pair_scalar(u, l));
            }
            let c = char::from_u32(v).unwrap();
            proof {
                char_u32_cast(c, v);
                assert(c == pair_char(u, l));
                assert(t.skip(i as int).skip(2) =~= t.skip(i + 2));
                assert(decode_units(t.skip(i as int)) == seq![c] + decode_units(t.skip(i + 2)));
            }
            r.push(c);
            proof {
                assert(decode_units(t) =~= r@ + decode_units(t.skip(i + 2)));
            }
            i = i + 2;
        } else {
            let c = REPLACEMENT_CHARACTER;
            proof {
                assert(is_surrogate(t.skip(i as int)[0]));
                assert(!(is_high_surrogate(t.skip(i as int)[0]) && t.skip(i as int).len() >= 2
                    && is_low_surrogate(t.skip(i as int)[1]))) by {
                    if t.skip(i as int).len() >= 2 {
                        assert(t.skip(i as int)[1] == t[i + 1]);
                        assert(t[i + 1] == units@[i + 1]);
                    }
                }
                assert(t.skip(i as int).skip(1) =~= t.skip(i + 1));
                assert(decode_units(t.skip(i as int)) == seq![c] + decode_units(t.skip(i + 1)));
            }
            r.push(c);
            proof {
                assert(decode_units(t) =~= r@ + decode_units(t.skip(i + 1)));
            }
            i = i + 1;
        }
    }
    proof {
        assert(t.skip(n as int) =~= Seq::<u16>::empty());
        assert(r@ =~= decode_units(t));
    }
    r
}

/// Decodes a whole buffer of UTF-16 units leniently. Total: there is no
/// error outcome on any input.
pub fn decode_utf16_lossy(units: &Vec<u16>) -> (r: Vec<char>)
    ensures
        r@ == decode_units(units@),
{
    let n = units.len();
    let r = decode_prefix(units, n);
    proof {
        assert(units@.take(n as int) =~= units@);
    }
    r
}

/// Decodes an instance-identifier buffer as the subsystem fills it: the one
/// trailing terminator unit is trimmed, the rest is decoded leniently.
pub fn decode_instance_id(buf: &Vec<u16>) -> (r: Vec<char>)
    requires
        buf@.len() >= 1,
    ensures
        r@ == decode_units(buf@.take(buf@.len() - 1)),
{
    decode_prefix(buf, buf.len() - 1)
}

} // verus!
