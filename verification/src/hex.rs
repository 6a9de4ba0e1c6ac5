//! Checksum codec: two-hex-digit encode/decode and XOR over a byte range.
use vstd::prelude::*;

use crate::ascii::{D0, D9, LC_A, LC_F, STAR, UC_A, UC_F};

verus! {

/// Value of one hexadecimal digit, case-insensitive; `None` for any
/// other byte.
pub open spec fn hex_digit_val(b: u8) -> Option<u8> {
    if D0 <= b && b <= D9 {
        Some((b - D0) as u8)
    } else if LC_A <= b && b <= LC_F {
        Some((b - LC_A + 10) as u8)
    } else if UC_A <= b && b <= UC_F {
        Some((b - UC_A + 10) as u8)
    } else {
        None
    }
}

/// Upper-case hexadecimal digit for a value below 16.
pub open spec fn hex_digit_char(v: u8) -> u8
    recommends
        v < 16,
{
    if v < 10 {
        (D0 + v) as u8
    } else {
        (UC_A + v - 10) as u8
    }
}

/// The checksum encoded by the two bytes after a `*`: `t` starts at the
/// `*`, so `t[1]` and `t[2]` are the digits. `None` when either is not
/// a hexadecimal digit or fewer than two bytes follow.
pub open spec fn spec_parse_cs(t: Seq<u8>) -> Option<u8> {
    if t.len() < 3 {
        None
    } else {
        match (hex_digit_val(t[1]), hex_digit_val(t[2])) {
            (Some(hi), Some(lo)) => Some((hi * 16 + lo) as u8),
            _ => None,
        }
    }
}

/// XOR of all bytes of `s`.
pub open spec fn xor_all(s: Seq<u8>) -> u8
    decreases s.len(),
{
    if s.len() == 0 {
        0
    } else {
        xor_all(s.drop_last()) ^ s.last()
    }
}

/// Value of one hexadecimal digit byte, case-insensitive.
pub fn parse_u8(byte: u8) -> (r: Option<u8>)
    ensures
        r == hex_digit_val(byte),
{
    if D0 <= byte && byte <= D9 {
        Some(byte - D0)
    } else if LC_A <= byte && byte <= LC_F {
        Some(byte - LC_A + 10)
    } else if UC_A <= byte && byte <= UC_F {
        Some(byte - UC_A + 10)
    } else {
        None
    }
}

/// Decodes the two checksum digits that follow the `*` at `cs[0]`.
pub fn parse_cs(cs: &[u8]) -> (r: Option<u8>)
    requires
        cs@.len() >= 3,
    ensures
        r == spec_parse_cs(cs@),
{
    match (parse_u8(cs[1]), parse_u8(cs[2])) {
        (Some(hi), Some(lo)) => {
            let v: u8 = hi << 4 | lo;
            proof {
                let hi0 = hex_digit_val(cs@[1]).unwrap();
                let lo0 = hex_digit_val(cs@[2]).unwrap();
                assert(hi0 < 16 && lo0 < 16);
                assert(hi0 < 16 && lo0 < 16 ==> hi0 << 4 | lo0 == hi0 * 16 + lo0) by (bit_vector);
            }
            Some(v)
        },
        _ => None,
    }
}

/// XOR of `buf[from..to]`.
pub fn xor_range(buf: &[u8], from: usize, to: usize) -> (r: u8)
    requires
        from <= to <= buf@.len(),
    ensures
        r == xor_all(buf@.subrange(from as int, to as int)),
{
    let ghost s = buf@.subrange(from as int, to as int);
    let mut acc: u8 = 0;
    let mut i: usize = from;
    while i < to
        invariant
            from <= i <= to,
            acc == xor_all(s.take(i - from)),
        decreases to - i,
    {
        proof {
            assert(s.take(i - from + 1).drop_last() =~= s.take(i - from));
            assert(s.take(i - from + 1).last() == buf@[i as int]);
        }
        acc = acc ^ buf[i];
        i = i + 1;
    }
    proof {
        assert(s.take(to - from) =~= s);
    }
    acc
}

/// The two wire digits of a checksum byte: upper-case, zero-padded.
pub open spec fn spec_cs_digits(cs: u8) -> Seq<u8> {
    seq![hex_digit_char(cs / 16), hex_digit_char(cs % 16)]
}

/// Encodes a checksum byte as its two wire digits.
pub fn encode_cs(cs: u8) -> (r: (u8, u8))
    ensures
        r.0 == hex_digit_char(cs / 16),
        r.1 == hex_digit_char(cs % 16),
{
    let hi: u8 = cs >> 4;
    let lo: u8 = cs & 0x0f;
    proof {
        assert(cs >> 4 == cs / 16 && (cs & 0x0f) == cs % 16) by (bit_vector);
    }
    let h = if hi < 10 {
        D0 + hi
    } else {
        UC_A + hi - 10
    };
    let l = if lo < 10 {
        D0 + lo
    } else {
        UC_A + lo - 10
    };
    (h, l)
}

/// Decoding the two digits that encode a checksum byte yields that
/// byte again: the digit half of re-serialization round-trips.
pub proof fn lemma_cs_digits_roundtrip(cs: u8)
    ensures
        spec_parse_cs(seq![STAR] + spec_cs_digits(cs)) == Some(cs),
{
    let t = seq![STAR] + spec_cs_digits(cs);
    assert(t.len() == 3);
    assert(t[1] == hex_digit_char(cs / 16));
    assert(t[2] == hex_digit_char(cs % 16));
    assert(hex_digit_val(hex_digit_char(cs / 16)) == Some((cs / 16) as u8));
    assert(hex_digit_val(hex_digit_char(cs % 16)) == Some((cs % 16) as u8));
    assert(cs / 16 * 16 + cs % 16 == cs) by (bit_vector);
}

/// Flipping any one bit of any one byte of a range changes the XOR of
/// the range: a corrupted sentence body cannot keep its checksum.
pub proof fn lemma_xor_single_flip(s: Seq<u8>, i: int, mask: u8)
    requires
        0 <= i < s.len(),
        mask != 0,
    ensures
        xor_all(s.update(i, s[i] ^ mask)) == xor_all(s) ^ mask,
        xor_all(s.update(i, s[i] ^ mask)) != xor_all(s),
    decreases s.len(),
{
    let t = s.update(i, s[i] ^ mask);
    if i == s.len() - 1 {
        assert(t.drop_last() =~= s.drop_last());
        assert(t.last() == s.last() ^ mask);
        let a = xor_all(s.drop_last());
        let b = s.last();
        assert(a ^ (b ^ mask) == (a ^ b) ^ mask) by (bit_vector);
    } else {
        lemma_xor_single_flip(s.drop_last(), i, mask);
        assert(t.drop_last() =~= s.drop_last().update(i, s[i] ^ mask));
        assert(t.last() == s.last());
        let a = xor_all(s.drop_last());
        let b = s.last();
        assert((a ^ mask) ^ b == (a ^ b) ^ mask) by (bit_vector);
    }
    let x = xor_all(s);
    assert(x ^ mask != x) by (bit_vector)
        requires
            mask != 0,
    ;
}

} // verus!
