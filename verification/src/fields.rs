//! Decoding ASCII tokens into integers, plain or fixed-point.
use vstd::prelude::*;

use crate::ascii::{D0, D9, DOT, MINUS, PLUS};

verus! {

/// Whether `b` is a decimal digit.
pub open spec fn is_digit(b: u8) -> bool {
    D0 <= b && b <= D9
}

/// Whether every byte of `s` is a decimal digit.
pub open spec fn all_digits(s: Seq<u8>) -> bool {
    forall|i: int| 0 <= i < s.len() ==> is_digit(#[trigger] s[i])
}

/// Value of the digit string `s`, most significant digit first.
pub open spec fn dec_val(s: Seq<u8>) -> int
    decreases s.len(),
{
    if s.len() == 0 {
        0
    } else {
        dec_val(s.drop_last()) * 10 + (s.last() - D0)
    }
}

/// `s` without a leading `+`, if it has one.
pub open spec fn digits_part(s: Seq<u8>) -> Seq<u8> {
    if s.len() > 0 && s[0] == PLUS {
        s.drop_first()
    } else {
        s
    }
}

/// The unsigned integer a token denotes: an optional `+`, then at
/// least one digit, with a value at most `max`; `None` otherwise.
pub open spec fn spec_parse_unsigned(s: Seq<u8>, max: int) -> Option<int> {
    let d = digits_part(s);
    if d.len() > 0 && all_digits(d) && dec_val(d) <= max {
        Some(dec_val(d))
    } else {
        None
    }
}

/// The signed integer a token denotes: an optional sign, then at least
/// one digit, with a value inside `[min, max]`; `None` otherwise.
pub open spec fn spec_parse_signed(s: Seq<u8>, min: int, max: int) -> Option<int> {
    if s.len() > 0 && s[0] == MINUS {
        let d = s.drop_first();
        if d.len() > 0 && all_digits(d) && -dec_val(d) >= min {
            Some(-dec_val(d))
        } else {
            None
        }
    } else {
        spec_parse_unsigned(s, max)
    }
}

/// A digit string's value is never negative.
pub proof fn lemma_dec_val_nonneg(s: Seq<u8>)
    requires
        all_digits(s),
    ensures
        dec_val(s) >= 0,
    decreases s.len(),
{
    if s.len() > 0 {
        assert(all_digits(s.drop_last()));
        lemma_dec_val_nonneg(s.drop_last());
    }
}

/// Extending a digit string can only grow its value.
pub proof fn lemma_dec_val_prefix(s: Seq<u8>, k: int)
    requires
        all_digits(s),
        0 <= k <= s.len(),
    ensures
        dec_val(s.take(k)) <= dec_val(s),
    decreases s.len() - k,
{
    if k == s.len() {
        assert(s.take(k) =~= s);
    } else {
        assert(s.take(k + 1).drop_last() =~= s.take(k));
        assert(all_digits(s.take(k)));
        lemma_dec_val_nonneg(s.take(k));
        lemma_dec_val_prefix(s, k + 1);
    }
}

/// Value of a token made of digits alone, capped at `max`.
fn parse_digits(s: &[u8], max: u64) -> (r: Option<u64>)
    ensures
        r matches Some(v) ==> s@.len() > 0 && all_digits(s@) && dec_val(s@) == v && v <= max,
        r is None ==> s@.len() == 0 || !all_digits(s@) || dec_val(s@) > max,
{
    let n = s.len();
    if n == 0 {
        return None;
    }
    let mut acc: u64 = 0;
    for i in 0..n
        invariant
            all_digits(s@.take(i as int)),
            acc == dec_val(s@.take(i as int)),
            acc <= max,
    {
        let b = s[i];
        if b < D0 || b > D9 {
            assert(!is_digit(s@[i as int]));
            return None;
        }
        let d = (b - D0) as u64;
        proof {
            assert(s@.take(i + 1).drop_last() =~= s@.take(i as int));
            assert(s@.take(i + 1).last() == s@[i as int]);
        }
        let wide: u128 = acc as u128 * 10 + d as u128;
        if wide > max as u128 {
            proof {
                assert(dec_val(s@.take(i + 1)) > max);
                if all_digits(s@) {
                    lemma_dec_val_prefix(s@, i + 1);
                }
            }
            return None;
        }
        acc = wide as u64;
    }
    proof {
        assert(s@.take(n as int) =~= s@);
    }
    Some(acc)
}

/// Parses a token as an unsigned integer no greater than `max`,
/// allowing one leading `+`.
pub fn parse_unsigned(s: &[u8], max: u64) -> (r: Option<u64>)
    ensures
        r matches Some(v) ==> spec_parse_unsigned(s@, max as int) == Some(v as int),
        r is None ==> spec_parse_unsigned(s@, max as int) is None,
{
    if s.len() > 0 && s[0] == PLUS {
        let rest = vstd::slice::slice_subrange(s, 1, s.len());
        proof {
            assert(rest@ =~= digits_part(s@));
        }
        match parse_digits(rest, max) {
            Some(v) => Some(v),
            None => None,
        }
    } else {
        proof {
            assert(s@ =~= digits_part(s@));
        }
        match parse_digits(s, max) {
            Some(v) => Some(v),
            None => None,
        }
    }
}

/// Parses a token as a signed integer inside `[min, max]`, allowing
/// one leading `+` or `-`.
pub fn parse_signed(s: &[u8], min: i64, max: i64) -> (r: Option<i64>)
    requires
        -0x7fff_ffff_ffff_ffff <= min <= 0 <= max,
    ensures
        r matches Some(v) ==> spec_parse_signed(s@, min as int, max as int) == Some(v as int),
        r is None ==> spec_parse_signed(s@, min as int, max as int) is None,
{
    if s.len() > 0 && s[0] == MINUS {
        let rest = vstd::slice::slice_subrange(s, 1, s.len());
        proof {
            assert(rest@ =~= s@.drop_first());
        }
        let mag: u64 = (-min) as u64;
        match parse_digits(rest, mag) {
            Some(v) => Some(-(v as i64)),
            None => None,
        }
    } else {
        match parse_unsigned(s, max as u64) {
            Some(v) => Some(v as i64),
            None => None,
        }
    }
}

/// `s` with the byte at `j` removed.
pub open spec fn remove_at(s: Seq<u8>, j: int) -> Seq<u8> {
    s.subrange(0, j) + s.subrange(j + 1, s.len() as int)
}

/// Copies `s` except for the byte at `j`.
fn remove_byte_at(s: &[u8], j: usize) -> (r: Vec<u8>)
    requires
        j < s@.len(),
    ensures
        r@ == remove_at(s@, j as int),
{
    let n = s.len();
    let mut r: Vec<u8> = Vec::new();
    for i in 0..n
        invariant
            r@ =~= remove_at(s@, j as int).take(if i <= j { i as int } else { i - 1 }),
    {
        if i != j {
            r.push(s[i]);
        }
        proof {
            let whole = remove_at(s@, j as int);
            if i < j {
                assert(whole.take(i + 1).drop_last() =~= whole.take(i as int));
                assert(whole[i as int] == s@[i as int]);
                assert(r@ =~= whole.take(i + 1));
            } else if i == j {
                assert(r@ =~= whole.take(i as int));
            } else {
                assert(whole.take(i as int).drop_last() =~= whole.take(i - 1));
                assert(whole[i - 1] == s@[i as int]);
                assert(r@ =~= whole.take(i as int));
            }
        }
    }
    proof {
        assert(remove_at(s@, j as int).take(n - 1) =~= remove_at(s@, j as int));
    }
    r
}

/// The unsigned fixed-point value a token denotes with `n` decimal
/// places: a `.` must sit `n` places before the end, and the digits
/// around it are read as one integer.
pub open spec fn spec_parse_fixed_unsigned(s: Seq<u8>, n: int, max: int) -> Option<int> {
    if s.len() < n + 2 {
        None
    } else if s[s.len() - n - 1] != DOT {
        None
    } else {
        spec_parse_unsigned(remove_at(s, s.len() - n - 1), max)
    }
}

/// Signed counterpart of [`spec_parse_fixed_unsigned`].
pub open spec fn spec_parse_fixed_signed(s: Seq<u8>, n: int, min: int, max: int) -> Option<int> {
    if s.len() < n + 2 {
        None
    } else if s[s.len() - n - 1] != DOT {
        None
    } else {
        spec_parse_signed(remove_at(s, s.len() - n - 1), min, max)
    }
}

/// Parses a fixed-point token with `n` decimal places as a scaled
/// unsigned integer.
pub fn parse_fixed_unsigned(s: &[u8], n: usize, max: u64) -> (r: Option<u64>)
    ensures
        r matches Some(v) ==> spec_parse_fixed_unsigned(s@, n as int, max as int) == Some(
            v as int,
        ),
        r is None ==> spec_parse_fixed_unsigned(s@, n as int, max as int) is None,
{
    if s.len() < 2 || s.len() - 2 < n {
        return None;
    }
    let i = s.len() - n - 1;
    if s[i] != DOT {
        return None;
    }
    let digits = remove_byte_at(s, i);
    parse_unsigned(digits.as_slice(), max)
}

/// Parses a fixed-point token with `n` decimal places as a scaled
/// signed integer.
pub fn parse_fixed_signed(s: &[u8], n: usize, min: i64, max: i64) -> (r: Option<i64>)
    requires
        -0x7fff_ffff_ffff_ffff <= min <= 0 <= max,
    ensures
        r matches Some(v) ==> spec_parse_fixed_signed(s@, n as int, min as int, max as int)
            == Some(v as int),
        r is None ==> spec_parse_fixed_signed(s@, n as int, min as int, max as int) is None,
{
    if s.len() < 2 || s.len() - 2 < n {
        return None;
    }
    let i = s.len() - n - 1;
    if s[i] != DOT {
        return None;
    }
    let digits = remove_byte_at(s, i);
    parse_signed(digits.as_slice(), min, max)
}

/// Position of the last `.` in `s`, or `-1` when there is none.
pub open spec fn last_dot(s: Seq<u8>) -> int
    decreases s.len(),
{
    if s.len() == 0 {
        -1
    } else if s.last() == DOT {
        s.len() - 1
    } else {
        last_dot(s.drop_last())
    }
}

/// The unsigned fixed-point value of a token whose decimal-place count
/// is inferred from its own last `.`; the count is returned with the
/// value and must fit in a byte.
pub open spec fn spec_parse_fixed_unknown_unsigned(s: Seq<u8>, max: int) -> Option<(int, int)> {
    let j = last_dot(s);
    if j < 0 || s.len() - 1 - j > 255 {
        None
    } else {
        match spec_parse_unsigned(remove_at(s, j), max) {
            Some(v) => Some((v, s.len() - 1 - j)),
            None => None,
        }
    }
}

/// Signed counterpart of [`spec_parse_fixed_unknown_unsigned`].
pub open spec fn spec_parse_fixed_unknown_signed(s: Seq<u8>, min: int, max: int) -> Option<
    (int, int),
> {
    let j = last_dot(s);
    if j < 0 || s.len() - 1 - j > 255 {
        None
    } else {
        match spec_parse_signed(remove_at(s, j), min, max) {
            Some(v) => Some((v, s.len() - 1 - j)),
            None => None,
        }
    }
}

/// Position of the last `.` in `s`, if any.
fn rfind_dot(s: &[u8]) -> (r: Option<usize>)
    ensures
        r matches Some(j) ==> j == last_dot(s@) && j < s@.len(),
        r is None ==> last_dot(s@) == -1,
{
    let mut i = s.len();
    proof {
        assert(s@.take(i as int) =~= s@);
    }
    while i > 0
        invariant
            i <= s@.len(),
            last_dot(s@) == last_dot(s@.take(i as int)),
        decreases i,
    {
        i = i - 1;
        proof {
            assert(s@.take(i + 1).drop_last() =~= s@.take(i as int));
            assert(s@.take(i + 1).last() == s@[i as int]);
        }
        if s[i] == DOT {
            return Some(i);
        }
    }
    None
}

/// Parses a fixed-point token, inferring the decimal-place count from
/// the token's own `.`; unsigned result.
pub fn parse_fixed_unknown_unsigned(s: &[u8], max: u64) -> (r: Option<(u64, u8)>)
    ensures
        r matches Some(v) ==> spec_parse_fixed_unknown_unsigned(s@, max as int) == Some(
            (v.0 as int, v.1 as int),
        ),
        r is None ==> spec_parse_fixed_unknown_unsigned(s@, max as int) is None,
{
    let j = match rfind_dot(s) {
        Some(j) => j,
        None => {
            return None;
        },
    };
    let n = s.len() - 1 - j;
    if n > 255 {
        return None;
    }
    let digits = remove_byte_at(s, j);
    match parse_unsigned(digits.as_slice(), max) {
        Some(v) => Some((v, n as u8)),
        None => None,
    }
}

/// Parses a fixed-point token, inferring the decimal-place count from
/// the token's own `.`; signed result.
pub fn parse_fixed_unknown_signed(s: &[u8], min: i64, max: i64) -> (r: Option<(i64, u8)>)
    requires
        -0x7fff_ffff_ffff_ffff <= min <= 0 <= max,
    ensures
        r matches Some(v) ==> spec_parse_fixed_unknown_signed(s@, min as int, max as int) == Some(
            (v.0 as int, v.1 as int),
        ),
        r is None ==> spec_parse_fixed_unknown_signed(s@, min as int, max as int) is None,
{
    let j = match rfind_dot(s) {
        Some(j) => j,
        None => {
            return None;
        },
    };
    let n = s.len() - 1 - j;
    if n > 255 {
        return None;
    }
    let digits = remove_byte_at(s, j);
    match parse_signed(digits.as_slice(), min, max) {
        Some(v) => Some((v, n as u8)),
        None => None,
    }
}

} // verus!
