//! Splitting a sentence body on commas and consuming fields by position.
use vstd::prelude::*;

use crate::BodyParseError;
use crate::ascii::COMMA;
use crate::fields::{
    parse_fixed_signed, parse_fixed_unknown_signed, parse_fixed_unknown_unsigned,
    parse_fixed_unsigned, parse_unsigned, spec_parse_fixed_signed,
    spec_parse_fixed_unknown_signed, spec_parse_fixed_unknown_unsigned,
    spec_parse_fixed_unsigned, spec_parse_unsigned,
};
use crate::search::{find_byte_from, find_from, lemma_find_from};

verus! {

/// The comma-separated tokens of `s`: one more token than commas, and
/// the commas themselves dropped.
pub open spec fn spec_split(s: Seq<u8>) -> Seq<Seq<u8>>
    decreases s.len(),
{
    let i = find_from(s, COMMA, 0);
    if 0 <= i < s.len() {
        seq![s.subrange(0, i)] + spec_split(s.subrange(i + 1, s.len() as int))
    } else {
        seq![s]
    }
}

/// Splits `s` at every comma.
pub fn split_commas(s: &[u8]) -> (r: Vec<Vec<u8>>)
    ensures
        r.deep_view() == spec_split(s@),
    decreases s@.len(),
{
    let n = s.len();
    let i = find_byte_from(s, n, COMMA, 0);
    proof {
        assert(s@.take(n as int) =~= s@);
        lemma_find_from(s@, COMMA, 0);
    }
    if i == n {
        let mut r: Vec<Vec<u8>> = Vec::new();
        r.push(vstd::slice::slice_to_vec(s));
        proof {
            assert(r.deep_view() =~~= spec_split(s@));
        }
        r
    } else {
        let head = vstd::slice::slice_to_vec(vstd::slice::slice_subrange(s, 0, i));
        let mut rest = split_commas(vstd::slice::slice_subrange(s, i + 1, n));
        let mut r: Vec<Vec<u8>> = Vec::new();
        r.push(head);
        r.append(&mut rest);
        proof {
            assert(r.deep_view() =~~= spec_split(s@));
        }
        r
    }
}

/// Consumes the field at `k` as a plain unsigned integer.
pub fn take_unsigned(toks: &Vec<Vec<u8>>, k: usize, name: &'static str, max: u64) -> (r: Result<
    u64,
    BodyParseError,
>)
    ensures
        ({
            let ts = toks.deep_view();
            &&& (r is Ok <==> k < ts.len() && spec_parse_unsigned(ts[k as int], max as int)
                is Some)
            &&& (r matches Ok(v) ==> spec_parse_unsigned(ts[k as int], max as int) == Some(
                v as int,
            ))
            &&& (k >= ts.len() ==> r == Err::<u64, BodyParseError>(BodyParseError::MissingField(
                name,
            )))
            &&& (r matches Err(e) ==> k >= ts.len() || (e matches BodyParseError::ParseFailed(
                nm,
                raw,
            ) && nm == name && raw@ == ts[k as int]))
        }),
{
    if k >= toks.len() {
        return Err(BodyParseError::MissingField(name));
    }
    proof {
        assert(toks.deep_view()[k as int] =~= toks@[k as int]@);
    }
    match parse_unsigned(toks[k].as_slice(), max) {
        Some(v) => Ok(v),
        None => Err(BodyParseError::ParseFailed(name, vstd::slice::slice_to_vec(
            toks[k].as_slice(),
        ))),
    }
}

/// Consumes the field at `k` as a fixed-point unsigned integer with
/// `n` decimal places.
pub fn take_fixed_unsigned(
    toks: &Vec<Vec<u8>>,
    k: usize,
    name: &'static str,
    n: usize,
    max: u64,
) -> (r: Result<u64, BodyParseError>)
    ensures
        ({
            let ts = toks.deep_view();
            &&& (r is Ok <==> k < ts.len() && spec_parse_fixed_unsigned(
                ts[k as int],
                n as int,
                max as int,
            ) is Some)
            &&& (r matches Ok(v) ==> spec_parse_fixed_unsigned(ts[k as int], n as int, max as int)
                == Some(v as int))
            &&& (k >= ts.len() ==> r == Err::<u64, BodyParseError>(BodyParseError::MissingField(
                name,
            )))
            &&& (r matches Err(e) ==> k >= ts.len() || (e matches BodyParseError::ParseFailed(
                nm,
                raw,
            ) && nm == name && raw@ == ts[k as int]))
        }),
{
    if k >= toks.len() {
        return Err(BodyParseError::MissingField(name));
    }
    proof {
        assert(toks.deep_view()[k as int] =~= toks@[k as int]@);
    }
    match parse_fixed_unsigned(toks[k].as_slice(), n, max) {
        Some(v) => Ok(v),
        None => Err(BodyParseError::ParseFailed(name, vstd::slice::slice_to_vec(
            toks[k].as_slice(),
        ))),
    }
}

/// Consumes the field at `k` as a fixed-point signed integer with `n`
/// decimal places.
pub fn take_fixed_signed(
    toks: &Vec<Vec<u8>>,
    k: usize,
    name: &'static str,
    n: usize,
    min: i64,
    max: i64,
) -> (r: Result<i64, BodyParseError>)
    requires
        -0x7fff_ffff_ffff_ffff <= min <= 0 <= max,
    ensures
        ({
            let ts = toks.deep_view();
            &&& (r is Ok <==> k < ts.len() && spec_parse_fixed_signed(
                ts[k as int],
                n as int,
                min as int,
                max as int,
            ) is Some)
            &&& (r matches Ok(v) ==> spec_parse_fixed_signed(
                ts[k as int],
                n as int,
                min as int,
                max as int,
            ) == Some(v as int))
            &&& (k >= ts.len() ==> r == Err::<i64, BodyParseError>(BodyParseError::MissingField(
                name,
            )))
            &&& (r matches Err(e) ==> k >= ts.len() || (e matches BodyParseError::ParseFailed(
                nm,
                raw,
            ) && nm == name && raw@ == ts[k as int]))
        }),
{
    if k >= toks.len() {
        return Err(BodyParseError::MissingField(name));
    }
    proof {
        assert(toks.deep_view()[k as int] =~= toks@[k as int]@);
    }
    match parse_fixed_signed(toks[k].as_slice(), n, min, max) {
        Some(v) => Ok(v),
        None => Err(BodyParseError::ParseFailed(name, vstd::slice::slice_to_vec(
            toks[k].as_slice(),
        ))),
    }
}

/// Consumes the field at `k` as a fixed-point unsigned integer whose
/// decimal-place count is inferred and returned.
pub fn take_fixed_unknown_unsigned(toks: &Vec<Vec<u8>>, k: usize, name: &'static str, max: u64) -> (r:
    Result<(u64, u8), BodyParseError>)
    ensures
        ({
            let ts = toks.deep_view();
            &&& (r is Ok <==> k < ts.len() && spec_parse_fixed_unknown_unsigned(
                ts[k as int],
                max as int,
            ) is Some)
            &&& (r matches Ok(v) ==> spec_parse_fixed_unknown_unsigned(ts[k as int], max as int)
                == Some((v.0 as int, v.1 as int)))
            &&& (k >= ts.len() ==> r == Err::<(u64, u8), BodyParseError>(
                BodyParseError::MissingField(name),
            ))
            &&& (r matches Err(e) ==> k >= ts.len() || (e matches BodyParseError::ParseFailed(
                nm,
                raw,
            ) && nm == name && raw@ == ts[k as int]))
        }),
{
    if k >= toks.len() {
        return Err(BodyParseError::MissingField(name));
    }
    proof {
        assert(toks.deep_view()[k as int] =~= toks@[k as int]@);
    }
    match parse_fixed_unknown_unsigned(toks[k].as_slice(), max) {
        Some(v) => Ok(v),
        None => Err(BodyParseError::ParseFailed(name, vstd::slice::slice_to_vec(
            toks[k].as_slice(),
        ))),
    }
}

/// Consumes the field at `k` as a fixed-point signed integer whose
/// decimal-place count is inferred and returned.
pub fn take_fixed_unknown_signed(
    toks: &Vec<Vec<u8>>,
    k: usize,
    name: &'static str,
    min: i64,
    max: i64,
) -> (r: Result<(i64, u8), BodyParseError>)
    requires
        -0x7fff_ffff_ffff_ffff <= min <= 0 <= max,
    ensures
        ({
            let ts = toks.deep_view();
            &&& (r is Ok <==> k < ts.len() && spec_parse_fixed_unknown_signed(
                ts[k as int],
                min as int,
                max as int,
            ) is Some)
            &&& (r matches Ok(v) ==> spec_parse_fixed_unknown_signed(
                ts[k as int],
                min as int,
                max as int,
            ) == Some((v.0 as int, v.1 as int)))
            &&& (k >= ts.len() ==> r == Err::<(i64, u8), BodyParseError>(
                BodyParseError::MissingField(name),
            ))
            &&& (r matches Err(e) ==> k >= ts.len() || (e matches BodyParseError::ParseFailed(
                nm,
                raw,
            ) && nm == name && raw@ == ts[k as int]))
        }),
{
    if k >= toks.len() {
        return Err(BodyParseError::MissingField(name));
    }
    proof {
        assert(toks.deep_view()[k as int] =~= toks@[k as int]@);
    }
    match parse_fixed_unknown_signed(toks[k].as_slice(), min, max) {
        Some(v) => Ok(v),
        None => Err(BodyParseError::ParseFailed(name, vstd::slice::slice_to_vec(
            toks[k].as_slice(),
        ))),
    }
}

/// What an optional unsigned field denotes: absent when empty.
pub open spec fn spec_parse_opt_unsigned(s: Seq<u8>, max: int) -> Option<Option<int>> {
    if s.len() == 0 {
        Some(None)
    } else {
        match spec_parse_unsigned(s, max) {
            Some(v) => Some(Some(v)),
            None => None,
        }
    }
}

/// Consumes the field at `k` as an optional unsigned integer: an
/// empty token is absent, not an error.
pub fn take_opt_unsigned(toks: &Vec<Vec<u8>>, k: usize, name: &'static str, max: u64) -> (r: Result<
    Option<u64>,
    BodyParseError,
>)
    ensures
        ({
            let ts = toks.deep_view();
            &&& (r is Ok <==> k < ts.len() && spec_parse_opt_unsigned(ts[k as int], max as int)
                is Some)
            &&& (r matches Ok(v) ==> match v {
                Some(x) => spec_parse_opt_unsigned(ts[k as int], max as int) == Some(
                    Some(x as int),
                ),
                None => spec_parse_opt_unsigned(ts[k as int], max as int) == Some(
                    None::<int>,
                ),
            })
            &&& (k >= ts.len() ==> r == Err::<Option<u64>, BodyParseError>(
                BodyParseError::MissingField(name),
            ))
            &&& (r matches Err(e) ==> k >= ts.len() || (e matches BodyParseError::ParseFailed(
                nm,
                raw,
            ) && nm == name && raw@ == ts[k as int]))
        }),
{
    if k >= toks.len() {
        return Err(BodyParseError::MissingField(name));
    }
    proof {
        assert(toks.deep_view()[k as int] =~= toks@[k as int]@);
    }
    if toks[k].len() == 0 {
        return Ok(None);
    }
    match parse_unsigned(toks[k].as_slice(), max) {
        Some(v) => Ok(Some(v)),
        None => Err(BodyParseError::ParseFailed(name, vstd::slice::slice_to_vec(
            toks[k].as_slice(),
        ))),
    }
}

} // verus!
