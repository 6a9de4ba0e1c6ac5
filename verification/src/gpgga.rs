//! The GGA-style fix sentence: position with hemisphere letters,
//! quality, and optional differential-correction fields.
use vstd::prelude::*;

use crate::BodyParseError;
use crate::fields::{
    spec_parse_fixed_unknown_signed, spec_parse_fixed_unknown_unsigned, spec_parse_fixed_unsigned,
    spec_parse_unsigned,
};
use crate::tokens::{
    spec_parse_opt_unsigned, spec_split, split_commas, take_fixed_unknown_signed,
    take_fixed_unknown_unsigned, take_fixed_unsigned, take_opt_unsigned, take_unsigned,
};

verus! {

/// Decoded body. Fields whose decimal-place count varies on the wire
/// carry it alongside the scaled value.
#[derive(Debug, PartialEq)]
pub struct Body {
    pub utc_time: u32,
    pub latitude: (u64, u8),
    pub ns: NS,
    pub longitude: (u64, u8),
    pub ew: EW,
    pub status: Status,
    pub nosv: u8,
    pub hdop: (u16, u8),
    pub altitude: (u32, u8),
    pub alt_unit: LenUnit,
    pub alt_ref: (i32, u8),
    pub alt_ref_unit: LenUnit,
    pub diff_age: Option<u8>,
    pub diff_station: Option<u16>,
}

/// Latitude hemisphere letter.
#[derive(Debug, PartialEq, Eq, Structural, Clone, Copy)]
pub enum NS {
    N,
    S,
}

/// Longitude hemisphere letter.
#[derive(Debug, PartialEq, Eq, Structural, Clone, Copy)]
pub enum EW {
    E,
    W,
}

/// Fix quality, one character of the closed set.
#[derive(Debug, PartialEq, Eq, Structural, Clone, Copy)]
pub enum Status {
    Init,
    SinglePoint,
    CodeDiff,
    FixedSolution,
    FloatSolution,
    Estimating,
    ManualFixed,
    DeadReckoning,
    WaasDiff,
}

/// Length unit letter; only metres appear in this dialect.
#[derive(Debug, PartialEq, Eq, Structural, Clone, Copy)]
pub enum LenUnit {
    M,
}

/// The hemisphere a one-character token denotes: `N` or `S`.
pub open spec fn spec_ns(t: Seq<u8>) -> Option<NS> {
    if t.len() == 1 && t[0] == 78 {
        Some(NS::N)
    } else if t.len() == 1 && t[0] == 83 {
        Some(NS::S)
    } else {
        None
    }
}

/// The hemisphere a one-character token denotes: `E` or `W`.
pub open spec fn spec_ew(t: Seq<u8>) -> Option<EW> {
    if t.len() == 1 && t[0] == 69 {
        Some(EW::E)
    } else if t.len() == 1 && t[0] == 87 {
        Some(EW::W)
    } else {
        None
    }
}

/// The fix quality a one-character token denotes: `0`-`2` or `4`-`9`.
pub open spec fn spec_fix_status(t: Seq<u8>) -> Option<Status> {
    if t.len() != 1 {
        None
    } else {
        match t[0] {
            48 => Some(Status::Init),
            49 => Some(Status::SinglePoint),
            50 => Some(Status::CodeDiff),
            52 => Some(Status::FixedSolution),
            53 => Some(Status::FloatSolution),
            54 => Some(Status::Estimating),
            55 => Some(Status::ManualFixed),
            56 => Some(Status::DeadReckoning),
            57 => Some(Status::WaasDiff),
            _ => None,
        }
    }
}

/// The unit a one-character token denotes: `M` alone.
pub open spec fn spec_len_unit(t: Seq<u8>) -> Option<LenUnit> {
    if t.len() == 1 && t[0] == 77 {
        Some(LenUnit::M)
    } else {
        None
    }
}

/// The body this sentence tail denotes, when each of its fourteen
/// fields is present and well-formed; the two differential fields may
/// be empty.
#[verifier::opaque]
pub open spec fn spec_parse(s: Seq<u8>) -> Option<Body> {
    let ts = spec_split(s);
    if ts.len() < 14 {
        None
    } else {
        let utc = spec_parse_fixed_unsigned(ts[0], 2, 0xffff_ffff);
        let lat = spec_parse_fixed_unknown_unsigned(ts[1], 0xffff_ffff_ffff_ffff);
        let ns = spec_ns(ts[2]);
        let lon = spec_parse_fixed_unknown_unsigned(ts[3], 0xffff_ffff_ffff_ffff);
        let ew = spec_ew(ts[4]);
        let status = spec_fix_status(ts[5]);
        let nosv = spec_parse_unsigned(ts[6], 0xff);
        let hdop = spec_parse_fixed_unknown_unsigned(ts[7], 0xffff);
        let alt = spec_parse_fixed_unknown_unsigned(ts[8], 0xffff_ffff);
        let alt_unit = spec_len_unit(ts[9]);
        let alt_ref = spec_parse_fixed_unknown_signed(ts[10], -0x8000_0000, 0x7fff_ffff);
        let alt_ref_unit = spec_len_unit(ts[11]);
        let diff_age = spec_parse_opt_unsigned(ts[12], 0xff);
        let diff_station = spec_parse_opt_unsigned(ts[13], 0xffff);
        if utc is Some && lat is Some && ns is Some && lon is Some && ew is Some && status is Some
            && nosv is Some && hdop is Some && alt is Some && alt_unit is Some && alt_ref is Some
            && alt_ref_unit is Some && diff_age is Some && diff_station is Some {
            Some(
                Body {
                    utc_time: utc->0 as u32,
                    latitude: ((lat->0).0 as u64, (lat->0).1 as u8),
                    ns: ns->0,
                    longitude: ((lon->0).0 as u64, (lon->0).1 as u8),
                    ew: ew->0,
                    status: status->0,
                    nosv: nosv->0 as u8,
                    hdop: ((hdop->0).0 as u16, (hdop->0).1 as u8),
                    altitude: ((alt->0).0 as u32, (alt->0).1 as u8),
                    alt_unit: alt_unit->0,
                    alt_ref: ((alt_ref->0).0 as i32, (alt_ref->0).1 as u8),
                    alt_ref_unit: alt_ref_unit->0,
                    diff_age: match diff_age->0 {
                        Some(v) => Some(v as u8),
                        None => None,
                    },
                    diff_station: match diff_station->0 {
                        Some(v) => Some(v as u16),
                        None => None,
                    },
                },
            )
        } else {
            None
        }
    }
}

/// Whether the token at position `q` of the schema is acceptable for
/// that field.
pub open spec fn spec_field_ok(ts: Seq<Seq<u8>>, q: int) -> bool {
    if q == 0 {
        spec_parse_fixed_unsigned(ts[0], 2, 0xffff_ffff) is Some
    } else if q == 1 {
        spec_parse_fixed_unknown_unsigned(ts[1], 0xffff_ffff_ffff_ffff) is Some
    } else if q == 2 {
        spec_ns(ts[2]) is Some
    } else if q == 3 {
        spec_parse_fixed_unknown_unsigned(ts[3], 0xffff_ffff_ffff_ffff) is Some
    } else if q == 4 {
        spec_ew(ts[4]) is Some
    } else if q == 5 {
        spec_fix_status(ts[5]) is Some
    } else if q == 6 {
        spec_parse_unsigned(ts[6], 0xff) is Some
    } else if q == 7 {
        spec_parse_fixed_unknown_unsigned(ts[7], 0xffff) is Some
    } else if q == 8 {
        spec_parse_fixed_unknown_unsigned(ts[8], 0xffff_ffff) is Some
    } else if q == 9 {
        spec_len_unit(ts[9]) is Some
    } else if q == 10 {
        spec_parse_fixed_unknown_signed(ts[10], -0x8000_0000, 0x7fff_ffff) is Some
    } else if q == 11 {
        spec_len_unit(ts[11]) is Some
    } else if q == 12 {
        spec_parse_opt_unsigned(ts[12], 0xff) is Some
    } else {
        spec_parse_opt_unsigned(ts[13], 0xffff) is Some
    }
}

/// The wire name reported for the field at position `q`.
pub open spec fn spec_field_name(q: int) -> &'static str {
    if q == 0 {
        "GPGGA:UTCTime"
    } else if q == 1 {
        "GPGGA:Latitude"
    } else if q == 2 {
        "GPGGA:N"
    } else if q == 3 {
        "GPGGA:Longitude"
    } else if q == 4 {
        "GPGGA:E"
    } else if q == 5 {
        "GPGGA:FS"
    } else if q == 6 {
        "GPGGA:NoSV"
    } else if q == 7 {
        "GPGGA:HDOP"
    } else if q == 8 {
        "GPGGA:Altitude"
    } else if q == 9 {
        "GPGGA:AltUnit"
    } else if q == 10 {
        "GPGGA:Altref"
    } else if q == 11 {
        "GPGGA:AltrefUnit"
    } else if q == 12 {
        "GPGGA:DiffAge"
    } else {
        "GPGGA:DiffStation"
    }
}

impl NS {
    /// Decodes the hemisphere token.
    pub fn from_token(t: &[u8]) -> (r: Option<NS>)
        ensures
            r == spec_ns(t@),
    {
        if t.len() != 1 {
            return None;
        }
        match t[0] {
            78 => Some(NS::N),
            83 => Some(NS::S),
            _ => None,
        }
    }
}

impl EW {
    /// Decodes the hemisphere token.
    pub fn from_token(t: &[u8]) -> (r: Option<EW>)
        ensures
            r == spec_ew(t@),
    {
        if t.len() != 1 {
            return None;
        }
        match t[0] {
            69 => Some(EW::E),
            87 => Some(EW::W),
            _ => None,
        }
    }
}

impl Status {
    /// Decodes the fix-quality token.
    pub fn from_token(t: &[u8]) -> (r: Option<Status>)
        ensures
            r == spec_fix_status(t@),
    {
        if t.len() != 1 {
            return None;
        }
        match t[0] {
            48 => Some(Status::Init),
            49 => Some(Status::SinglePoint),
            50 => Some(Status::CodeDiff),
            52 => Some(Status::FixedSolution),
            53 => Some(Status::FloatSolution),
            54 => Some(Status::Estimating),
            55 => Some(Status::ManualFixed),
            56 => Some(Status::DeadReckoning),
            57 => Some(Status::WaasDiff),
            _ => None,
        }
    }
}

impl LenUnit {
    /// Decodes the unit token.
    pub fn from_token(t: &[u8]) -> (r: Option<LenUnit>)
        ensures
            r == spec_len_unit(t@),
    {
        if t.len() != 1 {
            return None;
        }
        match t[0] {
            77 => Some(LenUnit::M),
            _ => None,
        }
    }
}

/// Consumes the field at `k` as a latitude hemisphere letter.
fn take_ns(toks: &Vec<Vec<u8>>, k: usize, name: &'static str) -> (r: Result<NS, BodyParseError>)
    ensures
        ({
            let ts = toks.deep_view();
            &&& (r is Ok <==> k < ts.len() && spec_ns(ts[k as int]) is Some)
            &&& (r matches Ok(v) ==> spec_ns(ts[k as int]) == Some(v))
            &&& (k >= ts.len() ==> r == Err::<NS, BodyParseError>(BodyParseError::MissingField(
                name,
            )))
            &&& (r matches Err(e) ==> k >= ts.len() || (e matches BodyParseError::ParseFailed(
                nm,
                raw,
            ) && nm == name && raw@ == ts[k as int]))
        }),
{
    if k >= toks.len() {
        return Err(BodyParseError::MissingField(name));
    }
    proof {
        assert(toks.deep_view()[k as int] =~= toks@[k as int]@);
    }
    match NS::from_token(toks[k].as_slice()) {
        Some(v) => Ok(v),
        None => Err(BodyParseError::ParseFailed(name, vstd::slice::slice_to_vec(
            toks[k].as_slice(),
        ))),
    }
}

/// Consumes the field at `k` as a longitude hemisphere letter.
fn take_ew(toks: &Vec<Vec<u8>>, k: usize, name: &'static str) -> (r: Result<EW, BodyParseError>)
    ensures
        ({
            let ts = toks.deep_view();
            &&& (r is Ok <==> k < ts.len() && spec_ew(ts[k as int]) is Some)
            &&& (r matches Ok(v) ==> spec_ew(ts[k as int]) == Some(v))
            &&& (k >= ts.len() ==> r == Err::<EW, BodyParseError>(BodyParseError::MissingField(
                name,
            )))
            &&& (r matches Err(e) ==> k >= ts.len() || (e matches BodyParseError::ParseFailed(
                nm,
                raw,
            ) && nm == name && raw@ == ts[k as int]))
        }),
{
    if k >= toks.len() {
        return Err(BodyParseError::MissingField(name));
    }
    proof {
        assert(toks.deep_view()[k as int] =~= toks@[k as int]@);
    }
    match EW::from_token(toks[k].as_slice()) {
        Some(v) => Ok(v),
        None => Err(BodyParseError::ParseFailed(name, vstd::slice::slice_to_vec(
            toks[k].as_slice(),
        ))),
    }
}

/// Consumes the field at `k` as a fix-quality letter.
fn take_fix_status(toks: &Vec<Vec<u8>>, k: usize, name: &'static str) -> (r: Result<
    Status,
    BodyParseError,
>)
    ensures
        ({
            let ts = toks.deep_view();
            &&& (r is Ok <==> k < ts.len() && spec_fix_status(ts[k as int]) is Some)
            &&& (r matches Ok(v) ==> spec_fix_status(ts[k as int]) == Some(v))
            &&& (k >= ts.len() ==> r == Err::<Status, BodyParseError>(
                BodyParseError::MissingField(name),
            ))
            &&& (r matches Err(e) ==> k >= ts.len() || (e matches BodyParseError::ParseFailed(
                nm,
                raw,
            ) && nm == name && raw@ == ts[k as int]))
        }),
{
    if k >= toks.len() {
        return Err(BodyParseError::MissingField(name));
    }
    proof {
        assert(toks.deep_view()[k as int] =~= toks@[k as int]@);
    }
    match Status::from_token(toks[k].as_slice()) {
        Some(v) => Ok(v),
        None => Err(BodyParseError::ParseFailed(name, vstd::slice::slice_to_vec(
            toks[k].as_slice(),
        ))),
    }
}

/// Consumes the field at `k` as a length-unit letter.
fn take_len_unit(toks: &Vec<Vec<u8>>, k: usize, name: &'static str) -> (r: Result<
    LenUnit,
    BodyParseError,
>)
    ensures
        ({
            let ts = toks.deep_view();
            &&& (r is Ok <==> k < ts.len() && spec_len_unit(ts[k as int]) is Some)
            &&& (r matches Ok(v) ==> spec_len_unit(ts[k as int]) == Some(v))
            &&& (k >= ts.len() ==> r == Err::<LenUnit, BodyParseError>(
                BodyParseError::MissingField(name),
            ))
            &&& (r matches Err(e) ==> k >= ts.len() || (e matches BodyParseError::ParseFailed(
                nm,
                raw,
            ) && nm == name && raw@ == ts[k as int]))
        }),
{
    if k >= toks.len() {
        return Err(BodyParseError::MissingField(name));
    }
    proof {
        assert(toks.deep_view()[k as int] =~= toks@[k as int]@);
    }
    match LenUnit::from_token(toks[k].as_slice()) {
        Some(v) => Ok(v),
        None => Err(BodyParseError::ParseFailed(name, vstd::slice::slice_to_vec(
            toks[k].as_slice(),
        ))),
    }
}

impl Body {
    /// Decodes the comma-separated fields of a sentence tail.
    pub fn from_bytes(s: &[u8]) -> (r: Result<Body, BodyParseError>)
        ensures
            r is Ok <==> spec_parse(s@) is Some,
            r matches Ok(b) ==> Some(b) == spec_parse(s@),
            r matches Err(e) ==> ({
                let ts = spec_split(s@);
                exists|q: int|
                    #![auto]
                    0 <= q < 14 && (forall|p: int| 0 <= p < q ==> p < ts.len() && spec_field_ok(
                        ts,
                        p,
                    )) && if q >= ts.len() {
                        e is MissingField && e->MissingField_0@ == spec_field_name(q)@
                    } else {
                        !spec_field_ok(ts, q) && e is ParseFailed && e->ParseFailed_0@
                            == spec_field_name(q)@ && e->ParseFailed_1@ == ts[q]
                    }
            }),
    {
        proof {
            reveal(spec_parse);
        }
        let toks = split_commas(s);
        let utc_time = take_fixed_unsigned(&toks, 0, "GPGGA:UTCTime", 2, 0xffff_ffff)? as u32;
        let lat = take_fixed_unknown_unsigned(&toks, 1, "GPGGA:Latitude", 0xffff_ffff_ffff_ffff)?;
        let ns = take_ns(&toks, 2, "GPGGA:N")?;
        let lon = take_fixed_unknown_unsigned(&toks, 3, "GPGGA:Longitude", 0xffff_ffff_ffff_ffff)?;
        let ew = take_ew(&toks, 4, "GPGGA:E")?;
        let status = take_fix_status(&toks, 5, "GPGGA:FS")?;
        let nosv = take_unsigned(&toks, 6, "GPGGA:NoSV", 0xff)? as u8;
        let hdop = take_fixed_unknown_unsigned(&toks, 7, "GPGGA:HDOP", 0xffff)?;
        let alt = take_fixed_unknown_unsigned(&toks, 8, "GPGGA:Altitude", 0xffff_ffff)?;
        let alt_unit = take_len_unit(&toks, 9, "GPGGA:AltUnit")?;
        let alt_ref = take_fixed_unknown_signed(
            &toks,
            10,
            "GPGGA:Altref",
            -0x8000_0000,
            0x7fff_ffff,
        )?;
        let alt_ref_unit = take_len_unit(&toks, 11, "GPGGA:AltrefUnit")?;
        let diff_age = take_opt_unsigned(&toks, 12, "GPGGA:DiffAge", 0xff)?;
        let diff_station = take_opt_unsigned(&toks, 13, "GPGGA:DiffStation", 0xffff)?;
        let body = Body {
            utc_time,
            latitude: (lat.0, lat.1),
            ns,
            longitude: (lon.0, lon.1),
            ew,
            status,
            nosv,
            hdop: (hdop.0 as u16, hdop.1),
            altitude: (alt.0 as u32, alt.1),
            alt_unit,
            alt_ref: (alt_ref.0 as i32, alt_ref.1),
            alt_ref_unit,
            diff_age: match diff_age {
                Some(v) => Some(v as u8),
                None => None,
            },
            diff_station: match diff_station {
                Some(v) => Some(v as u16),
                None => None,
            },
        };
        Ok(body)
    }
}

} // verus!
