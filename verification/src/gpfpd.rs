//! The attitude/position composite sentence.
use vstd::prelude::*;

use crate::BodyParseError;
use crate::fields::{spec_parse_fixed_signed, spec_parse_fixed_unsigned, spec_parse_unsigned};
use crate::tokens::{
    spec_split, split_commas, take_fixed_signed, take_fixed_unsigned, take_unsigned,
};

verus! {

/// Decoded body. Angles are scaled by `10^3`, coordinates by `10^7`,
/// the altitude by `10^2`; velocities and the baseline are in
/// millimetre units.
#[derive(Debug, PartialEq, Eq, Structural, Clone, Copy)]
pub struct Body {
    pub gps_week: u16,
    pub gps_time: u32,
    pub heading: u32,
    pub pitch: i32,
    pub roll: i32,
    pub latitude: i32,
    pub longitude: i32,
    pub altitude: i32,
    pub vel_e: i32,
    pub vel_n: i32,
    pub vel_u: i32,
    pub baseline: u16,
    pub nsv1: u8,
    pub nsv2: u8,
    pub status: Status,
}

/// The two-character status field: the second character names the
/// system state, the first the satellite solution.
#[derive(Debug, PartialEq, Eq, Structural, Clone, Copy)]
pub struct Status(pub SystemStatus, pub RtkStatus);

/// System state, one character of the closed set.
#[derive(Debug, PartialEq, Eq, Structural, Clone, Copy)]
pub enum SystemStatus {
    Init,
    CoarseAlign,
    FineAlign,
    GpsLocation,
    GpsHeading,
    Rtk,
    DmiCombined,
    DmiCalibration,
    PureInertial,
    ZeroVelocity,
    VgMode,
    DiffHeading,
    DynamicAlign,
    DynamicError,
}

/// Satellite solution state, one character of the closed set.
#[derive(Debug, PartialEq, Eq, Structural, Clone, Copy)]
pub enum RtkStatus {
    Gps1Bd,
    DualMode,
    RtkFixed,
    RtkFloat,
}

/// The system state a status character denotes: `0`-`9`, `A`-`C`
/// or `F`.
pub open spec fn spec_system_status(b: u8) -> Option<SystemStatus> {
    match b {
        48 => Some(SystemStatus::Init),
        49 => Some(SystemStatus::CoarseAlign),
        50 => Some(SystemStatus::FineAlign),
        51 => Some(SystemStatus::GpsLocation),
        52 => Some(SystemStatus::GpsHeading),
        53 => Some(SystemStatus::Rtk),
        54 => Some(SystemStatus::DmiCombined),
        55 => Some(SystemStatus::DmiCalibration),
        56 => Some(SystemStatus::PureInertial),
        57 => Some(SystemStatus::ZeroVelocity),
        65 => Some(SystemStatus::VgMode),
        66 => Some(SystemStatus::DiffHeading),
        67 => Some(SystemStatus::DynamicAlign),
        70 => Some(SystemStatus::DynamicError),
        _ => None,
    }
}

/// The satellite solution a status character denotes: `0`, `2`, `4`
/// or `5`.
pub open spec fn spec_rtk_status(b: u8) -> Option<RtkStatus> {
    match b {
        48 => Some(RtkStatus::Gps1Bd),
        50 => Some(RtkStatus::DualMode),
        52 => Some(RtkStatus::RtkFixed),
        53 => Some(RtkStatus::RtkFloat),
        _ => None,
    }
}

/// The status a two-character token denotes.
pub open spec fn spec_status(t: Seq<u8>) -> Option<Status> {
    if t.len() == 2 {
        match (spec_system_status(t[1]), spec_rtk_status(t[0])) {
            (Some(sys), Some(rtk)) => Some(Status(sys, rtk)),
            _ => None,
        }
    } else {
        None
    }
}

/// The body this sentence tail denotes, when each of its fifteen
/// fields is present and well-formed.
#[verifier::opaque]
pub open spec fn spec_parse(s: Seq<u8>) -> Option<Body> {
    let ts = spec_split(s);
    if ts.len() < 15 {
        None
    } else {
        let week = spec_parse_unsigned(ts[0], 0xffff);
        let time = spec_parse_fixed_unsigned(ts[1], 3, 0xffff_ffff);
        let heading = spec_parse_fixed_unsigned(ts[2], 3, 0xffff_ffff);
        let pitch = spec_parse_fixed_signed(ts[3], 3, -0x8000_0000, 0x7fff_ffff);
        let roll = spec_parse_fixed_signed(ts[4], 3, -0x8000_0000, 0x7fff_ffff);
        let lat = spec_parse_fixed_signed(ts[5], 7, -0x8000_0000, 0x7fff_ffff);
        let lon = spec_parse_fixed_signed(ts[6], 7, -0x8000_0000, 0x7fff_ffff);
        let alt = spec_parse_fixed_signed(ts[7], 2, -0x8000_0000, 0x7fff_ffff);
        let ve = spec_parse_fixed_signed(ts[8], 3, -0x8000_0000, 0x7fff_ffff);
        let vn = spec_parse_fixed_signed(ts[9], 3, -0x8000_0000, 0x7fff_ffff);
        let vu = spec_parse_fixed_signed(ts[10], 3, -0x8000_0000, 0x7fff_ffff);
        let baseline = spec_parse_fixed_unsigned(ts[11], 3, 0xffff);
        let nsv1 = spec_parse_unsigned(ts[12], 0xff);
        let nsv2 = spec_parse_unsigned(ts[13], 0xff);
        let status = spec_status(ts[14]);
        if week is Some && time is Some && heading is Some && pitch is Some && roll is Some
            && lat is Some && lon is Some && alt is Some && ve is Some && vn is Some && vu is Some
            && baseline is Some && nsv1 is Some && nsv2 is Some && status is Some {
            Some(
                Body {
                    gps_week: week->0 as u16,
                    gps_time: time->0 as u32,
                    heading: heading->0 as u32,
                    pitch: pitch->0 as i32,
                    roll: roll->0 as i32,
                    latitude: lat->0 as i32,
                    longitude: lon->0 as i32,
                    altitude: alt->0 as i32,
                    vel_e: ve->0 as i32,
                    vel_n: vn->0 as i32,
                    vel_u: vu->0 as i32,
                    baseline: baseline->0 as u16,
                    nsv1: nsv1->0 as u8,
                    nsv2: nsv2->0 as u8,
                    status: status->0,
                },
            )
        } else {
            None
        }
    }
}

/// Whether the token at position `q` of the schema is acceptable for
/// that field.
pub open spec fn spec_field_ok(ts: Seq<Seq<u8>>, q: int) -> bool {
    if q == 0 {
        spec_parse_unsigned(ts[0], 0xffff) is Some
    } else if q == 1 {
        spec_parse_fixed_unsigned(ts[1], 3, 0xffff_ffff) is Some
    } else if q == 2 {
        spec_parse_fixed_unsigned(ts[2], 3, 0xffff_ffff) is Some
    } else if q == 3 {
        spec_parse_fixed_signed(ts[3], 3, -0x8000_0000, 0x7fff_ffff) is Some
    } else if q == 4 {
        spec_parse_fixed_signed(ts[4], 3, -0x8000_0000, 0x7fff_ffff) is Some
    } else if q == 5 {
        spec_parse_fixed_signed(ts[5], 7, -0x8000_0000, 0x7fff_ffff) is Some
    } else if q == 6 {
        spec_parse_fixed_signed(ts[6], 7, -0x8000_0000, 0x7fff_ffff) is Some
    } else if q == 7 {
        spec_parse_fixed_signed(ts[7], 2, -0x8000_0000, 0x7fff_ffff) is Some
    } else if q == 8 {
        spec_parse_fixed_signed(ts[8], 3, -0x8000_0000, 0x7fff_ffff) is Some
    } else if q == 9 {
        spec_parse_fixed_signed(ts[9], 3, -0x8000_0000, 0x7fff_ffff) is Some
    } else if q == 10 {
        spec_parse_fixed_signed(ts[10], 3, -0x8000_0000, 0x7fff_ffff) is Some
    } else if q == 11 {
        spec_parse_fixed_unsigned(ts[11], 3, 0xffff) is Some
    } else if q == 12 {
        spec_parse_unsigned(ts[12], 0xff) is Some
    } else if q == 13 {
        spec_parse_unsigned(ts[13], 0xff) is Some
    } else {
        spec_status(ts[14]) is Some
    }
}

/// The wire name reported for the field at position `q`.
pub open spec fn spec_field_name(q: int) -> &'static str {
    if q == 0 {
        "GPFPD:GPSWeek"
    } else if q == 1 {
        "GPFPD:GPSTime"
    } else if q == 2 {
        "GPFPD:Heading"
    } else if q == 3 {
        "GPFPD:Pitch"
    } else if q == 4 {
        "GPFPD:Roll"
    } else if q == 5 {
        "GPFPD:Latitude"
    } else if q == 6 {
        "GPFPD:Longitude"
    } else if q == 7 {
        "GPFPD:Altitude"
    } else if q == 8 {
        "GPFPD:Ve"
    } else if q == 9 {
        "GPFPD:Vn"
    } else if q == 10 {
        "GPFPD:Vu"
    } else if q == 11 {
        "GPFPD:Baseline"
    } else if q == 12 {
        "GPFPD:NSV1"
    } else if q == 13 {
        "GPFPD:NSV2"
    } else {
        "GPFPD:Status"
    }
}

impl SystemStatus {
    /// Decodes one system-state character.
    pub fn from_byte(b: u8) -> (r: Option<SystemStatus>)
        ensures
            r == spec_system_status(b),
    {
        match b {
            48 => Some(SystemStatus::Init),
            49 => Some(SystemStatus::CoarseAlign),
            50 => Some(SystemStatus::FineAlign),
            51 => Some(SystemStatus::GpsLocation),
            52 => Some(SystemStatus::GpsHeading),
            53 => Some(SystemStatus::Rtk),
            54 => Some(SystemStatus::DmiCombined),
            55 => Some(SystemStatus::DmiCalibration),
            56 => Some(SystemStatus::PureInertial),
            57 => Some(SystemStatus::ZeroVelocity),
            65 => Some(SystemStatus::VgMode),
            66 => Some(SystemStatus::DiffHeading),
            67 => Some(SystemStatus::DynamicAlign),
            70 => Some(SystemStatus::DynamicError),
            _ => None,
        }
    }
}

impl RtkStatus {
    /// Decodes one satellite-solution character.
    pub fn from_byte(b: u8) -> (r: Option<RtkStatus>)
        ensures
            r == spec_rtk_status(b),
    {
        match b {
            48 => Some(RtkStatus::Gps1Bd),
            50 => Some(RtkStatus::DualMode),
            52 => Some(RtkStatus::RtkFixed),
            53 => Some(RtkStatus::RtkFloat),
            _ => None,
        }
    }
}

impl Status {
    /// Decodes the two-character status token.
    pub fn from_token(t: &[u8]) -> (r: Option<Status>)
        ensures
            r == spec_status(t@),
    {
        if t.len() != 2 {
            return None;
        }
        match (SystemStatus::from_byte(t[1]), RtkStatus::from_byte(t[0])) {
            (Some(sys), Some(rtk)) => Some(Status(sys, rtk)),
            _ => None,
        }
    }
}

/// Consumes the field at `k` as a two-character status token.
fn take_status(toks: &Vec<Vec<u8>>, k: usize, name: &'static str) -> (r: Result<
    Status,
    BodyParseError,
>)
    ensures
        ({
            let ts = toks.deep_view();
            &&& (r is Ok <==> k < ts.len() && spec_status(ts[k as int]) is Some)
            &&& (r matches Ok(v) ==> spec_status(ts[k as int]) == Some(v))
            &&& (k >= ts.len() ==> r == Err::<Status, BodyParseError>(
                BodyParseError::MissingField(name),
            ))
            &&& (r matches Err(e) ==> k >= ts.len() || (e matches BodyParseError::ParseFailed(
                nm,
                raw,
            ) && nm == name && raw@ == ts[k as int]))
        }),
{
    if k >= toks.len() {
        return Err(BodyParseError::MissingField(name));
    }
    proof {
        assert(toks.deep_view()[k as int] =~= toks@[k as int]@);
    }
    match Status::from_token(toks[k].as_slice()) {
        Some(v) => Ok(v),
        None => Err(BodyParseError::ParseFailed(name, vstd::slice::slice_to_vec(
            toks[k].as_slice(),
        ))),
    }
}

impl Body {
    /// Decodes the comma-separated fields of a sentence tail.
    pub fn from_bytes(s: &[u8]) -> (r: Result<Body, BodyParseError>)
        ensures
            r is Ok <==> spec_parse(s@) is Some,
            r matches Ok(b) ==> Some(b) == spec_parse(s@),
            r matches Err(e) ==> ({
                let ts = spec_split(s@);
                exists|q: int|
                    #![auto]
                    0 <= q < 15 && (forall|p: int| 0 <= p < q ==> p < ts.len() && spec_field_ok(
                        ts,
                        p,
                    )) && if q >= ts.len() {
                        e is MissingField && e->MissingField_0@ == spec_field_name(q)@
                    } else {
                        !spec_field_ok(ts, q) && e is ParseFailed && e->ParseFailed_0@
                            == spec_field_name(q)@ && e->ParseFailed_1@ == ts[q]
                    }
            }),
    {
        proof {
            reveal(spec_parse);
        }
        let toks = split_commas(s);
        let body = Body {
            gps_week: take_unsigned(&toks, 0, "GPFPD:GPSWeek", 0xffff)? as u16,
            gps_time: take_fixed_unsigned(&toks, 1, "GPFPD:GPSTime", 3, 0xffff_ffff)? as u32,
            heading: take_fixed_unsigned(&toks, 2, "GPFPD:Heading", 3, 0xffff_ffff)? as u32,
            pitch: take_fixed_signed(&toks, 3, "GPFPD:Pitch", 3, -0x8000_0000, 0x7fff_ffff)?
                as i32,
            roll: take_fixed_signed(&toks, 4, "GPFPD:Roll", 3, -0x8000_0000, 0x7fff_ffff)? as i32,
            latitude: take_fixed_signed(&toks, 5, "GPFPD:Latitude", 7, -0x8000_0000, 0x7fff_ffff)?
                as i32,
            longitude: take_fixed_signed(
                &toks,
                6,
                "GPFPD:Longitude",
                7,
                -0x8000_0000,
                0x7fff_ffff,
            )? as i32,
            altitude: take_fixed_signed(&toks, 7, "GPFPD:Altitude", 2, -0x8000_0000, 0x7fff_ffff)?
                as i32,
            vel_e: take_fixed_signed(&toks, 8, "GPFPD:Ve", 3, -0x8000_0000, 0x7fff_ffff)? as i32,
            vel_n: take_fixed_signed(&toks, 9, "GPFPD:Vn", 3, -0x8000_0000, 0x7fff_ffff)? as i32,
            vel_u: take_fixed_signed(&toks, 10, "GPFPD:Vu", 3, -0x8000_0000, 0x7fff_ffff)? as i32,
            baseline: take_fixed_unsigned(&toks, 11, "GPFPD:Baseline", 3, 0xffff)? as u16,
            nsv1: take_unsigned(&toks, 12, "GPFPD:NSV1", 0xff)? as u8,
            nsv2: take_unsigned(&toks, 13, "GPFPD:NSV2", 0xff)? as u8,
            status: take_status(&toks, 14, "GPFPD:Status")?,
        };
        Ok(body)
    }
}

} // verus!
