//! The raw inertial sentence: angular rates, accelerations, and the
//! sensor temperature.
use vstd::prelude::*;

use crate::BodyParseError;
use crate::fields::{spec_parse_fixed_signed, spec_parse_fixed_unsigned, spec_parse_unsigned};
use crate::tokens::{
    spec_split, split_commas, take_fixed_signed, take_fixed_unsigned, take_unsigned,
};

verus! {

/// Decoded body: the week and millisecond-of-week stamps, the three
/// gyro axes and three accelerometer axes scaled by `10^4`, and the
/// temperature scaled by `10`.
#[derive(Debug, PartialEq, Eq, Structural, Clone, Copy)]
pub struct Body {
    pub gps_week: u16,
    pub gps_time: u32,
    pub gyro_x: i32,
    pub gyro_y: i32,
    pub gyro_z: i32,
    pub acc_x: i32,
    pub acc_y: i32,
    pub acc_z: i32,
    pub tpr: i16,
}

/// The body this sentence tail denotes, when each of its nine fields
/// is present and well-formed.
#[verifier::opaque]
pub open spec fn spec_parse(s: Seq<u8>) -> Option<Body> {
    let ts = spec_split(s);
    if ts.len() < 9 {
        None
    } else {
        let week = spec_parse_unsigned(ts[0], 0xffff);
        let time = spec_parse_fixed_unsigned(ts[1], 3, 0xffff_ffff);
        let gx = spec_parse_fixed_signed(ts[2], 4, -0x8000_0000, 0x7fff_ffff);
        let gy = spec_parse_fixed_signed(ts[3], 4, -0x8000_0000, 0x7fff_ffff);
        let gz = spec_parse_fixed_signed(ts[4], 4, -0x8000_0000, 0x7fff_ffff);
        let ax = spec_parse_fixed_signed(ts[5], 4, -0x8000_0000, 0x7fff_ffff);
        let ay = spec_parse_fixed_signed(ts[6], 4, -0x8000_0000, 0x7fff_ffff);
        let az = spec_parse_fixed_signed(ts[7], 4, -0x8000_0000, 0x7fff_ffff);
        let tpr = spec_parse_fixed_signed(ts[8], 1, -0x8000, 0x7fff);
        if week is Some && time is Some && gx is Some && gy is Some && gz is Some && ax is Some
            && ay is Some && az is Some && tpr is Some {
            Some(
                Body {
                    gps_week: week->0 as u16,
                    gps_time: time->0 as u32,
                    gyro_x: gx->0 as i32,
                    gyro_y: gy->0 as i32,
                    gyro_z: gz->0 as i32,
                    acc_x: ax->0 as i32,
                    acc_y: ay->0 as i32,
                    acc_z: az->0 as i32,
                    tpr: tpr->0 as i16,
                },
            )
        } else {
            None
        }
    }
}

/// Whether the token at position `q` of the schema is acceptable for
/// that field.
pub open spec fn spec_field_ok(ts: Seq<Seq<u8>>, q: int) -> bool {
    if q == 0 {
        spec_parse_unsigned(ts[0], 0xffff) is Some
    } else if q == 1 {
        spec_parse_fixed_unsigned(ts[1], 3, 0xffff_ffff) is Some
    } else if q == 8 {
        spec_parse_fixed_signed(ts[8], 1, -0x8000, 0x7fff) is Some
    } else {
        spec_parse_fixed_signed(ts[q], 4, -0x8000_0000, 0x7fff_ffff) is Some
    }
}

/// The wire name reported for the field at position `q`.
pub open spec fn spec_field_name(q: int) -> &'static str {
    if q == 0 {
        "GTIMU:GPSWeek"
    } else if q == 1 {
        "GTIMU:GPSTime"
    } else if q == 2 {
        "GTIMU:GyroX"
    } else if q == 3 {
        "GTIMU:GyroY"
    } else if q == 4 {
        "GTIMU:GyroZ"
    } else if q == 5 {
        "GTIMU:AccX"
    } else if q == 6 {
        "GTIMU:AccY"
    } else if q == 7 {
        "GTIMU:AccZ"
    } else {
        "GTIMU:Tpr"
    }
}

impl Body {
    /// Decodes the comma-separated fields of a sentence tail.
    pub fn from_bytes(s: &[u8]) -> (r: Result<Body, BodyParseError>)
        ensures
            r is Ok <==> spec_parse(s@) is Some,
            r matches Ok(b) ==> Some(b) == spec_parse(s@),
            r matches Err(e) ==> ({
                let ts = spec_split(s@);
                exists|q: int|
                    #![auto]
                    0 <= q < 9 && (forall|p: int| 0 <= p < q ==> p < ts.len() && spec_field_ok(
                        ts,
                        p,
                    )) && if q >= ts.len() {
                        e is MissingField && e->MissingField_0@ == spec_field_name(q)@
                    } else {
                        !spec_field_ok(ts, q) && e is ParseFailed && e->ParseFailed_0@
                            == spec_field_name(q)@ && e->ParseFailed_1@ == ts[q]
                    }
            }),
    {
        proof {
            reveal(spec_parse);
        }
        let toks = split_commas(s);
        let body = Body {
            gps_week: take_unsigned(&toks, 0, "GTIMU:GPSWeek", 0xffff)? as u16,
            gps_time: take_fixed_unsigned(&toks, 1, "GTIMU:GPSTime", 3, 0xffff_ffff)? as u32,
            gyro_x: take_fixed_signed(&toks, 2, "GTIMU:GyroX", 4, -0x8000_0000, 0x7fff_ffff)?
                as i32,
            gyro_y: take_fixed_signed(&toks, 3, "GTIMU:GyroY", 4, -0x8000_0000, 0x7fff_ffff)?
                as i32,
            gyro_z: take_fixed_signed(&toks, 4, "GTIMU:GyroZ", 4, -0x8000_0000, 0x7fff_ffff)?
                as i32,
            acc_x: take_fixed_signed(&toks, 5, "GTIMU:AccX", 4, -0x8000_0000, 0x7fff_ffff)? as i32,
            acc_y: take_fixed_signed(&toks, 6, "GTIMU:AccY", 4, -0x8000_0000, 0x7fff_ffff)? as i32,
            acc_z: take_fixed_signed(&toks, 7, "GTIMU:AccZ", 4, -0x8000_0000, 0x7fff_ffff)? as i32,
            tpr: take_fixed_signed(&toks, 8, "GTIMU:Tpr", 1, -0x8000, 0x7fff)? as i16,
        };
        Ok(body)
    }
}

} // verus!
