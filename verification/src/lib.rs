#![verifier::loop_isolation(false)]
pub mod ascii;
pub mod cmd;
pub mod fields;
pub mod gpfpd;
pub mod gpgga;
pub mod gphpd;
pub mod gtimu;
pub mod hex;
pub mod parser;
pub mod search;
pub mod tokens;

pub use parser::NmeaParser;

use vstd::prelude::*;

use crate::ascii::{COMMA, DOLLAR, STAR};
use crate::hex::spec_cs_digits;
use crate::search::{find_byte_from, find_from, lemma_find_from};

verus! {

/// Why decoding a sentence body failed: a required field was absent,
/// or a field's token could not be converted. The second value of
/// `ParseFailed` is the offending token's bytes.
#[derive(Debug, PartialEq)]
pub enum BodyParseError {
    MissingField(&'static str),
    ParseFailed(&'static str, Vec<u8>),
}

/// One decoded sentence. Kinds whose interior structure is not
/// modelled keep their tail bytes verbatim; the GGA-style fix keeps
/// its raw tail beside the decoded body so it can be re-serialized
/// byte-exactly.
#[derive(Debug, PartialEq)]
pub enum NmeaLine {
    GPFPD(gpfpd::Body),
    GTIMU(gtimu::Body),
    GPHPD(gphpd::Body),
    GPGGA(gpgga::Body, Vec<u8>),
    GPRMC(Vec<u8>),
    GPCHC(Vec<u8>),
    CMD(cmd::Body),
    Unknown(Vec<u8>, Vec<u8>),
}

/// Spec-level shape of a decoded sentence, over byte sequences.
pub enum LineView {
    Gpfpd(gpfpd::Body),
    Gtimu(gtimu::Body),
    Gphpd(gphpd::Body),
    Gpgga(gpgga::Body, Seq<u8>),
    Gprmc(Seq<u8>),
    Gpchc(Seq<u8>),
    Cmd(cmd::CmdView),
    Unknown(Seq<u8>, Seq<u8>),
}

impl View for NmeaLine {
    type V = LineView;

    open spec fn view(&self) -> LineView {
        match self {
            NmeaLine::GPFPD(b) => LineView::Gpfpd(*b),
            NmeaLine::GTIMU(b) => LineView::Gtimu(*b),
            NmeaLine::GPHPD(b) => LineView::Gphpd(*b),
            NmeaLine::GPGGA(b, t) => LineView::Gpgga(*b, t@),
            NmeaLine::GPRMC(t) => LineView::Gprmc(t@),
            NmeaLine::GPCHC(t) => LineView::Gpchc(t@),
            NmeaLine::CMD(b) => LineView::Cmd(b@),
            NmeaLine::Unknown(h, t) => LineView::Unknown(h@, t@),
        }
    }
}

/// The bytes of `GPFPD`.
pub open spec fn head_gpfpd() -> Seq<u8> {
    seq![71u8, 80u8, 70u8, 80u8, 68u8]
}

/// The bytes of `GTIMU`.
pub open spec fn head_gtimu() -> Seq<u8> {
    seq![71u8, 84u8, 73u8, 77u8, 85u8]
}

/// The bytes of `GPHPD`.
pub open spec fn head_gphpd() -> Seq<u8> {
    seq![71u8, 80u8, 72u8, 80u8, 68u8]
}

/// The bytes of `GPGGA`.
pub open spec fn head_gpgga() -> Seq<u8> {
    seq![71u8, 80u8, 71u8, 71u8, 65u8]
}

/// The bytes of `GPRMC`.
pub open spec fn head_gprmc() -> Seq<u8> {
    seq![71u8, 80u8, 82u8, 77u8, 67u8]
}

/// The bytes of `GPCHC`.
pub open spec fn head_gpchc() -> Seq<u8> {
    seq![71u8, 80u8, 67u8, 72u8, 67u8]
}

/// The bytes of `cmd`.
pub open spec fn head_cmd() -> Seq<u8> {
    seq![99u8, 109u8, 100u8]
}

/// The line a sentence interior denotes: the part before the first
/// comma picks the kind, the rest is decoded by that kind's schema.
/// An interior with no comma, or a body its schema rejects, denotes
/// nothing.
#[verifier::opaque]
pub open spec fn spec_parse_line(s: Seq<u8>) -> Option<LineView> {
    let i = find_from(s, COMMA, 0);
    if !(0 <= i < s.len()) {
        None
    } else {
        let head = s.subrange(0, i);
        let tail = s.subrange(i + 1, s.len() as int);
        if head == head_gpfpd() {
            match gpfpd::spec_parse(tail) {
                Some(b) => Some(LineView::Gpfpd(b)),
                None => None,
            }
        } else if head == head_gtimu() {
            match gtimu::spec_parse(tail) {
                Some(b) => Some(LineView::Gtimu(b)),
                None => None,
            }
        } else if head == head_gphpd() {
            match gphpd::spec_parse(tail) {
                Some(b) => Some(LineView::Gphpd(b)),
                None => None,
            }
        } else if head == head_gpgga() {
            match gpgga::spec_parse(tail) {
                Some(b) => Some(LineView::Gpgga(b, tail)),
                None => None,
            }
        } else if head == head_gprmc() {
            Some(LineView::Gprmc(tail))
        } else if head == head_gpchc() {
            Some(LineView::Gpchc(tail))
        } else if head == head_cmd() {
            match cmd::spec_parse(tail) {
                Some(c) => Some(LineView::Cmd(c)),
                None => None,
            }
        } else {
            Some(LineView::Unknown(head, tail))
        }
    }
}

/// Whether `h` is these five bytes.
fn is5(h: &[u8], a: u8, b: u8, c: u8, d: u8, e: u8) -> (r: bool)
    ensures
        r <==> h@ == seq![a, b, c, d, e],
{
    let ok = h.len() == 5 && h[0] == a && h[1] == b && h[2] == c && h[3] == d && h[4] == e;
    proof {
        if ok {
            assert(h@ =~= seq![a, b, c, d, e]);
        }
        if h@ == seq![a, b, c, d, e] {
            assert(h@.len() == 5);
        }
    }
    ok
}

/// Whether `h` is these three bytes.
fn is3(h: &[u8], a: u8, b: u8, c: u8) -> (r: bool)
    ensures
        r <==> h@ == seq![a, b, c],
{
    let ok = h.len() == 3 && h[0] == a && h[1] == b && h[2] == c;
    proof {
        if ok {
            assert(h@ =~= seq![a, b, c]);
        }
        if h@ == seq![a, b, c] {
            assert(h@.len() == 3);
        }
    }
    ok
}

impl NmeaLine {
    /// Decodes one sentence interior: the head token picks the kind,
    /// the tail is handed to that kind's field decoder.
    #[verifier::rlimit(100)]
    pub fn from_bytes(s: &[u8]) -> (r: Result<NmeaLine, BodyParseError>)
        ensures
            r is Ok <==> spec_parse_line(s@) is Some,
            r matches Ok(l) ==> Some(l@) == spec_parse_line(s@),
            r matches Err(e) ==> (find_from(s@, COMMA, 0) == s@.len() ==> (e
                matches BodyParseError::MissingField(nm) && nm@ == "NMEA:Head"@)),
    {
        let n = s.len();
        let i = find_byte_from(s, n, COMMA, 0);
        proof {
            reveal(spec_parse_line);
            assert(s@.take(n as int) =~= s@);
            lemma_find_from(s@, COMMA, 0);
        }
        if i == n {
            return Err(BodyParseError::MissingField("NMEA:Head"));
        }
        let head = vstd::slice::slice_subrange(s, 0, i);
        let tail = vstd::slice::slice_subrange(s, i + 1, n);
        if is5(head, 71, 80, 70, 80, 68) {
            Ok(NmeaLine::GPFPD(gpfpd::Body::from_bytes(tail)?))
        } else if is5(head, 71, 84, 73, 77, 85) {
            Ok(NmeaLine::GTIMU(gtimu::Body::from_bytes(tail)?))
        } else if is5(head, 71, 80, 72, 80, 68) {
            Ok(NmeaLine::GPHPD(gphpd::Body::from_bytes(tail)?))
        } else if is5(head, 71, 80, 71, 71, 65) {
            let body = gpgga::Body::from_bytes(tail)?;
            Ok(NmeaLine::GPGGA(body, vstd::slice::slice_to_vec(tail)))
        } else if is5(head, 71, 80, 82, 77, 67) {
            Ok(NmeaLine::GPRMC(vstd::slice::slice_to_vec(tail)))
        } else if is5(head, 71, 80, 67, 72, 67) {
            Ok(NmeaLine::GPCHC(vstd::slice::slice_to_vec(tail)))
        } else if is3(head, 99, 109, 100) {
            Ok(NmeaLine::CMD(cmd::Body::from_bytes(tail)?))
        } else {
            Ok(NmeaLine::Unknown(vstd::slice::slice_to_vec(head), vstd::slice::slice_to_vec(
                tail,
            )))
        }
    }
}

/// The wire form rebuilt from a head, a raw tail and a checksum byte:
/// `$HEAD,tail*XX` with upper-case digits and no terminator.
pub open spec fn spec_rebuild_nema(head: Seq<u8>, tail: Seq<u8>, cs: u8) -> Seq<u8> {
    seq![DOLLAR] + head + seq![COMMA] + tail + seq![STAR] + spec_cs_digits(cs)
}

/// Rebuilds the exact wire form of a sentence from its head, raw tail
/// and checksum byte, without a line terminator.
pub fn rebuild_nema(head: &[u8], tail: &[u8], cs: u8) -> (r: Vec<u8>)
    ensures
        r@ == spec_rebuild_nema(head@, tail@, cs),
{
    let mut r: Vec<u8> = Vec::new();
    r.push(DOLLAR);
    r.extend_from_slice(head);
    r.push(COMMA);
    r.extend_from_slice(tail);
    r.push(STAR);
    let (hi, lo) = crate::hex::encode_cs(cs);
    r.push(hi);
    r.push(lo);
    proof {
        assert(r@ =~= spec_rebuild_nema(head@, tail@, cs));
    }
    r
}

/// The head and raw tail a decoded line retains verbatim, for the
/// kinds that retain them.
pub open spec fn raw_parts(l: LineView) -> Option<(Seq<u8>, Seq<u8>)> {
    match l {
        LineView::Gpgga(_, t) => Some((head_gpgga(), t)),
        LineView::Gprmc(t) => Some((head_gprmc(), t)),
        LineView::Gpchc(t) => Some((head_gpchc(), t)),
        LineView::Unknown(h, t) => Some((h, t)),
        _ => None,
    }
}

/// Round trip for every sentence kind that retains raw tail text:
/// when an interior decodes to a line that keeps a head `h` and raw
/// tail `t`, rebuilding from `h`, `t` and any checksum byte `cs`
/// reproduces `$` + interior + `*` + the two digits of `cs` exactly —
/// and those two digits decode back to `cs`.
pub proof fn lemma_reencode_roundtrip(interior: Seq<u8>, l: LineView, h: Seq<u8>, t: Seq<u8>, cs: u8)
    requires
        spec_parse_line(interior) == Some(l),
        raw_parts(l) == Some((h, t)),
    ensures
        spec_rebuild_nema(h, t, cs) == seq![DOLLAR] + interior + seq![STAR] + spec_cs_digits(cs),
        crate::hex::spec_parse_cs(seq![STAR] + spec_cs_digits(cs)) == Some(cs),
{
    reveal(spec_parse_line);
    let i = find_from(interior, COMMA, 0);
    lemma_find_from(interior, COMMA, 0);
    assert(0 <= i < interior.len());
    let head = interior.subrange(0, i);
    let tail = interior.subrange(i + 1, interior.len() as int);
    assert(h == head && t == tail);
    assert(interior =~= head + seq![COMMA] + tail);
    assert(spec_rebuild_nema(h, t, cs) =~= seq![DOLLAR] + interior + seq![STAR] + spec_cs_digits(
        cs,
    ));
    crate::hex::lemma_cs_digits_roundtrip(cs);
}

} // verus!
