use nmea::BodyParseError;
use nmea::NmeaLine;
use nmea::NmeaParser;
use nmea::cmd;
use nmea::gpfpd;
use nmea::gphpd;
use nmea::gpgga;

const GPFPD_LINE: &[u8] = b"$GPFPD,2185,108150.400,272.628,2.722,0.188,39.9926157,116.3269623,-308580.94,0.003,-0.033,-3243.491,10.191,15,18,04*63";
const GTIMU_LINE: &[u8] = b"$GTIMU,0,6.000,3.3755,-0.0768,-3.0907,-0.1633,0.6105,0.7855,27.5*4C";

fn pull_gpfpd(parser: &mut NmeaParser<256>) -> (gpfpd::Body, u8) {
    match parser.next() {
        Some((NmeaLine::GPFPD(body), cs)) => (body, cs),
        other => panic!("expected a GPFPD line, got {:?}", other),
    }
}

#[test]
fn end_to_end_gpfpd() {
    let mut parser = NmeaParser::<256>::default();
    parser.notify_received(GPFPD_LINE);
    let (body, cs) = pull_gpfpd(&mut parser);
    assert_eq!(cs, 0x63);
    assert_eq!(body.gps_week, 2185);
    assert_eq!(body.gps_time, 108150400);
    assert_eq!(body.heading, 272628);
    assert_eq!(body.pitch, 2722);
    assert_eq!(body.roll, 188);
    assert_eq!(body.latitude, 399926157);
    assert_eq!(body.longitude, 1163269623);
    assert_eq!(body.altitude, -30858094);
    assert_eq!(body.vel_e, 3);
    assert_eq!(body.vel_n, -33);
    assert_eq!(body.vel_u, -3243491);
    assert_eq!(body.baseline, 10191);
    assert_eq!(body.nsv1, 15);
    assert_eq!(body.nsv2, 18);
    assert_eq!(
        body.status,
        gpfpd::Status(gpfpd::SystemStatus::GpsHeading, gpfpd::RtkStatus::Gps1Bd)
    );
}

#[test]
fn split_write_yields_identical_result() {
    let mut one = NmeaParser::<256>::default();
    one.notify_received(GPFPD_LINE);
    let whole = pull_gpfpd(&mut one);

    let mut two = NmeaParser::<256>::default();
    two.notify_received(&GPFPD_LINE[..50]);
    assert_eq!(two.next(), None);
    two.notify_received(&GPFPD_LINE[50..]);
    let split = pull_gpfpd(&mut two);

    assert_eq!(whole, split);
}

#[test]
fn two_sentences_two_pulls() {
    let mut parser = NmeaParser::<256>::default();
    let mut data = GPFPD_LINE.to_vec();
    data.extend_from_slice(GTIMU_LINE);
    parser.notify_received(&data);
    assert!(matches!(parser.next(), Some((NmeaLine::GPFPD(_), 0x63))));
    assert!(matches!(parser.next(), Some((NmeaLine::GTIMU(_), 0x4c))));
    assert_eq!(parser.next(), None);
}

#[test]
fn corrupted_sentence_is_skipped_next_survives() {
    let mut data = GPFPD_LINE.to_vec();
    data.extend_from_slice(GTIMU_LINE);
    // flip one bit inside the first sentence's interior: '2' -> '3'
    assert_eq!(data[7], b'2');
    data[7] ^= 0x01;
    let mut parser = NmeaParser::<256>::default();
    parser.notify_received(&data);
    assert!(matches!(parser.next(), Some((NmeaLine::GTIMU(_), 0x4c))));
    assert_eq!(parser.next(), None);
}

#[test]
fn garbage_fills_buffer_without_stall() {
    let mut parser = NmeaParser::<16>::default();
    let garbage = [b'A'; 16];
    parser.notify_received(&garbage);
    // nothing extractable; every unusable byte is discarded
    assert_eq!(parser.next(), None);
    assert_eq!(parser.as_buf(), 16);
    // ready for fresh data afterwards
    parser.notify_received(b"$cmd,get,x*ff");
    assert!(matches!(parser.next(), Some((NmeaLine::CMD(_), 0xff))));
}

#[test]
fn full_buffer_with_unterminated_frame_drops_a_byte() {
    let mut parser = NmeaParser::<16>::default();
    parser.notify_received(b"$AAAAAAAAAAAAAAA");
    assert_eq!(parser.next(), None);
    // the whole unusable frame was discarded; the window is open again
    assert_eq!(parser.as_buf(), 16);
}

#[test]
fn cmd_with_wrong_fixed_checksum_is_skipped() {
    let mut parser = NmeaParser::<64>::default();
    parser.notify_received(b"$cmd,get,x*fe");
    assert_eq!(parser.next(), None);
}

#[test]
fn cmd_bodies_and_reserialization() {
    assert_eq!(
        cmd::Body::from_bytes(b"set,k,v").unwrap(),
        cmd::Body::SetCmd(b"k,v".to_vec())
    );
    assert_eq!(
        cmd::Body::from_bytes(b"through,x").unwrap(),
        cmd::Body::Through(b"x".to_vec())
    );
    assert_eq!(
        cmd::Body::from_bytes(b"zzz,p").unwrap(),
        cmd::Body::Undefined(b"zzz".to_vec(), b"p".to_vec())
    );
    assert_eq!(
        cmd::Body::from_bytes(b"nocomma").unwrap_err(),
        BodyParseError::MissingField("CMD:Type")
    );
    assert_eq!(
        cmd::Body::Get(b"product".to_vec()).to_line(),
        b"$cmd,get,product*ff\r\n".to_vec()
    );
}

#[test]
fn decode_error_variants() {
    assert_eq!(
        gpfpd::Body::from_bytes(b"2185").unwrap_err(),
        BodyParseError::MissingField("GPFPD:GPSTime")
    );
    assert_eq!(
        gpfpd::Body::from_bytes(b"xx,108150.400").unwrap_err(),
        BodyParseError::ParseFailed("GPFPD:GPSWeek", b"xx".to_vec())
    );
}

#[test]
fn unknown_head_passes_through() {
    let line = NmeaLine::from_bytes(b"GPXYZ,a,b").unwrap();
    assert_eq!(line, NmeaLine::Unknown(b"GPXYZ".to_vec(), b"a,b".to_vec()));
}

#[test]
fn interior_without_comma_is_rejected() {
    assert_eq!(
        NmeaLine::from_bytes(b"GPFPD").unwrap_err(),
        BodyParseError::MissingField("NMEA:Head")
    );
}

#[test]
fn gphpd_status_codes() {
    let tail = b"0,0.000,0.000,0.000,0.000,0.0000000,0.0000000,0.00,0.000,0.000,0.000,0.000,0,0,11";
    let body = gphpd::Body::from_bytes(tail).unwrap();
    assert_eq!(body.status, gphpd::Status::RtkHeading);
    assert_eq!(body.track, 0);
}

#[test]
fn gpgga_optional_fields() {
    let absent =
        gpgga::Body::from_bytes(b"060220.00,3959.55874779,N,11619.61828897,E,1,17,1.6,60.1397,M,-9.2862,M,,")
            .unwrap();
    assert_eq!(absent.diff_age, None);
    assert_eq!(absent.diff_station, None);
    let present =
        gpgga::Body::from_bytes(b"060220.00,3959.55874779,N,11619.61828897,E,1,17,1.6,60.1397,M,-9.2862,M,5,42")
            .unwrap();
    assert_eq!(present.diff_age, Some(5));
    assert_eq!(present.diff_station, Some(42));
    assert_eq!(present.latitude, (395955874779, 8));
    assert_eq!(present.ns, gpgga::NS::N);
    assert_eq!(present.status, gpgga::Status::SinglePoint);
}
