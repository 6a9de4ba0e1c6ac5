use nmea::fields::{
    parse_fixed_signed, parse_fixed_unknown_unsigned, parse_fixed_unsigned, parse_signed,
    parse_unsigned,
};
use nmea::hex::{parse_cs, parse_u8};
use nmea::rebuild_nema;

const I32_MIN: i64 = -0x8000_0000;
const I32_MAX: i64 = 0x7fff_ffff;

#[test]
fn fixed_point_exact_values() {
    assert_eq!(parse_fixed_signed(b"-308580.94", 2, I32_MIN, I32_MAX), Some(-30858094));
    assert_eq!(parse_fixed_unsigned(b"108150.400", 3, 0xffff_ffff), Some(108150400));
}

#[test]
fn fixed_point_rejects_malformed() {
    // no decimal point at all
    assert_eq!(parse_fixed_unsigned(b"12345", 2, u64::MAX), None);
    // point in the wrong position for the requested places
    assert_eq!(parse_fixed_unsigned(b"1.23", 1, u64::MAX), None);
    // too short for the requested places
    assert_eq!(parse_fixed_unsigned(b"1.2", 3, u64::MAX), None);
    // correct position
    assert_eq!(parse_fixed_unsigned(b"12.3", 1, u64::MAX), Some(123));
    // a trailing point means zero decimal places
    assert_eq!(parse_fixed_unsigned(b"15.", 0, u64::MAX), Some(15));
}

#[test]
fn fixed_point_inferred_places() {
    assert_eq!(parse_fixed_unknown_unsigned(b"1.6", 0xffff), Some((16, 1)));
    assert_eq!(parse_fixed_unknown_unsigned(b"60.1397", 0xffff_ffff), Some((601397, 4)));
    assert_eq!(parse_fixed_unknown_unsigned(b"3959.55874779", u64::MAX), Some((395955874779, 8)));
    assert_eq!(parse_fixed_unknown_unsigned(b"42", u64::MAX), None);
}

#[test]
fn plain_integer_bounds() {
    assert_eq!(parse_unsigned(b"255", 255), Some(255));
    assert_eq!(parse_unsigned(b"256", 255), None);
    assert_eq!(parse_unsigned(b"+17", 0xffff), Some(17));
    assert_eq!(parse_unsigned(b"", 0xffff), None);
    assert_eq!(parse_unsigned(b"-5", 0xffff), None);
    assert_eq!(parse_signed(b"-0", I32_MIN, I32_MAX), Some(0));
    assert_eq!(parse_signed(b"-2147483648", I32_MIN, I32_MAX), Some(-2147483648));
    assert_eq!(parse_signed(b"-2147483649", I32_MIN, I32_MAX), None);
    assert_eq!(parse_signed(b"12x", I32_MIN, I32_MAX), None);
    assert_eq!(parse_unsigned(b"18446744073709551615", u64::MAX), Some(u64::MAX));
    assert_eq!(parse_unsigned(b"18446744073709551616", u64::MAX), None);
}

#[test]
fn checksum_digit_codec() {
    assert_eq!(parse_u8(b'7'), Some(7));
    assert_eq!(parse_u8(b'a'), Some(10));
    assert_eq!(parse_u8(b'F'), Some(15));
    assert_eq!(parse_u8(b'G'), None);
    assert_eq!(parse_cs(b"*4C"), Some(0x4c));
    assert_eq!(parse_cs(b"*4c"), Some(0x4c));
    assert_eq!(parse_cs(b"*zz"), None);
}

#[test]
fn rebuild_pads_and_uppercases() {
    assert_eq!(rebuild_nema(b"X", b"y", 0x0f), b"$X,y*0F".to_vec());
    assert_eq!(rebuild_nema(b"GPGGA", b"a,b", 0x63), b"$GPGGA,a,b*63".to_vec());
}
