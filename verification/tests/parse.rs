use nmea::NmeaLine;
use nmea::NmeaParser;
use nmea::rebuild_nema;

#[test]
fn test_parse() {
    let mut parser = NmeaParser::<256>::default();

    const LINES: [&[u8]; 5] = [
        b"$GPFPD,2185,108150.400,272.628,2.722,0.188,39.9926157,116.3269623,-308580.94,0.003,-0.033,-3243.491,10.191,15,18,04*63",
        b"$GTIMU,0,6.000,3.3755,-0.0768,-3.0907,-0.1633,0.6105,0.7855,27.5*4C",
        b"$GPHPD,0,0.000,0.000,0.000,0.000,0.0000000,0.0000000,0.00,0.000,0.000,0.000,0.000,0,0,00*49",
        b"$GPGGA,060220.00,3959.55874779,N,11619.61828897,E,1,17,1.6,60.1397,M,-9.2862,M,,*42",
        b"$cmd,get,product,newton-m3*ff",
    ];

    for (i, line) in LINES.iter().enumerate() {
        parser.notify_received(line);
        let result = NmeaLine::from_bytes(&line[1..line.len() - 3]).unwrap();
        println!("i = {}, {:?}", i, result);
        assert_eq!(parser.next().unwrap().0, result);
    }
    assert_eq!(parser.next(), None);
}

#[test]
fn test_rebuild_gpgga() {
    const LINE: &str =
        "$GPGGA,060220.00,3959.55874779,N,11619.61828897,E,1,17,1.6,60.1397,M,-9.2862,M,,*42";

    let mut parser = NmeaParser::<256>::default();
    parser.notify_received(LINE.as_bytes());
    if let Some((NmeaLine::GPGGA(_, tail), cs)) = parser.next() {
        assert_eq!(rebuild_nema(b"GPGGA", tail.as_slice(), cs), LINE.as_bytes().to_vec());
    } else {
        panic!("Parse failed.");
    }
}
