use dynamixel_xm::codec::{read_le, Encoding, Width};
use dynamixel_xm::error::Error;

fn enc(width: Width, signed: bool) -> Encoding {
    Encoding { width, signed }
}

fn round_trip(e: Encoding, v: i64) {
    let bytes = e.encode(v).unwrap();
    assert_eq!(bytes.len(), e.width.bytes());
    assert_eq!(e.decode(&bytes), Ok(v));
}

#[test]
fn round_trip_every_width_and_signedness() {
    let cases: Vec<(Encoding, Vec<i64>)> = vec![
        (enc(Width::One, false), vec![0, 1, 127, 128, 255]),
        (enc(Width::One, true), vec![-128, -1, 0, 1, 127]),
        (enc(Width::Two, false), vec![0, 255, 256, 4095, 65535]),
        (enc(Width::Two, true), vec![-32768, -1, 0, 300, 32767]),
        (enc(Width::Four, false), vec![0, 2048, 65536, 4294967295]),
        (enc(Width::Four, true), vec![-2147483648, -4096, -1, 0, 2147483647]),
    ];
    for (e, values) in cases {
        for v in values {
            round_trip(e, v);
        }
    }
}

#[test]
fn encode_is_little_endian() {
    assert_eq!(enc(Width::Two, false).encode(0x1234), Ok(vec![0x34, 0x12]));
    assert_eq!(
        enc(Width::Four, false).encode(0x0102_0304),
        Ok(vec![0x04, 0x03, 0x02, 0x01])
    );
    assert_eq!(enc(Width::One, false).encode(200), Ok(vec![200]));
}

#[test]
fn encode_negative_as_twos_complement() {
    assert_eq!(enc(Width::Four, true).encode(-1), Ok(vec![0xff, 0xff, 0xff, 0xff]));
    assert_eq!(enc(Width::Two, true).encode(-2), Ok(vec![0xfe, 0xff]));
    assert_eq!(enc(Width::One, true).encode(-128), Ok(vec![0x80]));
}

#[test]
fn decode_respects_signedness() {
    let bytes = [0xff, 0xff];
    assert_eq!(enc(Width::Two, false).decode(&bytes), Ok(65535));
    assert_eq!(enc(Width::Two, true).decode(&bytes), Ok(-1));
    let bytes = [0x00, 0x00, 0x00, 0x80];
    assert_eq!(enc(Width::Four, false).decode(&bytes), Ok(2147483648));
    assert_eq!(enc(Width::Four, true).decode(&bytes), Ok(-2147483648));
}

#[test]
fn decode_wrong_length_is_format_error() {
    let e = enc(Width::Four, false);
    assert_eq!(e.decode(&[1, 2, 3]), Err(Error::Format));
    assert_eq!(e.decode(&[1, 2, 3, 4, 5]), Err(Error::Format));
    assert_eq!(e.decode(&[]), Err(Error::Format));
    assert_eq!(enc(Width::One, true).decode(&[1, 2]), Err(Error::Format));
}

#[test]
fn encode_out_of_range_is_format_error() {
    assert_eq!(enc(Width::One, false).encode(256), Err(Error::Format));
    assert_eq!(enc(Width::One, false).encode(-1), Err(Error::Format));
    assert_eq!(enc(Width::One, true).encode(128), Err(Error::Format));
    assert_eq!(enc(Width::One, true).encode(-129), Err(Error::Format));
    assert_eq!(enc(Width::Two, false).encode(65536), Err(Error::Format));
    assert_eq!(enc(Width::Four, false).encode(4294967296), Err(Error::Format));
    assert_eq!(enc(Width::Four, true).encode(2147483648), Err(Error::Format));
    assert_eq!(enc(Width::Four, true).encode(-2147483649), Err(Error::Format));
}

#[test]
fn read_le_reads_a_window() {
    let bytes = [9, 0x34, 0x12, 0x78, 0x56, 7];
    assert_eq!(read_le(&bytes, 1, 2), 0x1234);
    assert_eq!(read_le(&bytes, 1, 4), 0x5678_1234);
    assert_eq!(read_le(&bytes, 5, 1), 7);
    assert_eq!(read_le(&bytes, 3, 0), 0);
}

#[test]
fn width_bytes() {
    assert_eq!(Width::One.bytes(), 1);
    assert_eq!(Width::Two.bytes(), 2);
    assert_eq!(Width::Four.bytes(), 4);
}
