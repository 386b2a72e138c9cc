use hex_motor::canopen::sdo::{
    decode_real32, decode_string, decode_u16, decode_u32, decode_u8, string_end,
};
use hex_motor::Error;

fn internal<T>(text: &str) -> Result<T, Error> {
    Err(Error::Internal(text.to_string()))
}

#[test]
fn numbers_are_read_little_endian() {
    assert_eq!(decode_u32(&[0x78, 0x56, 0x34, 0x12], 0x1018, 1), Ok(0x1234_5678));
    assert_eq!(decode_u32(&[1, 0, 0, 0, 9], 0x1018, 1), Ok(1));
    assert_eq!(decode_u16(&[0x37, 0x02], 0x6041, 0), Ok(0x0237));
    assert_eq!(decode_u8(&[7, 8], 0x6061, 0), Ok(7));
    let x = decode_real32(&2.5f32.to_le_bytes(), 0x6076, 0).unwrap();
    assert_eq!(f32::from_bits(x.bits), 2.5);
}

#[test]
fn short_replies_are_refused() {
    assert_eq!(
        decode_u32(&[1, 2, 3], 0x1018, 4),
        internal("expected 4 bytes for 0x1018:04, got 3")
    );
    assert_eq!(decode_u16(&[1], 0x6041, 0), internal("expected 2 bytes for 0x6041:00, got 1"));
    assert_eq!(decode_u8(&[], 0x2A, 0x1F), internal("expected 1 byte for 0x002A:1F, got 0"));
    assert_eq!(
        decode_real32(&[], 0x2003, 7),
        internal("expected 4 bytes for 0x2003:07, got 0")
    );
}

#[test]
fn text_ends_at_the_first_nul() {
    assert_eq!(string_end(b"HEX\0\0"), 3);
    assert_eq!(string_end(b"HEX"), 3);
    assert_eq!(string_end(b"\0HEX"), 0);
    assert_eq!(decode_string(b"HEX-4310\0junk"), "HEX-4310");
    assert_eq!(decode_string(b"HEX-4310"), "HEX-4310");
    assert_eq!(decode_string(b""), "");
}

#[test]
fn text_that_is_not_utf8_is_replaced() {
    assert_eq!(decode_string("电机\0".as_bytes()), "电机");
    assert_eq!(decode_string(&[b'a', 0xFF, b'b']), "a\u{FFFD}b");
}
