use flakeid::id::DecodeErr;
use flakeid::id::Flake;

#[test]
fn test_byte_repr() {
    let id0 = Flake::new(29866156537351941961353716432896);
    let bytes = id0.bytes();
    let id1: Flake = bytes.into();
    assert_eq!(id0, id1);
}

#[test]
fn test_timestamp() {
    let id = Flake::new(30556157387769903979283677052928);
    let ts: u64 = id.timestamp();
    assert_eq!(1656452611131, ts);
}

#[test]
fn test_value_round_trips_through_bytes() {
    let id0 = Flake::new(u128::MAX);
    assert_eq!(Flake::from(id0.bytes()), id0);
    let id1 = Flake::new(0);
    assert_eq!(Flake::from(id1.bytes()), id1);
    let id2 = Flake::new(0x0102030405060708090a0b0c0d0e0f10);
    assert_eq!(Flake::from(id2.bytes()), id2);
}

#[test]
fn test_bytes_are_little_endian() {
    let id = Flake::new(0x0102030405060708090a0b0c0d0e0f10);
    let expected: [u8; 16] = [
        0x10, 0x0f, 0x0e, 0x0d, 0x0c, 0x0b, 0x0a, 0x09, 0x08, 0x07, 0x06, 0x05, 0x04, 0x03,
        0x02, 0x01,
    ];
    assert_eq!(id.bytes(), expected);
}

#[test]
fn test_base64_encoding() {
    let id = Flake::new(29866156537351941961353716432896);
    assert_eq!(id.to_base64(), "AAABePbBqL900Cue9CYAAA==");
}

#[test]
fn test_base64_round_trip() {
    let id = Flake::new(29866156537351941961353716432896);
    let text = id.to_base64();
    assert_eq!(Flake::from_base64(&text), Ok(id));
    let id_max = Flake::new(u128::MAX);
    assert_eq!(Flake::from_base64(&id_max.to_base64()), Ok(id_max));
    let id_zero = Flake::new(0);
    assert_eq!(Flake::from_base64(&id_zero.to_base64()), Ok(id_zero));
}

#[test]
fn test_base64_decode_known_text() {
    let id = Flake::from_base64("AAABePbBqL900Cue9CYAAA==").unwrap();
    assert_eq!(id.value(), 29866156537351941961353716432896);
}

#[test]
fn test_base64_decode_rejects_malformed() {
    assert_eq!(Flake::from_base64("not base64 at all!!!"), Err(DecodeErr::Malformed));
    assert_eq!(Flake::from_base64("AAAA@AAA"), Err(DecodeErr::Malformed));
}

#[test]
fn test_base64_decode_rejects_wrong_length() {
    // Valid base64, but it decodes to 3 bytes rather than 16.
    assert_eq!(Flake::from_base64("AAAA"), Err(DecodeErr::WrongLength));
    // Valid base64 of 18 bytes.
    assert_eq!(
        Flake::from_base64("AAAAAAAAAAAAAAAAAAAAAAAA"),
        Err(DecodeErr::WrongLength)
    );
}

#[test]
fn test_hex_lower() {
    let id = Flake::new(0x0102030405060708090a0b0c0d0e0f10);
    assert_eq!(id.to_hex_lower(), "0102030405060708090a0b0c0d0e0f10");
    let zero = Flake::new(0);
    assert_eq!(zero.to_hex_lower(), "00000000000000000000000000000000");
}

#[test]
fn test_hex_upper() {
    let id = Flake::new(0xdeadbeef00000000000000000000cafe);
    assert_eq!(id.to_hex_upper(), "DEADBEEF00000000000000000000CAFE");
}

#[test]
fn test_binary() {
    let id = Flake::new(5);
    let mut expected = String::new();
    for _ in 0..125 {
        expected.push('0');
    }
    expected.push_str("101");
    assert_eq!(id.to_binary(), expected);
    let max = Flake::new(u128::MAX);
    assert_eq!(max.to_binary(), "1".repeat(128));
}

#[test]
fn test_ordering_follows_value() {
    let lo = Flake::new(7);
    let hi = Flake::new(8);
    assert!(lo < hi);
    assert!(hi > lo);
    assert_eq!(lo.cmp(&hi), std::cmp::Ordering::Less);
    assert_eq!(lo, Flake::new(7));
}
