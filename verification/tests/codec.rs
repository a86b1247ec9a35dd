use retype::codec::decode_u32;
use retype::codec::encode_i32;
use retype::codec::encode_u32;

#[test]
fn test_encode_u32_exact() {
    assert_eq!(encode_u32(0x01020304), vec![4u8, 3, 2, 1]);
    assert_eq!(encode_u32(0), vec![0u8, 0, 0, 0]);
    assert_eq!(encode_u32(u32::MAX), vec![255u8, 255, 255, 255]);
}

#[test]
fn test_decode_u32_exact() {
    assert_eq!(decode_u32(&[4u8, 3, 2, 1]), 0x01020304);
    assert_eq!(decode_u32(&[0u8, 0, 0, 0]), 0);
    assert_eq!(decode_u32(&[255u8, 255, 255, 255]), u32::MAX);
}

#[test]
fn test_encode_decode_roundtrip() {
    for n in [0u32, 1, 53, 256, 65535, 0xdead_beef, u32::MAX] {
        assert_eq!(decode_u32(&encode_u32(n)), n);
    }
}

#[test]
fn test_encode_i32_negative() {
    // -54 in two's complement is 2^32 - 54 = 0xffff_ffca.
    assert_eq!(encode_i32(-54), vec![0xcau8, 0xff, 0xff, 0xff]);
    assert_eq!(decode_u32(&encode_i32(-54)), u32::MAX - 53);
    assert_eq!(encode_i32(i32::MIN), vec![0u8, 0, 0, 0x80]);
}

#[test]
fn test_encode_i32_non_negative_matches_unsigned() {
    assert_eq!(encode_i32(0), encode_u32(0));
    assert_eq!(encode_i32(54), encode_u32(54));
    assert_eq!(encode_i32(i32::MAX), encode_u32(0x7fff_ffff));
}
