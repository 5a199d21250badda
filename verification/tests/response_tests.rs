use ibmtts_host32::response::{pack_bytes, pack_int, pack_text, pack_uint, pack_utf_string, ResponseType};

#[test]
fn pack_int_is_type_zero_then_little_endian() {
    assert_eq!(pack_int(1), vec![0, 1, 0, 0, 0]);
    assert_eq!(pack_int(-2), vec![0, 0xfe, 0xff, 0xff, 0xff]);
    assert_eq!(pack_int(i32::MIN), vec![0, 0, 0, 0, 0x80]);
}

#[test]
fn pack_uint_is_type_one_then_little_endian() {
    assert_eq!(pack_uint(0xdead_beef), vec![1, 0xef, 0xbe, 0xad, 0xde]);
    assert_eq!(pack_uint(0), vec![1, 0, 0, 0, 0]);
}

#[test]
fn pack_bytes_is_type_two_then_the_bytes() {
    assert_eq!(pack_bytes(vec![9, 8, 7]), vec![2, 9, 8, 7]);
    assert_eq!(pack_bytes(vec![]), vec![2]);
}

#[test]
fn pack_utf_string_is_type_three_then_utf8() {
    assert_eq!(pack_utf_string("ok"), vec![3, b'o', b'k']);
    let mut expected = vec![3u8];
    expected.extend_from_slice("é".as_bytes());
    assert_eq!(pack_utf_string("é"), expected);
    assert_eq!(pack_text(b"x".to_vec()), vec![3, b'x']);
}

#[test]
fn response_type_codes() {
    assert_eq!(ResponseType::SignedInt.code(), 0);
    assert_eq!(ResponseType::UnsignedInt.code(), 1);
    assert_eq!(ResponseType::ByteString.code(), 2);
    assert_eq!(ResponseType::Utf8String.code(), 3);
}

#[test]
fn packed_values_read_back() {
    for v in [0i32, 1, -1, 123456, i32::MAX, i32::MIN] {
        let r = pack_int(v);
        assert_eq!(i32::from_le_bytes([r[1], r[2], r[3], r[4]]), v);
    }
    for v in [0u32, 7, u32::MAX] {
        let r = pack_uint(v);
        assert_eq!(u32::from_le_bytes([r[1], r[2], r[3], r[4]]), v);
    }
}
