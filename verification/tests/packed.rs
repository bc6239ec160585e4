use passive::packed::{
    PackedI128, PackedI16, PackedI32, PackedI64, PackedU128, PackedU16, PackedU32, PackedU64,
};

#[test]
fn scenario_width_32() {
    let p = PackedU32::from_bytes([0x01, 0x00, 0x00, 0x00]);
    assert_eq!(p.to_le(), 1);
    assert_eq!(p.to_be(), 16777216);
}

#[test]
fn unsigned_round_trips_little_endian() {
    for x in [0u16, 1, 0x1234, u16::MAX] {
        assert_eq!(PackedU16::from_bytes(x.to_le_bytes()).to_le(), x);
    }
    for x in [0u32, 1, 0xDEADBEEF, u32::MAX] {
        assert_eq!(PackedU32::from_bytes(x.to_le_bytes()).to_le(), x);
    }
    for x in [0u64, 1, 0x0123_4567_89AB_CDEF, u64::MAX] {
        assert_eq!(PackedU64::from_bytes(x.to_le_bytes()).to_le(), x);
    }
    for x in [0u128, 1, 0x0123_4567_89AB_CDEF_0011_2233_4455_6677, u128::MAX] {
        assert_eq!(PackedU128::from_bytes(x.to_le_bytes()).to_le(), x);
    }
}

#[test]
fn unsigned_round_trips_big_endian() {
    for x in [0u16, 1, 0x1234, u16::MAX] {
        assert_eq!(PackedU16::from_bytes(x.to_be_bytes()).to_be(), x);
    }
    for x in [0u32, 1, 0xDEADBEEF, u32::MAX] {
        assert_eq!(PackedU32::from_bytes(x.to_be_bytes()).to_be(), x);
    }
    for x in [0u64, 1, 0x0123_4567_89AB_CDEF, u64::MAX] {
        assert_eq!(PackedU64::from_bytes(x.to_be_bytes()).to_be(), x);
    }
    for x in [0u128, 1, 0x0123_4567_89AB_CDEF_0011_2233_4455_6677, u128::MAX] {
        assert_eq!(PackedU128::from_bytes(x.to_be_bytes()).to_be(), x);
    }
}

#[test]
fn signed_round_trips() {
    for x in [i16::MIN, -1, 0, 1, 0x1234, i16::MAX] {
        assert_eq!(PackedI16::from_bytes(x.to_le_bytes()).to_le(), x);
        assert_eq!(PackedI16::from_bytes(x.to_be_bytes()).to_be(), x);
    }
    for x in [i32::MIN, -1, 0, 1, -123_456_789, i32::MAX] {
        assert_eq!(PackedI32::from_bytes(x.to_le_bytes()).to_le(), x);
        assert_eq!(PackedI32::from_bytes(x.to_be_bytes()).to_be(), x);
    }
    for x in [i64::MIN, -1, 0, 1, -0x0123_4567_89AB_CDEF, i64::MAX] {
        assert_eq!(PackedI64::from_bytes(x.to_le_bytes()).to_le(), x);
        assert_eq!(PackedI64::from_bytes(x.to_be_bytes()).to_be(), x);
    }
    for x in [i128::MIN, -1, 0, 1, -0x0123_4567_89AB_CDEF_0011_2233_4455_6677, i128::MAX] {
        assert_eq!(PackedI128::from_bytes(x.to_le_bytes()).to_le(), x);
        assert_eq!(PackedI128::from_bytes(x.to_be_bytes()).to_be(), x);
    }
}

#[test]
fn signed_exact_values() {
    assert_eq!(PackedI16::from_bytes([0xFF, 0xFF]).to_le(), -1);
    assert_eq!(PackedI16::from_bytes([0x00, 0x80]).to_le(), i16::MIN);
    assert_eq!(PackedI16::from_bytes([0xFF, 0x7F]).to_le(), i16::MAX);
    assert_eq!(PackedI32::from_bytes([0x00, 0x00, 0x00, 0x80]).to_le(), i32::MIN);
    assert_eq!(PackedI32::from_bytes([0x80, 0x00, 0x00, 0x00]).to_be(), i32::MIN);
    assert_eq!(PackedI32::from_bytes([0xFE, 0xFF, 0xFF, 0xFF]).to_le(), -2);
}

#[test]
fn endian_readings_differ_on_asymmetric_bytes() {
    let p16 = PackedU16::from_bytes([0x01, 0x02]);
    assert_ne!(p16.to_le(), p16.to_be());
    let p32 = PackedU32::from_bytes([0x01, 0x00, 0x00, 0x00]);
    assert_ne!(p32.to_le(), p32.to_be());
    let p64 = PackedU64::from_bytes([0, 1, 2, 3, 4, 5, 6, 7]);
    assert_ne!(p64.to_le(), p64.to_be());
}

#[test]
fn endian_readings_agree_on_palindromic_bytes() {
    // A byte sequence that reads the same forwards and backwards
    // denotes one value in either byte order, even with two distinct
    // byte values present.
    let p = PackedU32::from_bytes([0x01, 0x02, 0x02, 0x01]);
    assert_eq!(p.to_le(), p.to_be());
}

#[test]
fn native_endian_matches_the_platform() {
    let bytes = [0x01, 0x02, 0x03, 0x04];
    let p = PackedU32::from_bytes(bytes);
    assert_eq!(p.to_ne(), u32::from_ne_bytes(bytes));
    assert!(p.to_ne() == p.to_le() || p.to_ne() == p.to_be());
    let sbytes = [0xFF, 0xFE, 0xFD, 0xFC];
    let sp = PackedI32::from_bytes(sbytes);
    assert_eq!(sp.to_ne(), i32::from_ne_bytes(sbytes));
    let wide = [0u8, 1, 2, 3, 4, 5, 6, 7, 8, 9, 10, 11, 12, 13, 14, 15];
    assert_eq!(PackedU128::from_bytes(wide).to_ne(), u128::from_ne_bytes(wide));
    assert_eq!(PackedI128::from_bytes(wide).to_ne(), i128::from_ne_bytes(wide));
    assert_eq!(PackedU16::from_bytes([9, 7]).to_ne(), u16::from_ne_bytes([9, 7]));
    assert_eq!(PackedI16::from_bytes([9, 7]).to_ne(), i16::from_ne_bytes([9, 7]));
    let eight = [8u8, 7, 6, 5, 4, 3, 2, 1];
    assert_eq!(PackedU64::from_bytes(eight).to_ne(), u64::from_ne_bytes(eight));
    assert_eq!(PackedI64::from_bytes(eight).to_ne(), i64::from_ne_bytes(eight));
}

#[test]
fn equality_and_ordering_compare_raw_bytes() {
    let a = PackedU16::from_bytes([0x01, 0x02]);
    let b = PackedU16::from_bytes([0x01, 0x02]);
    let c = PackedU16::from_bytes([0x02, 0x01]);
    assert!(a == b);
    assert!(a != c);
    // Byte-wise order is not numeric order of the little-endian
    // reading: [1, 2] < [2, 1] byte-wise, yet 0x0201 > 0x0102.
    assert!(a < c);
    assert!(a.to_le() > c.to_le());
}
