use tensorrt_rs::bytes::{
    decode_i32s, decode_i32s_in, decode_i64s_in, decode_u16s_in, decode_u32s_in, decode_u64s, decode_u64s_in, encode_i32s,
    encode_i32s_in, encode_i64s, encode_i64s_in, encode_u16s, encode_u16s_in, encode_u32s_in, encode_u64s_in,
    native_little_endian,
};

#[test]
fn explicit_byte_orders_round_trip() {
    for little in [true, false] {
        let words = [0u16, 1, 0x1234, 0xffff];
        assert_eq!(decode_u16s_in(&encode_u16s_in(&words, little), little), words);
        let ints = [0i32, -1, 7, i32::MIN, i32::MAX];
        assert_eq!(decode_i32s_in(&encode_i32s_in(&ints, little), little), ints);
        let longs = [0i64, -2, i64::MIN, i64::MAX];
        assert_eq!(decode_i64s_in(&encode_i64s_in(&longs, little), little), longs);
        let wide = [0x0102_0304_0506_0708u64];
        assert_eq!(decode_u64s_in(&encode_u64s_in(&wide, little), little), wide);
    }
    assert_eq!(encode_u32s_in(&[0x0102_0304], true), vec![4, 3, 2, 1]);
    assert_eq!(encode_u32s_in(&[0x0102_0304], false), vec![1, 2, 3, 4]);
    assert_eq!(decode_u32s_in(&[4, 3, 2, 1, 1, 2, 3, 4], true), vec![0x0102_0304, 0x0403_0201]);
}

#[test]
fn native_order_matches_std() {
    assert_eq!(native_little_endian(), u16::from_ne_bytes([1, 0]) == 1);
    let ints = [5i32, -6, 1 << 20];
    let std_bytes: Vec<u8> = ints.iter().flat_map(|v| v.to_ne_bytes()).collect();
    assert_eq!(encode_i32s(&ints), std_bytes);
    assert_eq!(decode_i32s(&std_bytes), ints);
    assert_eq!(encode_u16s(&[0x3f80]), 0x3f80u16.to_ne_bytes().to_vec());
    assert_eq!(encode_i64s(&[-1]), (-1i64).to_ne_bytes().to_vec());
    assert_eq!(decode_u64s(&7u64.to_ne_bytes()), vec![7]);
}
