use byteorder::{ByteOrder, NativeEndian};
use neli::consts::alignto;
use neli::endian::{
    get_i32, get_u16, get_u32, get_u64, host_order, order_of_probe, put_i32, put_u16, put_u32,
    put_u64, Endian,
};
use neli::err::{DeError, SerError};
use neli::{deserialize_from_copy, Bytes, BytesMut, Nl, NlSlice, MAX_NL_LENGTH};

#[test]
fn test_nl_u8() {
    let v: u8 = 5;
    let mut s = BytesMut::from(&[0u8] as &[u8]);
    s = v.serialize(s).unwrap();
    assert_eq!(s[0], v);

    let mem = Bytes::from(&[5u8] as &[u8]);
    let v = u8::deserialize(mem).unwrap();
    assert_eq!(v, 5)
}

#[test]
fn test_nl_u16() {
    let v: u16 = 6000;
    let mut desired_buffer = [0u8; 2];
    NativeEndian::write_u16(&mut desired_buffer, 6000);

    let mut ser_buffer = BytesMut::from(&[0u8; 2] as &[u8]);
    ser_buffer = v.serialize(ser_buffer).unwrap();
    assert_eq!(ser_buffer.as_ref(), &desired_buffer);

    let mut s = BytesMut::from(&[0u8; 2] as &[u8]);
    NativeEndian::write_u16(s.as_mut(), 6000);
    u16::deserialize(s.freeze()).unwrap();
    assert_eq!(v, 6000);
}

#[test]
fn test_nl_u32() {
    let v: u32 = 600_000;
    let mut s = [0u8; 4];
    NativeEndian::write_u32(&mut s, 600_000);

    let mut s_test = BytesMut::from(&[0u8; 4] as &[u8]);
    s_test = v.serialize(s_test).unwrap();
    assert_eq!(&s, s_test.as_ref());

    let mut s = BytesMut::from(&[0u8; 4] as &[u8]);
    NativeEndian::write_u32(s.as_mut(), 600_000);
    let v = u32::deserialize(s.freeze()).unwrap();
    assert_eq!(v, 600_000)
}

#[test]
fn test_nl_u64() {
    let test_int: u64 = 12_345_678_901_234;
    let mut expected_serial = [0u8; 8];
    NativeEndian::write_u64(&mut expected_serial, test_int);

    let mut test_serial = BytesMut::from(&[0u8; 8] as &[u8]);
    test_serial = test_int.serialize(test_serial).unwrap();
    assert_eq!(&expected_serial, test_serial.as_ref());

    let mut buffer = [0u8; 8];
    NativeEndian::write_u64(&mut buffer, test_int);
    let deserialed_int = u64::deserialize(Bytes::from(&buffer as &[u8])).unwrap();
    assert_eq!(test_int, deserialed_int);
}

#[test]
fn test_nl_slice() {
    let v: &[u8] = &[1, 2, 3, 4, 5, 6, 7, 8, 9];
    let mut s = BytesMut::from(&[0u8; 9] as &[u8]);
    s = v.serialize(s).unwrap();
    assert_eq!(v, s.as_ref());

    let s: &[u8] = &[1, 2, 3, 4, 5, 6, 7, 8, 9, 0, 0, 0];
    let v = <&[u8]>::deserialize_from_slice(s).unwrap();
    assert_eq!(v, s);
}

#[test]
fn test_nl_vec() {
    let v = vec![1, 2, 3, 4, 5, 6, 7, 8, 9];
    let mut s = BytesMut::from(&[0u8; 9] as &[u8]);
    s = v.serialize(s).unwrap();
    assert_eq!(v, s.to_vec());

    let s: &[u8] = &[1, 2, 3, 4, 5, 6, 7, 8, 9];
    let v = Vec::<u8>::deserialize(Bytes::from(s)).unwrap();
    assert_eq!(v.as_slice(), s);
}

#[test]
fn test_nl_str() {
    let s = "AAAAA";
    let mut sl = BytesMut::from(&[0u8; 6] as &[u8]);
    sl = s.serialize(sl).unwrap();
    assert_eq!(&[65, 65, 65, 65, 65, 0], sl.as_ref());

    let s = &[65u8, 65, 65, 65, 65, 65, 0] as &[u8];
    let string = <&str>::deserialize_from_slice(s).unwrap();
    assert_eq!(string, "AAAAAA")
}

#[test]
fn test_nl_string() {
    let mut s = "AAAAA".to_string();
    let mut sl = BytesMut::from(&[0u8; 6] as &[u8]);
    sl = s.serialize(sl).unwrap();
    s.push('\0');
    assert_eq!(s.as_bytes(), sl.as_ref());

    let s = "AAAAAA\0";
    let string = String::deserialize(Bytes::from(s.as_bytes())).unwrap();
    assert_eq!(s[..s.len() - 1], string.to_string())
}

#[test]
fn str_round_trip_through_six_bytes() {
    let sl = "AAAAA".serialize(BytesMut::from(&[0xffu8; 6] as &[u8])).unwrap();
    assert_eq!(sl.as_ref(), &[65u8, 65, 65, 65, 65, 0]);
    let back = <&str>::deserialize_from_slice(sl.as_ref()).unwrap();
    assert_eq!(back, "AAAAA");
}

#[test]
fn str_multibyte_text_is_sized_in_bytes() {
    let s = "h\u{e9}";
    assert_eq!(s.size(), 4);
    assert_eq!(s.asize(), 4);
    let sl = s.serialize(BytesMut::from(&[7u8; 4] as &[u8])).unwrap();
    assert_eq!(sl.as_ref(), &[0x68u8, 0xc3, 0xa9, 0]);
    let owned = String::deserialize(sl.freeze()).unwrap();
    assert_eq!(owned, "h\u{e9}");
}

#[test]
fn empty_text_is_one_zero_byte() {
    assert_eq!("".size(), 1);
    let sl = "".serialize(BytesMut::from(&[9u8] as &[u8])).unwrap();
    assert_eq!(sl.as_ref(), &[0u8]);
    assert_eq!(<&str>::deserialize_from_slice(&[0u8]).unwrap(), "");
}

#[test]
fn integers_round_trip_at_their_bounds() {
    for v in [0u8, 1, 0x7f, u8::MAX] {
        let s = v.serialize(BytesMut::from(&[0u8; 1] as &[u8])).unwrap();
        assert_eq!(u8::deserialize(s.freeze()).unwrap(), v);
    }
    for v in [0u16, 1, 0x1234, u16::MAX] {
        let s = v.serialize(BytesMut::from(&[0u8; 2] as &[u8])).unwrap();
        assert_eq!(s.as_ref(), &v.to_ne_bytes());
        assert_eq!(u16::deserialize(s.freeze()).unwrap(), v);
    }
    for v in [0u32, 1, 0x1234_5678, u32::MAX] {
        let s = v.serialize(BytesMut::from(&[0u8; 4] as &[u8])).unwrap();
        assert_eq!(s.as_ref(), &v.to_ne_bytes());
        assert_eq!(u32::deserialize(s.freeze()).unwrap(), v);
    }
    for v in [0i32, 1, -1, i32::MIN, i32::MAX, -123_456] {
        let s = v.serialize(BytesMut::from(&[0u8; 4] as &[u8])).unwrap();
        assert_eq!(s.as_ref(), &v.to_ne_bytes());
        assert_eq!(i32::deserialize(s.freeze()).unwrap(), v);
    }
    for v in [0u64, 1, 0x0123_4567_89ab_cdef, u64::MAX] {
        let s = v.serialize(BytesMut::from(&[0u8; 8] as &[u8])).unwrap();
        assert_eq!(s.as_ref(), &v.to_ne_bytes());
        assert_eq!(u64::deserialize(s.freeze()).unwrap(), v);
    }
}

#[test]
fn explicit_byte_orders_place_the_bytes() {
    let mut b = BytesMut::from(&[0u8; 2] as &[u8]);
    put_u16(&mut b, 0x1234, Endian::Big);
    assert_eq!(b.as_ref(), &[0x12u8, 0x34]);
    put_u16(&mut b, 0x1234, Endian::Little);
    assert_eq!(b.as_ref(), &[0x34u8, 0x12]);

    let mut b = BytesMut::from(&[0xeeu8; 5] as &[u8]);
    put_u32(&mut b, 0x0102_0304, Endian::Big);
    assert_eq!(b.as_ref(), &[1u8, 2, 3, 4, 0xee]);
    put_u32(&mut b, 0x0102_0304, Endian::Little);
    assert_eq!(b.as_ref(), &[4u8, 3, 2, 1, 0xee]);

    let mut b = BytesMut::from(&[0u8; 4] as &[u8]);
    put_i32(&mut b, -2, Endian::Big);
    assert_eq!(b.as_ref(), &[0xffu8, 0xff, 0xff, 0xfe]);
    put_i32(&mut b, -2, Endian::Little);
    assert_eq!(b.as_ref(), &[0xfeu8, 0xff, 0xff, 0xff]);

    let mut b = BytesMut::from(&[0u8; 8] as &[u8]);
    put_u64(&mut b, 0x0102_0304_0506_0708, Endian::Big);
    assert_eq!(b.as_ref(), &[1u8, 2, 3, 4, 5, 6, 7, 8]);
    put_u64(&mut b, 0x0102_0304_0506_0708, Endian::Little);
    assert_eq!(b.as_ref(), &[8u8, 7, 6, 5, 4, 3, 2, 1]);
}

#[test]
fn explicit_byte_orders_read_the_bytes() {
    assert_eq!(get_u16(&[0x12, 0x34], Endian::Big), 0x1234);
    assert_eq!(get_u16(&[0x12, 0x34], Endian::Little), 0x3412);
    assert_eq!(get_u32(&[1, 2, 3, 4], Endian::Big), 0x0102_0304);
    assert_eq!(get_u32(&[1, 2, 3, 4], Endian::Little), 0x0403_0201);
    assert_eq!(get_i32(&[0xff, 0xff, 0xff, 0xfe], Endian::Big), -2);
    assert_eq!(get_i32(&[0xfe, 0xff, 0xff, 0xff], Endian::Little), -2);
    assert_eq!(get_u64(&[1, 2, 3, 4, 5, 6, 7, 8], Endian::Big), 0x0102_0304_0506_0708);
    assert_eq!(get_u64(&[1, 2, 3, 4, 5, 6, 7, 8], Endian::Little), 0x0807_0605_0403_0201);
}

#[test]
fn host_order_is_the_order_of_the_machine() {
    let little = u16::from_ne_bytes([1, 0]) == 1;
    assert_eq!(host_order() == Endian::Little, little);
    assert_eq!(host_order() == Endian::Big, !little);
}

#[test]
fn one_byte_value_into_two_bytes_is_not_filled() {
    let res = 5u8.serialize(BytesMut::from(&[1u8, 2] as &[u8]));
    match res {
        Err(SerError::BufferNotFilled(back)) => assert_eq!(back.as_ref(), &[1u8, 2]),
        other => panic!("unexpected {:?}", other),
    }
}

#[test]
fn one_byte_value_into_no_bytes_is_end_of_buffer() {
    let res = 5u8.serialize(BytesMut::from(&[] as &[u8]));
    match res {
        Err(SerError::UnexpectedEOB(back)) => assert_eq!(back.len(), 0),
        other => panic!("unexpected {:?}", other),
    }
}

#[test]
fn wider_values_report_length_mismatches() {
    assert!(matches!(
        7u16.serialize(BytesMut::from(&[0u8; 1] as &[u8])),
        Err(SerError::UnexpectedEOB(_))
    ));
    assert!(matches!(
        7u16.serialize(BytesMut::from(&[0u8; 3] as &[u8])),
        Err(SerError::BufferNotFilled(_))
    ));
    assert!(matches!(
        7u32.serialize(BytesMut::from(&[0u8; 3] as &[u8])),
        Err(SerError::UnexpectedEOB(_))
    ));
    assert!(matches!(
        7i32.serialize(BytesMut::from(&[0u8; 5] as &[u8])),
        Err(SerError::BufferNotFilled(_))
    ));
    assert!(matches!(
        7u64.serialize(BytesMut::from(&[0u8; 7] as &[u8])),
        Err(SerError::UnexpectedEOB(_))
    ));
    let span: &[u8] = &[1, 2, 3];
    assert!(matches!(
        span.serialize(BytesMut::from(&[0u8; 2] as &[u8])),
        Err(SerError::UnexpectedEOB(_))
    ));
    assert!(matches!(
        span.serialize(BytesMut::from(&[0u8; 4] as &[u8])),
        Err(SerError::BufferNotFilled(_))
    ));
    assert!(matches!(
        "AAAAA".serialize(BytesMut::from(&[0u8; 5] as &[u8])),
        Err(SerError::UnexpectedEOB(_))
    ));
    assert!(matches!(
        "AAAAA".to_string().serialize(BytesMut::from(&[0u8; 7] as &[u8])),
        Err(SerError::BufferNotFilled(_))
    ));
    assert!(matches!(
        vec![1u8, 2].serialize(BytesMut::from(&[0u8; 3] as &[u8])),
        Err(SerError::BufferNotFilled(_))
    ));
}

#[test]
fn failed_write_hands_the_buffer_back() {
    let err = 7u32.serialize(BytesMut::from(&[9u8, 8, 7] as &[u8])).unwrap_err();
    let back = err.into_buffer();
    assert_eq!(back.as_ref(), &[9u8, 8, 7]);
}

#[test]
fn fixed_size_decoding_reports_length_mismatches() {
    assert!(matches!(u8::deserialize(Bytes::from(&[] as &[u8])), Err(DeError::UnexpectedEOB)));
    assert!(matches!(
        u8::deserialize(Bytes::from(&[1u8, 2] as &[u8])),
        Err(DeError::BufferNotParsed)
    ));
    assert!(matches!(
        u16::deserialize(Bytes::from(&[1u8] as &[u8])),
        Err(DeError::UnexpectedEOB)
    ));
    assert!(matches!(
        u32::deserialize(Bytes::from(&[1u8; 5] as &[u8])),
        Err(DeError::BufferNotParsed)
    ));
    assert!(matches!(
        i32::deserialize(Bytes::from(&[1u8; 3] as &[u8])),
        Err(DeError::UnexpectedEOB)
    ));
    assert!(matches!(
        u64::deserialize(Bytes::from(&[1u8; 9] as &[u8])),
        Err(DeError::BufferNotParsed)
    ));
}

#[test]
fn text_without_terminator_is_rejected() {
    assert!(matches!(
        <&str>::deserialize_from_slice(&[65u8, 65, 65]),
        Err(DeError::NullError)
    ));
    assert!(matches!(<&str>::deserialize_from_slice(&[]), Err(DeError::NullError)));
    assert!(matches!(
        String::deserialize(Bytes::from(&[65u8, 0, 65] as &[u8])),
        Err(DeError::NullError)
    ));
}

#[test]
fn text_that_is_not_utf8_is_rejected_with_a_message() {
    match <&str>::deserialize_from_slice(&[0xffu8, 0xfe, 0]) {
        Err(DeError::Msg(text)) => assert!(!text.is_empty()),
        other => panic!("unexpected {:?}", other),
    }
    assert!(matches!(
        String::deserialize(Bytes::from(&[0xc3u8, 0] as &[u8])),
        Err(DeError::Msg(_))
    ));
}

#[test]
fn inner_zero_bytes_stay_in_the_text() {
    assert_eq!(<&str>::deserialize_from_slice(&[65u8, 0, 66, 0]).unwrap(), "A\0B");
}

#[test]
fn borrowed_types_refuse_owned_decoding() {
    match <&str>::deserialize(Bytes::from(&[65u8, 0] as &[u8])) {
        Err(DeError::Msg(text)) => assert_eq!(text, "Use deserialize_from_slice"),
        other => panic!("unexpected {:?}", other),
    }
    match <&[u8]>::deserialize(Bytes::from(&[65u8, 0] as &[u8])) {
        Err(DeError::Msg(text)) => assert_eq!(text, "Use deserialize_from_slice"),
        other => panic!("unexpected {:?}", other),
    }
}

#[test]
fn decoding_from_a_copy_reads_owned_values() {
    assert_eq!(deserialize_from_copy::<u8>(&[5]).unwrap(), 5);
    assert_eq!(deserialize_from_copy::<Vec<u8>>(&[5, 6, 7]).unwrap(), vec![5u8, 6, 7]);
    assert_eq!(deserialize_from_copy::<String>(&[66, 0]).unwrap(), "B");
    assert_eq!(deserialize_from_copy::<u32>(&600_000u32.to_ne_bytes()).unwrap(), 600_000);
    assert!(matches!(deserialize_from_copy::<u16>(&[1, 2, 3]), Err(DeError::BufferNotParsed)));
}

#[test]
fn error_constructor_keeps_the_message() {
    match DeError::new("broken") {
        DeError::Msg(text) => assert_eq!(text, "broken"),
        other => panic!("unexpected {:?}", other),
    }
}

#[test]
fn sizes_of_types_and_values() {
    assert_eq!(u8::type_size(), Some(1));
    assert_eq!(u16::type_size(), Some(2));
    assert_eq!(u32::type_size(), Some(4));
    assert_eq!(i32::type_size(), Some(4));
    assert_eq!(u64::type_size(), Some(8));
    assert_eq!(<&[u8]>::type_size(), None);
    assert_eq!(Vec::<u8>::type_size(), None);
    assert_eq!(<&str>::type_size(), None);
    assert_eq!(String::type_size(), None);

    assert_eq!(u8::type_asize(), Some(4));
    assert_eq!(u16::type_asize(), Some(4));
    assert_eq!(u32::type_asize(), Some(4));
    assert_eq!(u64::type_asize(), Some(8));
    assert_eq!(String::type_asize(), None);

    assert_eq!(5u8.size(), 1);
    assert_eq!(5u8.asize(), 4);
    assert_eq!(5u16.size(), 2);
    assert_eq!(5i32.size(), 4);
    assert_eq!(5u64.asize(), 8);
    let span: &[u8] = &[1, 2, 3, 4, 5];
    assert_eq!(span.size(), 5);
    assert_eq!(span.asize(), 8);
    assert_eq!(vec![1u8; 9].size(), 9);
    assert_eq!(vec![1u8; 9].asize(), 12);
    assert_eq!("AAAAA".size(), 6);
    assert_eq!("AAAAA".asize(), 8);
    assert_eq!("AAA".to_string().size(), 4);
    assert_eq!("AAA".to_string().asize(), 4);
}

#[test]
fn alignment_rounds_up_to_four() {
    assert_eq!(alignto(0), 0);
    assert_eq!(alignto(1), 4);
    assert_eq!(alignto(2), 4);
    assert_eq!(alignto(3), 4);
    assert_eq!(alignto(4), 4);
    assert_eq!(alignto(5), 8);
    assert_eq!(alignto(8), 8);
    assert_eq!(alignto(32765), 32768);
    assert_eq!(alignto(usize::MAX - 3), usize::MAX - 3);
    assert_eq!(MAX_NL_LENGTH, 32768);
}

#[test]
fn padding_writes_the_missing_zeros() {
    let out = 5u8.pad(BytesMut::from(&[9u8, 9, 9, 9, 9] as &[u8])).unwrap();
    assert_eq!(out.as_ref(), &[0u8, 0, 0, 9, 9]);
    let out = "AAAAA".pad(BytesMut::from(&[9u8, 9] as &[u8])).unwrap();
    assert_eq!(out.as_ref(), &[0u8, 0]);
    let out = 5u16.pad(BytesMut::from(&[9u8, 9, 9] as &[u8])).unwrap();
    assert_eq!(out.as_ref(), &[0u8, 0, 9]);
}

#[test]
fn padding_an_aligned_value_changes_nothing() {
    let out = 5u32.pad(BytesMut::from(&[9u8, 8, 7] as &[u8])).unwrap();
    assert_eq!(out.as_ref(), &[9u8, 8, 7]);
    let out = 5u64.pad(BytesMut::from(&[] as &[u8])).unwrap();
    assert_eq!(out.len(), 0);
    let out = "AAA".pad(BytesMut::from(&[1u8] as &[u8])).unwrap();
    assert_eq!(out.as_ref(), &[1u8]);
}

#[test]
fn padding_that_does_not_fit_is_an_io_error() {
    match 5u8.pad(BytesMut::from(&[9u8, 9] as &[u8])) {
        Err(SerError::IOError(_, back)) => assert_eq!(back.len(), 2),
        other => panic!("unexpected {:?}", other),
    }
}

#[test]
fn values_are_written_in_the_order_asked_for() {
    let out = 0x1234u16.serialize_with(BytesMut::from(&[0u8; 2] as &[u8]), Endian::Big).unwrap();
    assert_eq!(out.as_ref(), &[0x12u8, 0x34]);
    let out = 0x1234u16.serialize_with(BytesMut::from(&[0u8; 2] as &[u8]), Endian::Little).unwrap();
    assert_eq!(out.as_ref(), &[0x34u8, 0x12]);
    let out = 600_000u32.serialize_with(BytesMut::from(&[0u8; 4] as &[u8]), Endian::Big).unwrap();
    assert_eq!(out.as_ref(), &[0x00u8, 0x09, 0x27, 0xc0]);
    let out = (-600_000i32)
        .serialize_with(BytesMut::from(&[0u8; 4] as &[u8]), Endian::Little)
        .unwrap();
    assert_eq!(out.as_ref(), &[0x40u8, 0xd8, 0xf6, 0xff]);
    let out = 12_345_678_901_234u64
        .serialize_with(BytesMut::from(&[0u8; 8] as &[u8]), Endian::Big)
        .unwrap();
    assert_eq!(out.as_ref(), &[0x00u8, 0x00, 0x0b, 0x3a, 0x73, 0xce, 0x2f, 0xf2]);
    let out = 7u8.serialize_with(BytesMut::from(&[0u8; 1] as &[u8]), Endian::Big).unwrap();
    assert_eq!(out.as_ref(), &[7u8]);
    let out = "AB".serialize_with(BytesMut::from(&[9u8; 3] as &[u8]), Endian::Big).unwrap();
    assert_eq!(out.as_ref(), &[65u8, 66, 0]);
    let out = vec![3u8, 2, 1].serialize_with(BytesMut::from(&[9u8; 3] as &[u8]), Endian::Big);
    assert_eq!(out.unwrap().as_ref(), &[3u8, 2, 1]);
}

#[test]
fn values_are_read_in_the_order_asked_for() {
    let mem = Bytes::from(&[0x12u8, 0x34] as &[u8]);
    assert_eq!(u16::deserialize_with(mem.clone(), Endian::Big).unwrap(), 0x1234);
    assert_eq!(u16::deserialize_with(mem, Endian::Little).unwrap(), 0x3412);
    let mem = Bytes::from(&[0x00u8, 0x09, 0x27, 0xc0] as &[u8]);
    assert_eq!(u32::deserialize_with(mem.clone(), Endian::Big).unwrap(), 600_000);
    assert_eq!(u32::deserialize_with(mem, Endian::Little).unwrap(), 0xc027_0900);
    let mem = Bytes::from(&[0x40u8, 0xd8, 0xf6, 0xff] as &[u8]);
    assert_eq!(i32::deserialize_with(mem, Endian::Little).unwrap(), -600_000);
    let mem = Bytes::from(&[0x00u8, 0x00, 0x0b, 0x3a, 0x73, 0xce, 0x2f, 0xf2] as &[u8]);
    assert_eq!(u64::deserialize_with(mem, Endian::Big).unwrap(), 12_345_678_901_234);
    assert!(matches!(
        u16::deserialize_with(Bytes::from(&[1u8] as &[u8]), Endian::Big),
        Err(DeError::UnexpectedEOB)
    ));
    assert!(matches!(
        1u16.serialize_with(BytesMut::from(&[1u8; 3] as &[u8]), Endian::Big),
        Err(SerError::BufferNotFilled(_))
    ));
}

#[test]
fn either_order_round_trips() {
    for order in [Endian::Little, Endian::Big] {
        for v in [0u64, 1, 0xfedc_ba98_7654_3210, u64::MAX] {
            let out = v.serialize_with(BytesMut::from(&[0u8; 8] as &[u8]), order).unwrap();
            assert_eq!(u64::deserialize_with(out.freeze(), order).unwrap(), v);
        }
        for v in [i32::MIN, -1, 0, 1, i32::MAX] {
            let out = v.serialize_with(BytesMut::from(&[0u8; 4] as &[u8]), order).unwrap();
            assert_eq!(i32::deserialize_with(out.freeze(), order).unwrap(), v);
        }
        for v in [0u16, 0x00ff, 0xff00, u16::MAX] {
            let out = v.serialize_with(BytesMut::from(&[0u8; 2] as &[u8]), order).unwrap();
            assert_eq!(u16::deserialize_with(out.freeze(), order).unwrap(), v);
        }
    }
}

#[test]
fn a_probe_that_reads_as_one_shows_little_endian() {
    assert_eq!(order_of_probe(1), Endian::Little);
    assert_eq!(order_of_probe(256), Endian::Big);
    assert_eq!(order_of_probe(u16::from_le_bytes([1, 0])), Endian::Little);
    assert_eq!(order_of_probe(u16::from_be_bytes([1, 0])), Endian::Big);
    assert_eq!(order_of_probe(u16::from_ne_bytes([1, 0])), host_order());
}
