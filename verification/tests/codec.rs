use ufo_ipc::codec::{
    read_bool, read_bytes, read_err_type, read_exact, read_generic, read_generic_vec, read_gtype,
    read_i16, read_i32, read_i64, read_i8, read_isize, read_log_type, read_protocol, read_string,
    read_u16, read_u32, read_u64, read_u8, read_usize, write_all, write_bool, write_bytes,
    write_err_type, write_generic, write_generic_vec, write_gtype, write_i16, write_i32,
    write_i64, write_i8, write_isize, write_log_type, write_protocol, write_string, write_u16,
    write_u32, write_u64, write_u8, write_usize,
};
use ufo_ipc::{
    DataToken, GenericValue, GenericValueBoxed, GenericValueRef, IpcError, LogType,
    ProtocolConstant, ProtocolError, RemoteErrorType, SerializedType,
};

const WORD: usize = std::mem::size_of::<usize>();

fn framed(payload: &[u8]) -> Vec<u8> {
    let mut bytes = payload.len().to_ne_bytes().to_vec();
    bytes.extend_from_slice(payload);
    bytes
}

fn sent(value: GenericValueRef<'_>) -> Vec<u8> {
    let mut out = Vec::new();
    write_generic(&mut out, value);
    out
}

fn received(bytes: &[u8]) -> GenericValueBoxed {
    let (value, next) = read_generic(bytes, 0).unwrap();
    assert_eq!(next, bytes.len());
    value
}

#[test]
fn write_all_appends_the_bytes_as_they_are() {
    let mut out = vec![9u8];
    write_all(&mut out, &[1, 2, 3]);
    assert_eq!(out, vec![9, 1, 2, 3]);
    write_all(&mut out, &[]);
    assert_eq!(out, vec![9, 1, 2, 3]);
}

#[test]
fn read_exact_hands_out_the_bytes_at_the_position() {
    let data = [10u8, 11, 12, 13];
    let (bytes, next) = read_exact(&data, 1, 2).unwrap();
    assert_eq!(bytes, &[11u8, 12][..]);
    assert_eq!(next, 3);
    let (bytes, next) = read_exact(&data, 4, 0).unwrap();
    assert_eq!(bytes.len(), 0);
    assert_eq!(next, 4);
}

#[test]
fn read_exact_says_how_many_bytes_are_missing() {
    let data = [10u8, 11, 12, 13];
    assert_eq!(read_exact(&data, 1, 5), Err(IpcError::Incomplete { needed: 2 }));
    assert_eq!(read_exact(&data, 4, 1), Err(IpcError::Incomplete { needed: 1 }));
    assert_eq!(read_exact(&data, 9, 3), Err(IpcError::Incomplete { needed: 3 }));
}

#[test]
fn u8_goes_out_as_itself() {
    let mut out = Vec::new();
    write_u8(&mut out, 0xab);
    assert_eq!(out, vec![0xab]);
    assert_eq!(read_u8(&out, 0), Ok((0xab, 1)));
    assert_eq!(read_u8(&out, 1), Err(IpcError::Incomplete { needed: 1 }));
}

#[test]
fn u16_goes_out_in_the_byte_order_of_the_host() {
    let mut out = Vec::new();
    write_u16(&mut out, 0x0102);
    assert_eq!(out, 0x0102u16.to_ne_bytes().to_vec());
    assert_eq!(read_u16(&out, 0), Ok((0x0102, 2)));
    assert_eq!(read_u16(&out, 1), Err(IpcError::Incomplete { needed: 1 }));
}

#[test]
fn u32_goes_out_in_the_byte_order_of_the_host() {
    let mut out = Vec::new();
    write_u32(&mut out, 0x0102_0304);
    assert_eq!(out, 0x0102_0304u32.to_ne_bytes().to_vec());
    assert_eq!(read_u32(&out, 0), Ok((0x0102_0304, 4)));
    assert_eq!(read_u32(&out, 3), Err(IpcError::Incomplete { needed: 3 }));
}

#[test]
fn u64_goes_out_in_the_byte_order_of_the_host() {
    let mut out = Vec::new();
    write_u64(&mut out, 0x0102_0304_0506_0708);
    assert_eq!(out, 0x0102_0304_0506_0708u64.to_ne_bytes().to_vec());
    assert_eq!(read_u64(&out, 0), Ok((0x0102_0304_0506_0708, 8)));
    assert_eq!(read_u64(&[], 0), Err(IpcError::Incomplete { needed: 8 }));
}

#[test]
fn usize_goes_out_as_one_machine_word() {
    let mut out = Vec::new();
    write_usize(&mut out, 0x0102_0304);
    assert_eq!(out, 0x0102_0304usize.to_ne_bytes().to_vec());
    assert_eq!(out.len(), WORD);
    assert_eq!(read_usize(&out, 0), Ok((0x0102_0304, WORD)));
    assert_eq!(read_usize(&out, 1), Err(IpcError::Incomplete { needed: 1 }));
}

#[test]
fn extreme_unsigned_integers_come_back() {
    let mut out = Vec::new();
    write_u8(&mut out, u8::MAX);
    write_u16(&mut out, u16::MAX);
    write_u32(&mut out, u32::MAX);
    write_u64(&mut out, u64::MAX);
    write_usize(&mut out, usize::MAX);
    write_u64(&mut out, 0);
    let (a, p) = read_u8(&out, 0).unwrap();
    let (b, p) = read_u16(&out, p).unwrap();
    let (c, p) = read_u32(&out, p).unwrap();
    let (d, p) = read_u64(&out, p).unwrap();
    let (e, p) = read_usize(&out, p).unwrap();
    let (f, p) = read_u64(&out, p).unwrap();
    assert_eq!((a, b, c, d, e, f), (u8::MAX, u16::MAX, u32::MAX, u64::MAX, usize::MAX, 0));
    assert_eq!(p, out.len());
}

#[test]
fn signed_integers_travel_in_twos_complement() {
    let mut out = Vec::new();
    write_i8(&mut out, -1);
    assert_eq!(out, vec![0xff]);
    let mut out = Vec::new();
    write_i16(&mut out, -2);
    assert_eq!(out, (-2i16).to_ne_bytes().to_vec());
    let mut out = Vec::new();
    write_i32(&mut out, -5);
    assert_eq!(out, (-5i32).to_ne_bytes().to_vec());
    let mut out = Vec::new();
    write_i64(&mut out, i64::MIN);
    assert_eq!(out, i64::MIN.to_ne_bytes().to_vec());
    let mut out = Vec::new();
    write_isize(&mut out, -7);
    assert_eq!(out, (-7isize).to_ne_bytes().to_vec());
}

#[test]
fn extreme_signed_integers_come_back() {
    let mut out = Vec::new();
    write_i8(&mut out, i8::MIN);
    write_i16(&mut out, i16::MIN);
    write_i32(&mut out, i32::MAX);
    write_i64(&mut out, i64::MIN);
    write_isize(&mut out, isize::MIN);
    write_i32(&mut out, -1);
    let (a, p) = read_i8(&out, 0).unwrap();
    let (b, p) = read_i16(&out, p).unwrap();
    let (c, p) = read_i32(&out, p).unwrap();
    let (d, p) = read_i64(&out, p).unwrap();
    let (e, p) = read_isize(&out, p).unwrap();
    let (f, p) = read_i32(&out, p).unwrap();
    assert_eq!((a, b, c, d, e, f), (i8::MIN, i16::MIN, i32::MAX, i64::MIN, isize::MIN, -1));
    assert_eq!(p, out.len());
}

#[test]
fn bool_is_one_byte_and_any_nonzero_byte_is_true() {
    let mut out = Vec::new();
    write_bool(&mut out, false);
    write_bool(&mut out, true);
    assert_eq!(out, vec![0, 1]);
    assert_eq!(read_bool(&out, 0), Ok((false, 1)));
    assert_eq!(read_bool(&out, 1), Ok((true, 2)));
    assert_eq!(read_bool(&[0x80], 0), Ok((true, 1)));
    assert_eq!(read_bool(&[], 0), Err(IpcError::Incomplete { needed: 1 }));
}

#[test]
fn bytes_are_framed_by_their_length() {
    let mut out = Vec::new();
    write_bytes(&mut out, &[0xde, 0xad]);
    assert_eq!(out, framed(&[0xde, 0xad]));
    assert_eq!(read_bytes(&out, 0), Ok((vec![0xde, 0xad], WORD + 2)));
    let mut out = Vec::new();
    write_bytes(&mut out, &[]);
    assert_eq!(out, framed(&[]));
    assert_eq!(read_bytes(&out, 0), Ok((vec![], WORD)));
}

#[test]
fn bytes_that_end_early_say_how_many_are_missing() {
    let whole = framed(&[1, 2, 3, 4, 5]);
    assert_eq!(read_bytes(&whole[..3], 0), Err(IpcError::Incomplete { needed: WORD - 3 }));
    assert_eq!(read_bytes(&whole[..WORD], 0), Err(IpcError::Incomplete { needed: 5 }));
    assert_eq!(read_bytes(&whole[..WORD + 2], 0), Err(IpcError::Incomplete { needed: 3 }));
}

#[test]
fn a_length_that_no_buffer_can_hold_is_only_ever_incomplete() {
    let whole = usize::MAX.to_ne_bytes().to_vec();
    assert_eq!(read_bytes(&whole, 0), Err(IpcError::Incomplete { needed: usize::MAX }));
}

#[test]
fn strings_travel_as_their_utf8_bytes() {
    let text = "grüße, 世界 🚀";
    let mut out = Vec::new();
    write_string(&mut out, text);
    assert_eq!(out, framed(text.as_bytes()));
    assert_eq!(read_string(&out, 0), Ok((text.to_string(), out.len())));
    let mut out = Vec::new();
    write_string(&mut out, "");
    assert_eq!(read_string(&out, 0), Ok((String::new(), WORD)));
}

#[test]
fn bytes_that_are_not_utf8_are_refused_as_text() {
    assert_eq!(read_string(&framed(&[0xff, 0xfe]), 0), Err(IpcError::InvalidUtf8));
    assert_eq!(read_string(&framed(&[0xc3]), 0), Err(IpcError::InvalidUtf8));
    assert_eq!(read_string(&framed(&[0xed, 0xa0, 0x80]), 0), Err(IpcError::InvalidUtf8));
    assert_eq!(read_string(&framed(&[0xc0, 0x80]), 0), Err(IpcError::InvalidUtf8));
}

#[test]
fn type_tags_count_up_from_zero() {
    let tags = [
        SerializedType::Su8,
        SerializedType::Si8,
        SerializedType::Su16,
        SerializedType::Si16,
        SerializedType::Su32,
        SerializedType::Si32,
        SerializedType::Su64,
        SerializedType::Si64,
        SerializedType::Sf32,
        SerializedType::Sf64,
        SerializedType::Susize,
        SerializedType::Sisize,
        SerializedType::Sbool,
        SerializedType::Sstring,
        SerializedType::Sbytes,
        SerializedType::Token,
        SerializedType::Marker,
    ];
    for (i, tag) in tags.iter().enumerate() {
        assert_eq!(tag.to_u8() as usize, i);
        assert_eq!(SerializedType::try_from(i as u8), Ok(*tag));
        let mut out = Vec::new();
        write_gtype(&mut out, *tag);
        assert_eq!(out, vec![i as u8]);
        assert_eq!(read_gtype(&out, 0), Ok((*tag, 1)));
    }
    for b in 17..=255u8 {
        assert_eq!(SerializedType::try_from(b), Err(b));
    }
}

#[test]
fn an_unknown_type_tag_is_a_protocol_error() {
    assert_eq!(
        read_gtype(&[17], 0),
        Err(IpcError::Protocol(ProtocolError::UnknownGenericType(17)))
    );
    assert_eq!(
        read_generic(&[0xee, 1, 2, 3], 0),
        Err(IpcError::Protocol(ProtocolError::UnknownGenericType(0xee)))
    );
}

#[test]
fn protocol_constants_have_their_pinned_bytes() {
    let table = [
        (ProtocolConstant::Hello, 0x00u8),
        (ProtocolConstant::DefineFunction, 0x01),
        (ProtocolConstant::DefineData, 0x02),
        (ProtocolConstant::Call, 0x03),
        (ProtocolConstant::FreeFunction, 0x04),
        (ProtocolConstant::FreeData, 0x05),
        (ProtocolConstant::Peek, 0x06),
        (ProtocolConstant::Poke, 0x07),
        (ProtocolConstant::Log, 0x08),
        (ProtocolConstant::Result, 0xc5),
        (ProtocolConstant::Erroneous, 0x5c),
        (ProtocolConstant::Goodbye, 0xff),
    ];
    for (constant, byte) in table.iter() {
        assert_eq!(constant.to_u8(), *byte);
        assert_eq!(ProtocolConstant::try_from(*byte), Ok(*constant));
        let mut out = Vec::new();
        write_protocol(&mut out, *constant);
        assert_eq!(out, vec![*byte]);
        assert_eq!(read_protocol(&out, 0), Ok((*constant, 1)));
    }
    let known: Vec<u8> = table.iter().map(|(_, b)| *b).collect();
    for b in 0..=255u8 {
        if !known.contains(&b) {
            assert_eq!(ProtocolConstant::try_from(b), Err(b));
        }
    }
}

#[test]
fn an_unknown_protocol_constant_is_a_protocol_error() {
    assert_eq!(
        read_protocol(&[0x42], 0),
        Err(IpcError::Protocol(ProtocolError::UnknownProtocolConstant(0x42)))
    );
    assert_eq!(read_protocol(&[], 0), Err(IpcError::Incomplete { needed: 1 }));
}

#[test]
fn remote_error_types_count_up_from_zero() {
    let table = [
        (RemoteErrorType::UserspaceException, 0u8),
        (RemoteErrorType::ProtocolError, 1),
        (RemoteErrorType::GenericTypeError, 2),
    ];
    for (kind, byte) in table.iter() {
        assert_eq!(kind.to_u8(), *byte);
        assert_eq!(RemoteErrorType::try_from(*byte), Ok(*kind));
        let mut out = Vec::new();
        write_err_type(&mut out, *kind);
        assert_eq!(out, vec![*byte]);
        assert_eq!(read_err_type(&out, 0), Ok((*kind, 1)));
    }
    assert_eq!(
        read_err_type(&[3], 0),
        Err(IpcError::Protocol(ProtocolError::UnknownErrorType(3)))
    );
}

#[test]
fn log_types_count_up_from_zero() {
    let table = [(LogType::Stdout, 0u8), (LogType::Stderr, 1)];
    for (kind, byte) in table.iter() {
        assert_eq!(kind.to_u8(), *byte);
        assert_eq!(LogType::try_from(*byte), Ok(*kind));
        let mut out = Vec::new();
        write_log_type(&mut out, *kind);
        assert_eq!(out, vec![*byte]);
        assert_eq!(read_log_type(&out, 0), Ok((*kind, 1)));
    }
    assert_eq!(
        read_log_type(&[2], 0),
        Err(IpcError::Protocol(ProtocolError::UnknownLogType(2)))
    );
}

#[test]
fn a_value_is_its_tag_and_then_its_payload() {
    assert_eq!(sent(GenericValue::Vu8(7)), vec![0, 7]);
    assert_eq!(sent(GenericValue::Vi8(-1)), vec![1, 0xff]);
    let mut bytes = vec![2];
    bytes.extend_from_slice(&513u16.to_ne_bytes());
    assert_eq!(sent(GenericValue::Vu16(513)), bytes);
    let mut bytes = vec![5];
    bytes.extend_from_slice(&(-5i32).to_ne_bytes());
    assert_eq!(sent(GenericValue::Vi32(-5)), bytes);
    let mut bytes = vec![6];
    bytes.extend_from_slice(&7u64.to_ne_bytes());
    assert_eq!(sent(GenericValue::Vu64(7)), bytes);
    let mut bytes = vec![8];
    bytes.extend_from_slice(&1.5f32.to_ne_bytes());
    assert_eq!(sent(GenericValue::Vf32(1.5f32.to_bits())), bytes);
    let mut bytes = vec![9];
    bytes.extend_from_slice(&(-2.25f64).to_ne_bytes());
    assert_eq!(sent(GenericValue::Vf64((-2.25f64).to_bits())), bytes);
    assert_eq!(sent(GenericValue::Vbool(true)), vec![12, 1]);
    let mut bytes = vec![13];
    bytes.extend_from_slice(&framed(b"test"));
    assert_eq!(sent(GenericValue::Vstring("test")), bytes);
    let mut bytes = vec![14];
    bytes.extend_from_slice(&framed(&[0xde, 0xad]));
    assert_eq!(sent(GenericValue::Vbytes(&[0xde, 0xad])), bytes);
    let mut bytes = vec![15];
    bytes.extend_from_slice(&9u64.to_ne_bytes());
    assert_eq!(sent(GenericValue::Token(DataToken(9))), bytes);
    assert_eq!(sent(GenericValue::Marker(0x7f)), vec![16, 0x7f]);
}

#[test]
fn every_variant_comes_back_as_it_was_sent() {
    let text = "héllo";
    let blob = [0u8, 1, 2, 255];
    let values: Vec<GenericValueRef<'_>> = vec![
        GenericValue::Vu8(200),
        GenericValue::Vi8(-100),
        GenericValue::Vu16(60000),
        GenericValue::Vi16(-30000),
        GenericValue::Vu32(4_000_000_000),
        GenericValue::Vi32(-2_000_000_000),
        GenericValue::Vu64(u64::MAX - 1),
        GenericValue::Vi64(i64::MIN + 1),
        GenericValue::Vf32(3.25f32.to_bits()),
        GenericValue::Vf64(1e300f64.to_bits()),
        GenericValue::Vusize(usize::MAX),
        GenericValue::Visize(isize::MIN),
        GenericValue::Vbool(true),
        GenericValue::Vbool(false),
        GenericValue::Vstring(text),
        GenericValue::Vbytes(&blob),
        GenericValue::Token(DataToken(77)),
        GenericValue::Marker(3),
    ];
    for value in values.iter() {
        let back = received(&sent(*value));
        assert_eq!(GenericValueRef::from(&back), *value);
    }
}

#[test]
fn floats_come_back_bit_for_bit() {
    let quiet = f32::NAN.to_bits();
    let odd = 0x7fa0_1234u32;
    let negative_zero = (-0.0f32).to_bits();
    for bits in [quiet, odd, negative_zero, f32::INFINITY.to_bits(), 1.0f32.to_bits()] {
        match received(&sent(GenericValue::Vf32(bits))) {
            GenericValue::Vf32(back) => {
                assert_eq!(back, bits);
                assert_eq!(f32::from_bits(back).to_bits(), bits);
            }
            other => panic!("not a 32-bit float: {:?}", other),
        }
    }
    let odd = 0x7ff4_0000_dead_beefu64;
    for bits in [f64::NAN.to_bits(), odd, (-0.0f64).to_bits(), f64::MIN.to_bits()] {
        match received(&sent(GenericValue::Vf64(bits))) {
            GenericValue::Vf64(back) => assert_eq!(back, bits),
            other => panic!("not a 64-bit float: {:?}", other),
        }
    }
    assert!(f32::from_bits(0x7fa0_1234).is_nan());
}

#[test]
fn a_value_that_ends_early_says_how_many_bytes_are_missing() {
    let whole = sent(GenericValue::Vu64(1));
    assert_eq!(read_generic(&whole[..0], 0), Err(IpcError::Incomplete { needed: 1 }));
    assert_eq!(read_generic(&whole[..1], 0), Err(IpcError::Incomplete { needed: 8 }));
    assert_eq!(read_generic(&whole[..6], 0), Err(IpcError::Incomplete { needed: 3 }));
    let whole = sent(GenericValue::Vstring("abcdef"));
    assert_eq!(
        read_generic(&whole[..whole.len() - 2], 0),
        Err(IpcError::Incomplete { needed: 2 })
    );
}

#[test]
fn a_text_value_that_is_not_utf8_is_refused() {
    let mut bytes = vec![13];
    bytes.extend_from_slice(&framed(&[b'a', 0xff]));
    assert_eq!(read_generic(&bytes, 0), Err(IpcError::InvalidUtf8));
    let mut bytes = vec![14];
    bytes.extend_from_slice(&framed(&[b'a', 0xff]));
    assert_eq!(read_generic(&bytes, 0), Ok((GenericValue::Vbytes(vec![b'a', 0xff]), bytes.len())));
}

#[test]
fn a_value_is_read_from_where_the_reader_stands() {
    let mut bytes = vec![0xaa, 0xbb];
    bytes.extend_from_slice(&sent(GenericValue::Vi16(-9)));
    bytes.push(0xcc);
    assert_eq!(read_generic(&bytes, 2), Ok((GenericValue::Vi16(-9), 5)));
}

#[test]
fn an_empty_sequence_of_values_is_just_its_length() {
    let mut out = Vec::new();
    write_generic_vec(&mut out, &[]);
    assert_eq!(out, 0usize.to_ne_bytes().to_vec());
    assert_eq!(read_generic_vec(&out, 0), Ok((vec![], WORD)));
}

#[test]
fn a_sequence_of_one_value_comes_back() {
    let mut out = Vec::new();
    write_generic_vec(&mut out, &[GenericValue::Vstring("only")]);
    let mut bytes = 1usize.to_ne_bytes().to_vec();
    bytes.extend_from_slice(&sent(GenericValue::Vstring("only")));
    assert_eq!(out, bytes);
    assert_eq!(
        read_generic_vec(&out, 0),
        Ok((vec![GenericValue::Vstring("only".to_string())], out.len()))
    );
}

#[test]
fn a_sequence_of_many_values_comes_back_in_order() {
    let values: Vec<GenericValueRef<'_>> = (0..300u32)
        .map(|i| {
            if i % 3 == 0 {
                GenericValue::Vu32(i)
            } else if i % 3 == 1 {
                GenericValue::Vstring("x")
            } else {
                GenericValue::Vi64(-(i as i64))
            }
        })
        .collect();
    let mut out = Vec::new();
    write_generic_vec(&mut out, &values);
    let (back, next) = read_generic_vec(&out, 0).unwrap();
    assert_eq!(next, out.len());
    assert_eq!(back.len(), 300);
    for (b, v) in back.iter().zip(values.iter()) {
        assert_eq!(GenericValueRef::from(b), *v);
    }
}

#[test]
fn a_sequence_that_ends_early_says_what_is_missing() {
    let mut out = Vec::new();
    write_generic_vec(&mut out, &[GenericValue::Vu8(1), GenericValue::Vu16(2)]);
    assert_eq!(read_generic_vec(&out[..2], 0), Err(IpcError::Incomplete { needed: WORD - 2 }));
    assert_eq!(read_generic_vec(&out[..WORD], 0), Err(IpcError::Incomplete { needed: 1 }));
    assert_eq!(read_generic_vec(&out[..WORD + 2], 0), Err(IpcError::Incomplete { needed: 1 }));
    assert_eq!(read_generic_vec(&out[..WORD + 3], 0), Err(IpcError::Incomplete { needed: 2 }));
    assert_eq!(read_generic_vec(&out[..WORD + 4], 0), Err(IpcError::Incomplete { needed: 1 }));
}

#[test]
fn a_bad_tag_inside_a_sequence_is_a_protocol_error() {
    let mut bytes = 2usize.to_ne_bytes().to_vec();
    bytes.extend_from_slice(&[0, 5, 99]);
    assert_eq!(
        read_generic_vec(&bytes, 0),
        Err(IpcError::Protocol(ProtocolError::UnknownGenericType(99)))
    );
}
