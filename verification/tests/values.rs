use ufo_ipc::{
    DataToken, FunctionToken, GenericValue, GenericValueBoxed, GenericValueRef, IpcError,
    PipeEnd, ProtocolConstant, ProtocolError, RemoteError, RemoteErrorType, SerializedType,
    StartupError, UnexpectedGenericType,
};

fn wrong(expected_type: SerializedType, actual_type: SerializedType) -> UnexpectedGenericType {
    UnexpectedGenericType { expected_type, actual_type }
}

#[test]
fn type_of_names_the_variant() {
    let values: Vec<(GenericValueRef<'_>, SerializedType)> = vec![
        (GenericValue::Vu8(0), SerializedType::Su8),
        (GenericValue::Vi8(0), SerializedType::Si8),
        (GenericValue::Vu16(0), SerializedType::Su16),
        (GenericValue::Vi16(0), SerializedType::Si16),
        (GenericValue::Vu32(0), SerializedType::Su32),
        (GenericValue::Vi32(0), SerializedType::Si32),
        (GenericValue::Vu64(0), SerializedType::Su64),
        (GenericValue::Vi64(0), SerializedType::Si64),
        (GenericValue::Vf32(0), SerializedType::Sf32),
        (GenericValue::Vf64(0), SerializedType::Sf64),
        (GenericValue::Vusize(0), SerializedType::Susize),
        (GenericValue::Visize(0), SerializedType::Sisize),
        (GenericValue::Vbool(false), SerializedType::Sbool),
        (GenericValue::Vstring(""), SerializedType::Sstring),
        (GenericValue::Vbytes(&[]), SerializedType::Sbytes),
        (GenericValue::Token(DataToken(0)), SerializedType::Token),
        (GenericValue::Marker(0), SerializedType::Marker),
    ];
    for (value, tag) in values.iter() {
        assert_eq!(value.type_of(), *tag);
    }
}

#[test]
fn an_accessor_hands_out_what_the_value_holds() {
    let v: GenericValueBoxed = GenericValue::Vu8(8);
    assert_eq!(v.expect_u8(), Ok(&8));
    let v: GenericValueBoxed = GenericValue::Vi8(-8);
    assert_eq!(v.expect_i8(), Ok(&-8));
    let v: GenericValueBoxed = GenericValue::Vu16(16);
    assert_eq!(v.expect_u16(), Ok(&16));
    let v: GenericValueBoxed = GenericValue::Vi16(-16);
    assert_eq!(v.expect_i16(), Ok(&-16));
    let v: GenericValueBoxed = GenericValue::Vu32(32);
    assert_eq!(v.expect_u32(), Ok(&32));
    let v: GenericValueBoxed = GenericValue::Vi32(-32);
    assert_eq!(v.expect_i32(), Ok(&-32));
    let v: GenericValueBoxed = GenericValue::Vu64(64);
    assert_eq!(v.expect_u64(), Ok(&64));
    let v: GenericValueBoxed = GenericValue::Vi64(-64);
    assert_eq!(v.expect_i64(), Ok(&-64));
    let v: GenericValueBoxed = GenericValue::Vf32(2.5f32.to_bits());
    assert_eq!(v.expect_f32().map(|bits| f32::from_bits(*bits)), Ok(2.5));
    let v: GenericValueBoxed = GenericValue::Vf64(2.5f64.to_bits());
    assert_eq!(v.expect_f64().map(|bits| f64::from_bits(*bits)), Ok(2.5));
    let v: GenericValueBoxed = GenericValue::Vusize(9);
    assert_eq!(v.expect_usize(), Ok(&9));
    let v: GenericValueBoxed = GenericValue::Visize(-9);
    assert_eq!(v.expect_isize(), Ok(&-9));
    let v: GenericValueBoxed = GenericValue::Vbool(true);
    assert_eq!(v.expect_bool(), Ok(&true));
    let v: GenericValueBoxed = GenericValue::Vstring("s".to_string());
    assert_eq!(v.expect_string(), Ok(&"s".to_string()));
    let v: GenericValueBoxed = GenericValue::Vbytes(vec![1, 2]);
    assert_eq!(v.expect_bytes(), Ok(&vec![1, 2]));
    let v: GenericValueBoxed = GenericValue::Token(DataToken(5));
    assert_eq!(v.expect_token(), Ok(&DataToken(5)));
    let v: GenericValueBoxed = GenericValue::Marker(6);
    assert_eq!(v.expect_marker(), Ok(&6));
}

#[test]
fn an_accessor_into_hands_over_what_the_value_holds() {
    let v: GenericValueBoxed = GenericValue::Vu8(8);
    assert_eq!(v.expect_u8_into(), Ok(8));
    let v: GenericValueBoxed = GenericValue::Vi8(-8);
    assert_eq!(v.expect_i8_into(), Ok(-8));
    let v: GenericValueBoxed = GenericValue::Vu16(16);
    assert_eq!(v.expect_u16_into(), Ok(16));
    let v: GenericValueBoxed = GenericValue::Vi16(-16);
    assert_eq!(v.expect_i16_into(), Ok(-16));
    let v: GenericValueBoxed = GenericValue::Vu32(32);
    assert_eq!(v.expect_u32_into(), Ok(32));
    let v: GenericValueBoxed = GenericValue::Vi32(-32);
    assert_eq!(v.expect_i32_into(), Ok(-32));
    let v: GenericValueBoxed = GenericValue::Vu64(64);
    assert_eq!(v.expect_u64_into(), Ok(64));
    let v: GenericValueBoxed = GenericValue::Vi64(-64);
    assert_eq!(v.expect_i64_into(), Ok(-64));
    let v: GenericValueBoxed = GenericValue::Vf32(7);
    assert_eq!(v.expect_f32_into(), Ok(7));
    let v: GenericValueBoxed = GenericValue::Vf64(7);
    assert_eq!(v.expect_f64_into(), Ok(7));
    let v: GenericValueBoxed = GenericValue::Vusize(9);
    assert_eq!(v.expect_usize_into(), Ok(9));
    let v: GenericValueBoxed = GenericValue::Visize(-9);
    assert_eq!(v.expect_isize_into(), Ok(-9));
    let v: GenericValueBoxed = GenericValue::Vbool(true);
    assert_eq!(v.expect_bool_into(), Ok(true));
    let v: GenericValueBoxed = GenericValue::Vstring("s".to_string());
    assert_eq!(v.expect_string_into(), Ok("s".to_string()));
    let v: GenericValueBoxed = GenericValue::Vbytes(vec![1, 2]);
    assert_eq!(v.expect_bytes_into(), Ok(vec![1, 2]));
    let v: GenericValueBoxed = GenericValue::Token(DataToken(5));
    assert_eq!(v.expect_token_into(), Ok(DataToken(5)));
    let v: GenericValueBoxed = GenericValue::Marker(6);
    assert_eq!(v.expect_marker_into(), Ok(6));
}

#[test]
fn an_accessor_of_the_wrong_type_says_what_is_there() {
    let v: GenericValueBoxed = GenericValue::Vstring("s".to_string());
    assert_eq!(v.expect_u8(), Err(wrong(SerializedType::Su8, SerializedType::Sstring)));
    assert_eq!(v.expect_i8(), Err(wrong(SerializedType::Si8, SerializedType::Sstring)));
    assert_eq!(v.expect_u16(), Err(wrong(SerializedType::Su16, SerializedType::Sstring)));
    assert_eq!(v.expect_i16(), Err(wrong(SerializedType::Si16, SerializedType::Sstring)));
    assert_eq!(v.expect_u32(), Err(wrong(SerializedType::Su32, SerializedType::Sstring)));
    assert_eq!(v.expect_i32(), Err(wrong(SerializedType::Si32, SerializedType::Sstring)));
    assert_eq!(v.expect_u64(), Err(wrong(SerializedType::Su64, SerializedType::Sstring)));
    assert_eq!(v.expect_i64(), Err(wrong(SerializedType::Si64, SerializedType::Sstring)));
    assert_eq!(v.expect_f32(), Err(wrong(SerializedType::Sf32, SerializedType::Sstring)));
    assert_eq!(v.expect_f64(), Err(wrong(SerializedType::Sf64, SerializedType::Sstring)));
    assert_eq!(v.expect_usize(), Err(wrong(SerializedType::Susize, SerializedType::Sstring)));
    assert_eq!(v.expect_isize(), Err(wrong(SerializedType::Sisize, SerializedType::Sstring)));
    assert_eq!(v.expect_bool(), Err(wrong(SerializedType::Sbool, SerializedType::Sstring)));
    assert_eq!(v.expect_bytes(), Err(wrong(SerializedType::Sbytes, SerializedType::Sstring)));
    assert_eq!(v.expect_token(), Err(wrong(SerializedType::Token, SerializedType::Sstring)));
    assert_eq!(v.expect_marker(), Err(wrong(SerializedType::Marker, SerializedType::Sstring)));
    let v: GenericValueBoxed = GenericValue::Vu8(1);
    assert_eq!(v.expect_string(), Err(wrong(SerializedType::Sstring, SerializedType::Su8)));
    assert_eq!(v.expect_marker(), Err(wrong(SerializedType::Marker, SerializedType::Su8)));
}

#[test]
fn an_accessor_into_of_the_wrong_type_says_what_is_there() {
    let v: GenericValueRef<'_> = GenericValue::Vu32(1);
    assert_eq!(v.expect_u8_into(), Err(wrong(SerializedType::Su8, SerializedType::Su32)));
    assert_eq!(v.expect_i8_into(), Err(wrong(SerializedType::Si8, SerializedType::Su32)));
    assert_eq!(v.expect_u16_into(), Err(wrong(SerializedType::Su16, SerializedType::Su32)));
    assert_eq!(v.expect_i16_into(), Err(wrong(SerializedType::Si16, SerializedType::Su32)));
    assert_eq!(v.expect_i32_into(), Err(wrong(SerializedType::Si32, SerializedType::Su32)));
    assert_eq!(v.expect_u64_into(), Err(wrong(SerializedType::Su64, SerializedType::Su32)));
    assert_eq!(v.expect_i64_into(), Err(wrong(SerializedType::Si64, SerializedType::Su32)));
    assert_eq!(v.expect_f32_into(), Err(wrong(SerializedType::Sf32, SerializedType::Su32)));
    assert_eq!(v.expect_f64_into(), Err(wrong(SerializedType::Sf64, SerializedType::Su32)));
    assert_eq!(v.expect_usize_into(), Err(wrong(SerializedType::Susize, SerializedType::Su32)));
    assert_eq!(v.expect_isize_into(), Err(wrong(SerializedType::Sisize, SerializedType::Su32)));
    assert_eq!(v.expect_bool_into(), Err(wrong(SerializedType::Sbool, SerializedType::Su32)));
    assert_eq!(v.expect_string_into(), Err(wrong(SerializedType::Sstring, SerializedType::Su32)));
    assert_eq!(v.expect_bytes_into(), Err(wrong(SerializedType::Sbytes, SerializedType::Su32)));
    assert_eq!(v.expect_token_into(), Err(wrong(SerializedType::Token, SerializedType::Su32)));
    assert_eq!(v.expect_marker_into(), Err(wrong(SerializedType::Marker, SerializedType::Su32)));
    let v: GenericValueRef<'_> = GenericValue::Vbool(true);
    assert_eq!(v.expect_u32_into(), Err(wrong(SerializedType::Su32, SerializedType::Sbool)));
}

#[test]
fn a_float_is_not_mistaken_for_the_integer_with_its_bits() {
    let v: GenericValueBoxed = GenericValue::Vf32(1.0f32.to_bits());
    assert_eq!(v.expect_u32(), Err(wrong(SerializedType::Su32, SerializedType::Sf32)));
    let v: GenericValueBoxed = GenericValue::Vu64(1);
    assert_eq!(v.expect_f64(), Err(wrong(SerializedType::Sf64, SerializedType::Su64)));
    assert_eq!(v.expect_token(), Err(wrong(SerializedType::Token, SerializedType::Su64)));
}

#[test]
fn a_received_value_can_be_borrowed_to_be_sent_on() {
    let owned: Vec<GenericValueBoxed> = vec![
        GenericValue::Vu8(1),
        GenericValue::Vi8(-1),
        GenericValue::Vu16(2),
        GenericValue::Vi16(-2),
        GenericValue::Vu32(3),
        GenericValue::Vi32(-3),
        GenericValue::Vu64(4),
        GenericValue::Vi64(-4),
        GenericValue::Vf32(5),
        GenericValue::Vf64(6),
        GenericValue::Vusize(7),
        GenericValue::Visize(-7),
        GenericValue::Vbool(true),
        GenericValue::Vstring("text".to_string()),
        GenericValue::Vbytes(vec![8, 9]),
        GenericValue::Token(DataToken(10)),
        GenericValue::Marker(11),
    ];
    let borrowed: Vec<GenericValueRef<'_>> = owned.iter().map(GenericValueRef::from).collect();
    assert_eq!(borrowed[13], GenericValue::Vstring("text"));
    assert_eq!(borrowed[14], GenericValue::Vbytes(&[8u8, 9][..]));
    for (b, o) in borrowed.iter().zip(owned.iter()) {
        assert_eq!(b.type_of(), o.type_of());
        assert_eq!(format!("{:?}", b), format!("{:?}", o));
    }
    let again: GenericValueRef<'_> = (&owned[0]).into();
    assert_eq!(again, GenericValue::Vu8(1));
}

#[test]
fn plain_values_turn_into_generic_values() {
    let v: GenericValueBoxed = 1u8.into();
    assert_eq!(v, GenericValue::Vu8(1));
    let v: GenericValueBoxed = (-1i8).into();
    assert_eq!(v, GenericValue::Vi8(-1));
    let v: GenericValueBoxed = 2u16.into();
    assert_eq!(v, GenericValue::Vu16(2));
    let v: GenericValueBoxed = (-2i16).into();
    assert_eq!(v, GenericValue::Vi16(-2));
    let v: GenericValueBoxed = 3u32.into();
    assert_eq!(v, GenericValue::Vu32(3));
    let v: GenericValueBoxed = (-3i32).into();
    assert_eq!(v, GenericValue::Vi32(-3));
    let v: GenericValueBoxed = 4u64.into();
    assert_eq!(v, GenericValue::Vu64(4));
    let v: GenericValueBoxed = (-4i64).into();
    assert_eq!(v, GenericValue::Vi64(-4));
    let v: GenericValueBoxed = 5usize.into();
    assert_eq!(v, GenericValue::Vusize(5));
    let v: GenericValueBoxed = (-5isize).into();
    assert_eq!(v, GenericValue::Visize(-5));
    let v: GenericValueBoxed = true.into();
    assert_eq!(v, GenericValue::Vbool(true));
    let v: GenericValueBoxed = DataToken(6).into();
    assert_eq!(v, GenericValue::Token(DataToken(6)));
    let v: GenericValueBoxed = vec![7u8].into();
    assert_eq!(v, GenericValue::Vbytes(vec![7]));
    let v: GenericValueBoxed = "s".to_string().into();
    assert_eq!(v, GenericValue::Vstring("s".to_string()));
    let v: GenericValueRef<'_> = (&[8u8][..]).into();
    assert_eq!(v, GenericValue::Vbytes(&[8u8][..]));
    let v: GenericValueRef<'_> = "t".into();
    assert_eq!(v, GenericValue::Vstring("t"));
}

#[test]
fn tokens_are_their_numbers() {
    assert_eq!(DataToken::from(5), DataToken(5));
    assert_eq!(u64::from(DataToken(5)), 5);
    assert_eq!(FunctionToken::from(6), FunctionToken(6));
    assert_eq!(u64::from(FunctionToken(6)), 6);
    assert!(DataToken(1) < DataToken(2));
    assert!(FunctionToken(3) > FunctionToken(2));
}

fn first_as_text(values: &[GenericValueBoxed]) -> Result<&String, IpcError> {
    let text = values[0].expect_string()?;
    Ok(text)
}

#[test]
fn every_failure_folds_into_the_one_error_type() {
    assert_eq!(
        IpcError::from(ProtocolError::UnknownLogType(9)),
        IpcError::Protocol(ProtocolError::UnknownLogType(9))
    );
    assert_eq!(
        IpcError::from(ProtocolError::InappropriateProtocolConstant(ProtocolConstant::Log)),
        IpcError::Protocol(ProtocolError::InappropriateProtocolConstant(ProtocolConstant::Log))
    );
    assert_eq!(
        IpcError::from(wrong(SerializedType::Su8, SerializedType::Sbool)),
        IpcError::GenericType(wrong(SerializedType::Su8, SerializedType::Sbool))
    );
    assert_eq!(
        IpcError::from(StartupError::Unset(PipeEnd::Out)),
        IpcError::Startup(StartupError::Unset(PipeEnd::Out))
    );
    let remote = RemoteError {
        logs: vec![],
        err_type: RemoteErrorType::UserspaceException,
        aux: vec![GenericValue::Vu8(1)],
    };
    let again = RemoteError {
        logs: vec![],
        err_type: RemoteErrorType::UserspaceException,
        aux: vec![GenericValue::Vu8(1)],
    };
    assert_eq!(IpcError::from(remote), IpcError::Remote(again));
}

#[test]
fn a_wrong_type_can_be_passed_up_as_any_other_failure() {
    assert_eq!(
        first_as_text(&[GenericValue::Vstring("ok".to_string())]),
        Ok(&"ok".to_string())
    );
    assert_eq!(
        first_as_text(&[GenericValue::Marker(1)]),
        Err(IpcError::GenericType(wrong(SerializedType::Sstring, SerializedType::Marker)))
    );
}
