use ufo_ipc::codec::{write_generic_vec, write_string, write_u64, write_usize};
use ufo_ipc::protocol::{
    read_erroneous_body, read_logs, read_reply, read_request, read_response_value,
    read_result_body, recv_call, recv_define_data, recv_define_function, recv_free_data,
    recv_free_function, recv_peek, recv_poke,
};
use ufo_ipc::{
    DataToken, FunctionToken, GenericValue, GenericValueRef, IpcError, LogEntry, LogType,
    Pending, ProtocolCommand, ProtocolConstant, ProtocolError, RemoteError, RemoteErrorType,
    Request, Response, ResponseValue,
};

const WORD: usize = std::mem::size_of::<usize>();

fn values(vs: &[GenericValueRef<'_>]) -> Vec<u8> {
    let mut out = Vec::new();
    write_generic_vec(&mut out, vs);
    out
}

fn text(s: &str) -> Vec<u8> {
    let mut out = Vec::new();
    write_string(&mut out, s);
    out
}

fn token(t: u64) -> Vec<u8> {
    let mut out = Vec::new();
    write_u64(&mut out, t);
    out
}

fn count(n: usize) -> Vec<u8> {
    let mut out = Vec::new();
    write_usize(&mut out, n);
    out
}

fn joined(parts: &[Vec<u8>]) -> Vec<u8> {
    parts.concat()
}

#[test]
fn the_fields_of_define_function_are_token_blob_and_data() {
    let bytes = joined(&[token(3), count(2), vec![0xde, 0xad], values(&[GenericValue::Vu64(7)])]);
    assert_eq!(
        recv_define_function(&bytes, 0),
        Ok((
            ProtocolCommand::DefineFunction {
                token: FunctionToken(3),
                function_blob: vec![0xde, 0xad],
                associated_data: vec![GenericValue::Vu64(7)],
            },
            bytes.len()
        ))
    );
    assert_eq!(recv_define_function(&bytes[..8], 0), Err(IpcError::Incomplete { needed: WORD }));
}

#[test]
fn the_fields_of_call_are_token_and_arguments() {
    let bytes = joined(&[token(4), values(&[GenericValue::Vi32(-5)])]);
    assert_eq!(
        recv_call(&bytes, 0),
        Ok((
            ProtocolCommand::Call { token: FunctionToken(4), args: vec![GenericValue::Vi32(-5)] },
            bytes.len()
        ))
    );
}

#[test]
fn the_field_of_free_function_is_the_token() {
    assert_eq!(
        recv_free_function(&token(5), 0),
        Ok((ProtocolCommand::FreeFunction(FunctionToken(5)), 8))
    );
    assert_eq!(recv_free_function(&token(5)[..5], 0), Err(IpcError::Incomplete { needed: 3 }));
}

#[test]
fn the_fields_of_define_data_are_token_and_values() {
    let bytes = joined(&[token(6), values(&[GenericValue::Vbool(true)])]);
    assert_eq!(
        recv_define_data(&bytes, 0),
        Ok((
            ProtocolCommand::DefineData {
                token: DataToken(6),
                value: vec![GenericValue::Vbool(true)]
            },
            bytes.len()
        ))
    );
}

#[test]
fn the_field_of_free_data_is_the_token() {
    assert_eq!(recv_free_data(&token(7), 0), Ok((ProtocolCommand::FreeData(DataToken(7)), 8)));
}

#[test]
fn the_field_of_peek_is_the_key() {
    let bytes = text("key");
    assert_eq!(recv_peek(&bytes, 0), Ok((ProtocolCommand::Peek("key".to_string()), bytes.len())));
    let bad = joined(&[count(1), vec![0xff]]);
    assert_eq!(recv_peek(&bad, 0), Err(IpcError::InvalidUtf8));
}

#[test]
fn the_fields_of_poke_are_key_and_values() {
    let bytes = joined(&[text("key"), values(&[GenericValue::Vstring("v")])]);
    assert_eq!(
        recv_poke(&bytes, 0),
        Ok((
            ProtocolCommand::Poke {
                key: "key".to_string(),
                value: vec![GenericValue::Vstring("v".to_string())]
            },
            bytes.len()
        ))
    );
}

#[test]
fn a_request_is_constant_fields_and_auxiliary_values() {
    let bytes = joined(&[vec![0x06], text("test"), values(&[GenericValue::Marker(1)])]);
    assert_eq!(
        read_request(&bytes, 0),
        Ok((
            Request {
                command: ProtocolCommand::Peek("test".to_string()),
                aux: vec![GenericValue::Marker(1)]
            },
            bytes.len()
        ))
    );
    let bytes = joined(&[vec![0xff], values(&[])]);
    assert_eq!(
        read_request(&bytes, 0),
        Ok((Request { command: ProtocolCommand::Shutdown, aux: vec![] }, bytes.len()))
    );
    let bytes = joined(&[vec![0x04], token(9), values(&[])]);
    assert_eq!(
        read_request(&bytes, 0),
        Ok((
            Request { command: ProtocolCommand::FreeFunction(FunctionToken(9)), aux: vec![] },
            bytes.len()
        ))
    );
}

#[test]
fn a_request_that_ends_early_says_what_is_missing() {
    let bytes = joined(&[vec![0x05], token(9), values(&[])]);
    assert_eq!(read_request(&bytes[..0], 0), Err(IpcError::Incomplete { needed: 1 }));
    assert_eq!(read_request(&bytes[..1], 0), Err(IpcError::Incomplete { needed: 8 }));
    assert_eq!(read_request(&bytes[..9], 0), Err(IpcError::Incomplete { needed: WORD }));
    assert!(read_request(&bytes, 0).is_ok());
}

#[test]
fn a_constant_that_opens_no_request_is_inappropriate() {
    for c in [
        ProtocolConstant::Hello,
        ProtocolConstant::Result,
        ProtocolConstant::Erroneous,
        ProtocolConstant::Log,
    ] {
        assert_eq!(
            read_request(&[c.to_u8()], 0),
            Err(IpcError::Protocol(ProtocolError::InappropriateProtocolConstant(c)))
        );
        let longer = joined(&[vec![c.to_u8()], token(1), values(&[])]);
        assert_eq!(
            read_request(&longer, 0),
            Err(IpcError::Protocol(ProtocolError::InappropriateProtocolConstant(c)))
        );
    }
}

#[test]
fn a_byte_that_is_no_constant_is_unknown() {
    assert_eq!(
        read_request(&[0x42, 0, 0], 0),
        Err(IpcError::Protocol(ProtocolError::UnknownProtocolConstant(0x42)))
    );
    assert_eq!(
        read_reply(&[0x09], 0, Pending::Empty),
        Err(IpcError::Protocol(ProtocolError::UnknownProtocolConstant(0x09)))
    );
}

#[test]
fn log_lines_are_counted_and_then_listed() {
    let bytes = joined(&[count(2), vec![0], text("out"), vec![1], text("err")]);
    assert_eq!(
        read_logs(&bytes, 0),
        Ok((
            vec![
                LogEntry { log_type: LogType::Stdout, line: "out".to_string() },
                LogEntry { log_type: LogType::Stderr, line: "err".to_string() },
            ],
            bytes.len()
        ))
    );
    assert_eq!(read_logs(&count(0), 0), Ok((vec![], WORD)));
    assert_eq!(read_logs(&bytes[..WORD], 0), Err(IpcError::Incomplete { needed: 1 }));
    assert_eq!(read_logs(&bytes[..WORD + 1], 0), Err(IpcError::Incomplete { needed: WORD }));
}

#[test]
fn an_unknown_log_type_is_a_protocol_error() {
    let bytes = joined(&[count(1), vec![2], text("x")]);
    assert_eq!(read_logs(&bytes, 0), Err(IpcError::Protocol(ProtocolError::UnknownLogType(2))));
}

#[test]
fn the_value_of_a_response_has_the_pending_shape() {
    let bytes = values(&[GenericValue::Vu8(1)]);
    assert_eq!(read_response_value(&bytes, 0, Pending::Empty), Ok((ResponseValue::Empty, 0)));
    assert_eq!(
        read_response_value(&bytes, 0, Pending::Function(FunctionToken(2))),
        Ok((ResponseValue::Function(FunctionToken(2)), 0))
    );
    assert_eq!(
        read_response_value(&bytes, 0, Pending::Data(DataToken(3))),
        Ok((ResponseValue::Data(DataToken(3)), 0))
    );
    assert_eq!(
        read_response_value(&bytes, 0, Pending::Values),
        Ok((ResponseValue::Values(vec![GenericValue::Vu8(1)]), bytes.len()))
    );
}

#[test]
fn a_result_is_logs_auxiliary_values_and_value() {
    let body = joined(&[
        count(1),
        vec![1],
        text("warn"),
        values(&[GenericValue::Vstring("aux")]),
        values(&[GenericValue::Vi32(10)]),
    ]);
    let expected = Response {
        logs: vec![LogEntry { log_type: LogType::Stderr, line: "warn".to_string() }],
        response_aux: vec![GenericValue::Vstring("aux".to_string())],
        value: ResponseValue::Values(vec![GenericValue::Vi32(10)]),
    };
    assert_eq!(read_result_body(&body, 0, Pending::Values), Ok((expected, body.len())));
    let reply = joined(&[vec![0xc5], body.clone()]);
    let expected = Response {
        logs: vec![LogEntry { log_type: LogType::Stderr, line: "warn".to_string() }],
        response_aux: vec![GenericValue::Vstring("aux".to_string())],
        value: ResponseValue::Values(vec![GenericValue::Vi32(10)]),
    };
    assert_eq!(read_reply(&reply, 0, Pending::Values), Ok((Ok(expected), reply.len())));
}

#[test]
fn a_result_without_a_value_stops_after_the_auxiliary_values() {
    let reply = joined(&[vec![0xc5], count(0), values(&[]), vec![0xaa]]);
    let expected = Response { logs: vec![], response_aux: vec![], value: ResponseValue::Empty };
    assert_eq!(read_reply(&reply, 0, Pending::Empty), Ok((Ok(expected), reply.len() - 1)));
}

#[test]
fn an_error_is_its_kind_and_auxiliary_values_without_logs() {
    let body = joined(&[vec![1], values(&[GenericValue::Vstring("bad")])]);
    let expected = RemoteError {
        logs: vec![],
        err_type: RemoteErrorType::ProtocolError,
        aux: vec![GenericValue::Vstring("bad".to_string())],
    };
    assert_eq!(read_erroneous_body(&body, 0), Ok((expected, body.len())));
    let reply = joined(&[vec![0x5c], body]);
    let expected = RemoteError {
        logs: vec![],
        err_type: RemoteErrorType::ProtocolError,
        aux: vec![GenericValue::Vstring("bad".to_string())],
    };
    assert_eq!(read_reply(&reply, 0, Pending::Values), Ok((Err(expected), reply.len())));
}

#[test]
fn an_unknown_error_type_is_a_protocol_error() {
    let reply = joined(&[vec![0x5c, 9], values(&[])]);
    assert_eq!(
        read_reply(&reply, 0, Pending::Empty),
        Err(IpcError::Protocol(ProtocolError::UnknownErrorType(9)))
    );
}

#[test]
fn any_other_constant_in_place_of_a_response_is_unexpected() {
    for c in [
        ProtocolConstant::Hello,
        ProtocolConstant::DefineFunction,
        ProtocolConstant::Peek,
        ProtocolConstant::Log,
        ProtocolConstant::Goodbye,
    ] {
        assert_eq!(
            read_reply(&[c.to_u8(), 0, 0, 0], 0, Pending::Empty),
            Err(IpcError::Protocol(ProtocolError::UnexpectedProtocolConstant {
                got: c,
                expected: ProtocolConstant::Result,
            }))
        );
    }
}

#[test]
fn a_response_that_ends_early_says_what_is_missing() {
    let reply = joined(&[vec![0xc5], count(0), values(&[]), values(&[GenericValue::Vu8(1)])]);
    assert_eq!(read_reply(&reply[..0], 0, Pending::Values), Err(IpcError::Incomplete { needed: 1 }));
    assert_eq!(
        read_reply(&reply[..1], 0, Pending::Values),
        Err(IpcError::Incomplete { needed: WORD })
    );
    assert_eq!(
        read_reply(&reply[..1 + 2 * WORD], 0, Pending::Values),
        Err(IpcError::Incomplete { needed: WORD })
    );
    assert_eq!(
        read_reply(&reply[..reply.len() - 1], 0, Pending::Values),
        Err(IpcError::Incomplete { needed: 1 })
    );
    assert!(read_reply(&reply, 0, Pending::Values).is_ok());
}

fn response(value: ResponseValue) -> Response<ResponseValue> {
    Response {
        logs: vec![LogEntry { log_type: LogType::Stdout, line: "l".to_string() }],
        response_aux: vec![GenericValue::Vu8(1)],
        value,
    }
}

#[test]
fn a_response_can_be_taken_in_its_own_shape() {
    let logs = vec![LogEntry { log_type: LogType::Stdout, line: "l".to_string() }];
    let aux = vec![GenericValue::Vu8(1)];
    assert_eq!(
        response(ResponseValue::Function(FunctionToken(1))).function(),
        Some(Response { logs: logs.clone(), response_aux: aux.clone(), value: FunctionToken(1) })
    );
    assert_eq!(
        response(ResponseValue::Data(DataToken(2))).data(),
        Some(Response { logs: logs.clone(), response_aux: aux.clone(), value: DataToken(2) })
    );
    assert_eq!(
        response(ResponseValue::Values(vec![GenericValue::Vi8(3)])).values(),
        Some(Response {
            logs: logs.clone(),
            response_aux: aux.clone(),
            value: vec![GenericValue::Vi8(3)]
        })
    );
    assert_eq!(
        response(ResponseValue::Empty).empty(),
        Some(Response { logs: logs.clone(), response_aux: aux.clone(), value: () })
    );
}

#[test]
fn a_response_of_another_shape_is_not_taken() {
    assert_eq!(response(ResponseValue::Empty).function(), None);
    assert_eq!(response(ResponseValue::Data(DataToken(1))).function(), None);
    assert_eq!(response(ResponseValue::Function(FunctionToken(1))).data(), None);
    assert_eq!(response(ResponseValue::Values(vec![])).data(), None);
    assert_eq!(response(ResponseValue::Empty).values(), None);
    assert_eq!(response(ResponseValue::Function(FunctionToken(1))).values(), None);
    assert_eq!(response(ResponseValue::Values(vec![])).empty(), None);
    assert_eq!(response(ResponseValue::Data(DataToken(1))).empty(), None);
}
