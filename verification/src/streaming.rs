//! Messages can arrive in pieces.
//!
//! A reader that is handed only the beginning of a message never mistakes it
//! for a whole one and never refuses it: it asks for more, and for no more
//! than the message still has. Once the whole message is there, bytes that
//! follow it change nothing. So a caller that always fetches exactly the
//! number of bytes asked for reads each message to its end and not a byte
//! further.

use vstd::prelude::*;

use crate::endpoint::{ControllerView, SubordinateView};
use crate::envelope::{
    answers, parse_command_body, parse_erroneous_body, parse_hello, parse_log, parse_logs,
    parse_n_logs, parse_reply, parse_request, parse_response_value, parse_result_body,
    request_sendable, response_sendable, wire_erroneous, wire_request, wire_result, Pending,
    RequestView, ResponseView,
};
use crate::err::{Fault, RemoteErrorType};
use crate::protocol::ProtocolConstant;
use crate::serialization::SerializedType;
use crate::session::{
    lemma_erroneous_roundtrip, lemma_request_roundtrip, lemma_result_roundtrip,
};
use crate::wire::{
    all_sendable, parse_bool, parse_bytes, parse_err_type, parse_gtype, parse_i16, parse_i32,
    parse_i64, parse_i8, parse_isize, parse_log_type, parse_n_values, parse_native, parse_payload,
    parse_protocol, parse_string, parse_take, parse_u16, parse_u32, parse_u64, parse_u8,
    parse_usize, parse_value, parse_values, Parse, Value,
};

verus! {

/// `part` is what a reader may make of the first `j` bytes of a stream of
/// which it makes `whole` when it has all of it. Where the whole holds a
/// message of `k` bytes: with `k` bytes or more the reader finds the same
/// message; with fewer it asks for more, and for no more than the message
/// still has.
pub open spec fn piece_of<T>(part: Parse<T>, whole: Parse<T>, j: int) -> bool {
    match whole {
        Ok((v, k)) => if j >= k {
            part == whole
        } else {
            part matches Err(Fault::Incomplete { needed }) && 0 < needed <= k - j
        },
        Err(_) => true,
    }
}

/// The bytes behind the first `k` of the first `j` are the first `j - k` of
/// the bytes behind the first `k`.
pub proof fn lemma_take_skip(s: Seq<u8>, j: int, k: int)
    requires
        0 <= k <= j <= s.len(),
    ensures
        s.take(j).skip(k) == s.skip(k).take(j - k),
{
}

/// A run of `n` bytes that arrives in pieces is read once it is all there.
pub proof fn lemma_take_piece(s: Seq<u8>, n: nat, j: int)
    requires
        0 <= j <= s.len(),
    ensures
        piece_of(parse_take(s.take(j), n), parse_take(s, n), j),
{
    if s.len() >= n && j >= n {
        assert(s.take(j).take(n as int) =~= s.take(n as int));
    }
}

/// A number of `n` bytes that arrives in pieces is read once it is all there.
pub proof fn lemma_native_piece(s: Seq<u8>, n: nat, j: int)
    requires
        0 <= j <= s.len(),
    ensures
        piece_of(parse_native(s.take(j), n), parse_native(s, n), j),
{
    lemma_take_piece(s, n, j);
}

/// So is whatever takes one byte: a byte, a boolean, a tag, a constant.
pub proof fn lemma_u8_piece(s: Seq<u8>, j: int)
    requires
        0 <= j <= s.len(),
    ensures
        piece_of(parse_u8(s.take(j)), parse_u8(s), j),
        piece_of(parse_i8(s.take(j)), parse_i8(s), j),
        piece_of(parse_bool(s.take(j)), parse_bool(s), j),
        piece_of(parse_gtype(s.take(j)), parse_gtype(s), j),
        piece_of(parse_protocol(s.take(j)), parse_protocol(s), j),
        piece_of(parse_err_type(s.take(j)), parse_err_type(s), j),
        piece_of(parse_log_type(s.take(j)), parse_log_type(s), j),
        piece_of(parse_hello(s.take(j)), parse_hello(s), j),
{
}

/// So is a 16-bit integer, signed or not.
pub proof fn lemma_u16_piece(s: Seq<u8>, j: int)
    requires
        0 <= j <= s.len(),
    ensures
        piece_of(parse_u16(s.take(j)), parse_u16(s), j),
        piece_of(parse_i16(s.take(j)), parse_i16(s), j),
{
    lemma_native_piece(s, 2, j);
}

/// So is a 32-bit integer, signed or not.
pub proof fn lemma_u32_piece(s: Seq<u8>, j: int)
    requires
        0 <= j <= s.len(),
    ensures
        piece_of(parse_u32(s.take(j)), parse_u32(s), j),
        piece_of(parse_i32(s.take(j)), parse_i32(s), j),
{
    lemma_native_piece(s, 4, j);
}

/// So is a 64-bit integer, signed or not.
pub proof fn lemma_u64_piece(s: Seq<u8>, j: int)
    requires
        0 <= j <= s.len(),
    ensures
        piece_of(parse_u64(s.take(j)), parse_u64(s), j),
        piece_of(parse_i64(s.take(j)), parse_i64(s), j),
{
    lemma_native_piece(s, 8, j);
}

/// So is a machine word, signed or not.
pub proof fn lemma_usize_piece(s: Seq<u8>, j: int)
    requires
        0 <= j <= s.len(),
    ensures
        piece_of(parse_usize(s.take(j)), parse_usize(s), j),
        piece_of(parse_isize(s.take(j)), parse_isize(s), j),
{
    lemma_native_piece(s, crate::bytes::word_bytes(), j);
}

/// So is a byte string: first its length, then its bytes.
pub proof fn lemma_bytes_piece(s: Seq<u8>, j: int)
    requires
        0 <= j <= s.len(),
    ensures
        piece_of(parse_bytes(s.take(j)), parse_bytes(s), j),
{
    lemma_usize_piece(s, j);
    if let Ok((n, k)) = parse_usize(s) {
        if j >= k {
            lemma_take_skip(s, j, k as int);
            lemma_take_piece(s.skip(k as int), n as nat, j - k);
        }
    }
}

/// So is a text.
pub proof fn lemma_string_piece(s: Seq<u8>, j: int)
    requires
        0 <= j <= s.len(),
    ensures
        piece_of(parse_string(s.take(j)), parse_string(s), j),
{
    lemma_bytes_piece(s, j);
}

/// So is what follows a type tag, whatever the tag.
pub proof fn lemma_payload_piece(t: SerializedType, s: Seq<u8>, j: int)
    requires
        0 <= j <= s.len(),
    ensures
        piece_of(parse_payload(t, s.take(j)), parse_payload(t, s), j),
{
    lemma_u16_piece(s, j);
    lemma_u32_piece(s, j);
    lemma_u64_piece(s, j);
    lemma_bytes_piece(s, j);
}

/// A value that arrives in pieces is read once it is all there.
pub proof fn lemma_value_piece(s: Seq<u8>, j: int)
    requires
        0 <= j <= s.len(),
    ensures
        piece_of(parse_value(s.take(j)), parse_value(s), j),
{
    reveal(parse_value);
    if let Ok((t, k)) = parse_gtype(s) {
        if j >= k {
            lemma_take_skip(s, j, k as int);
            lemma_payload_piece(t, s.skip(k as int), j - k);
        }
    }
}

/// So are `n` values, one after the other.
pub proof fn lemma_n_values_piece(s: Seq<u8>, n: nat, j: int)
    requires
        0 <= j <= s.len(),
    ensures
        piece_of(parse_n_values(s.take(j), n), parse_n_values(s, n), j),
    decreases n,
{
    if n > 0 {
        lemma_value_piece(s, j);
        if let Ok((v, k)) = parse_value(s) {
            if j >= k {
                lemma_take_skip(s, j, k as int);
                lemma_n_values_piece(s.skip(k as int), (n - 1) as nat, j - k);
            }
        }
    }
}

/// A sequence of values that arrives in pieces is read once it is all
/// there.
pub proof fn lemma_values_piece(s: Seq<u8>, j: int)
    requires
        0 <= j <= s.len(),
    ensures
        piece_of(parse_values(s.take(j)), parse_values(s), j),
{
    reveal(parse_values);
    lemma_usize_piece(s, j);
    if let Ok((n, k)) = parse_usize(s) {
        if j >= k {
            lemma_take_skip(s, j, k as int);
            lemma_n_values_piece(s.skip(k as int), n as nat, j - k);
        }
    }
}

/// A token and then a sequence of values: the token is read once it is all
/// there, and then the same holds of the values.
pub proof fn lemma_token_then_values_piece(s: Seq<u8>, j: int)
    requires
        0 <= j <= s.len(),
    ensures
        parse_u64(s) matches Ok((t, k)) ==> (if j >= k {
            parse_u64(s.take(j)) == parse_u64(s) && piece_of(
                parse_values(s.take(j).skip(k as int)),
                parse_values(s.skip(k as int)),
                j - k,
            )
        } else {
            parse_u64(s.take(j)) matches Err(Fault::Incomplete { needed }) && 0 < needed <= k - j
        }),
{
    lemma_u64_piece(s, j);
    if let Ok((t, k)) = parse_u64(s) {
        if j >= k {
            lemma_take_skip(s, j, k as int);
            lemma_values_piece(s.skip(k as int), j - k);
        }
    }
}

/// So are the fields of a command, whatever the constant that opens it.
pub proof fn lemma_command_body_piece(c: ProtocolConstant, s: Seq<u8>, j: int)
    requires
        0 <= j <= s.len(),
    ensures
        piece_of(parse_command_body(c, s.take(j)), parse_command_body(c, s), j),
{
    reveal(parse_command_body);
    match c {
        ProtocolConstant::DefineFunction => {
            lemma_u64_piece(s, j);
            if let Ok((t, k)) = parse_u64(s) {
                if j >= k {
                    lemma_take_skip(s, j, k as int);
                    let s1 = s.skip(k as int);
                    let j1 = j - k;
                    lemma_bytes_piece(s1, j1);
                    if let Ok((b, m)) = parse_bytes(s1) {
                        if j1 >= m {
                            lemma_take_skip(s1, j1, m as int);
                            lemma_values_piece(s1.skip(m as int), j1 - m);
                        }
                    }
                }
            }
        },
        ProtocolConstant::DefineData => {
            lemma_token_then_values_piece(s, j);
        },
        ProtocolConstant::Call => {
            lemma_token_then_values_piece(s, j);
        },
        ProtocolConstant::FreeFunction => {
            lemma_u64_piece(s, j);
        },
        ProtocolConstant::FreeData => {
            lemma_u64_piece(s, j);
        },
        ProtocolConstant::Peek => {
            lemma_string_piece(s, j);
        },
        ProtocolConstant::Poke => {
            lemma_string_piece(s, j);
            if let Ok((key, k)) = parse_string(s) {
                if j >= k {
                    lemma_take_skip(s, j, k as int);
                    lemma_values_piece(s.skip(k as int), j - k);
                }
            }
        },
        _ => {},
    }
}

/// A request that arrives in pieces is read once it is all there.
pub proof fn lemma_request_piece(s: Seq<u8>, j: int)
    requires
        0 <= j <= s.len(),
    ensures
        piece_of(parse_request(s.take(j)), parse_request(s), j),
{
    reveal(parse_request);
    if let Ok((c, k)) = parse_protocol(s) {
        if j >= k {
            lemma_take_skip(s, j, k as int);
            let s1 = s.skip(k as int);
            let j1 = j - k;
            lemma_command_body_piece(c, s1, j1);
            if let Ok((command, m)) = parse_command_body(c, s1) {
                if j1 >= m {
                    lemma_take_skip(s1, j1, m as int);
                    lemma_values_piece(s1.skip(m as int), j1 - m);
                }
            }
        }
    }
}

/// So is a log line.
pub proof fn lemma_log_piece(s: Seq<u8>, j: int)
    requires
        0 <= j <= s.len(),
    ensures
        piece_of(parse_log(s.take(j)), parse_log(s), j),
{
    reveal(parse_log);
    if let Ok((t, k)) = parse_log_type(s) {
        if j >= k {
            lemma_take_skip(s, j, k as int);
            lemma_string_piece(s.skip(k as int), j - k);
        }
    }
}

/// So are `n` log lines, one after the other.
pub proof fn lemma_n_logs_piece(s: Seq<u8>, n: nat, j: int)
    requires
        0 <= j <= s.len(),
    ensures
        piece_of(parse_n_logs(s.take(j), n), parse_n_logs(s, n), j),
    decreases n,
{
    if n > 0 {
        lemma_log_piece(s, j);
        if let Ok((l, k)) = parse_log(s) {
            if j >= k {
                lemma_take_skip(s, j, k as int);
                lemma_n_logs_piece(s.skip(k as int), (n - 1) as nat, j - k);
            }
        }
    }
}

/// So are the log lines of a response.
pub proof fn lemma_logs_piece(s: Seq<u8>, j: int)
    requires
        0 <= j <= s.len(),
    ensures
        piece_of(parse_logs(s.take(j)), parse_logs(s), j),
{
    reveal(parse_logs);
    lemma_usize_piece(s, j);
    if let Ok((n, k)) = parse_usize(s) {
        if j >= k {
            lemma_take_skip(s, j, k as int);
            lemma_n_logs_piece(s.skip(k as int), n as nat, j - k);
        }
    }
}

/// So is the value of a response, in whatever shape it is awaited.
pub proof fn lemma_response_value_piece(pending: Pending, s: Seq<u8>, j: int)
    requires
        0 <= j <= s.len(),
    ensures
        piece_of(parse_response_value(pending, s.take(j)), parse_response_value(pending, s), j),
{
    lemma_values_piece(s, j);
}

/// So is what follows the constant `Result`.
pub proof fn lemma_result_body_piece(pending: Pending, s: Seq<u8>, j: int)
    requires
        0 <= j <= s.len(),
    ensures
        piece_of(parse_result_body(pending, s.take(j)), parse_result_body(pending, s), j),
{
    reveal(parse_result_body);
    lemma_logs_piece(s, j);
    if let Ok((logs, k)) = parse_logs(s) {
        if j >= k {
            lemma_take_skip(s, j, k as int);
            let s1 = s.skip(k as int);
            let j1 = j - k;
            lemma_values_piece(s1, j1);
            if let Ok((aux, m)) = parse_values(s1) {
                if j1 >= m {
                    lemma_take_skip(s1, j1, m as int);
                    lemma_response_value_piece(pending, s1.skip(m as int), j1 - m);
                }
            }
        }
    }
}

/// So is what follows the constant `Erroneous`.
pub proof fn lemma_erroneous_body_piece(s: Seq<u8>, j: int)
    requires
        0 <= j <= s.len(),
    ensures
        piece_of(parse_erroneous_body(s.take(j)), parse_erroneous_body(s), j),
{
    reveal(parse_erroneous_body);
    if let Ok((t, k)) = parse_err_type(s) {
        if j >= k {
            lemma_take_skip(s, j, k as int);
            lemma_values_piece(s.skip(k as int), j - k);
        }
    }
}

/// A response that arrives in pieces is read once it is all there.
pub proof fn lemma_reply_piece(pending: Pending, s: Seq<u8>, j: int)
    requires
        0 <= j <= s.len(),
    ensures
        piece_of(parse_reply(pending, s.take(j)), parse_reply(pending, s), j),
{
    reveal(parse_reply);
    if let Ok((c, k)) = parse_protocol(s) {
        if j >= k {
            lemma_take_skip(s, j, k as int);
            lemma_result_body_piece(pending, s.skip(k as int), j - k);
            lemma_erroneous_body_piece(s.skip(k as int), j - k);
        }
    }
}

/// The beginning of a request is never taken for a request and never
/// refused: the reader asks for more, and for no more than the request
/// still has.
pub proof fn lemma_request_in_pieces(r: RequestView, j: int)
    requires
        request_sendable(r),
        0 <= j < wire_request(r).len(),
    ensures
        parse_request(wire_request(r).take(j)) matches Err(Fault::Incomplete { needed }) && 0
            < needed <= wire_request(r).len() - j,
{
    let s = wire_request(r);
    lemma_request_roundtrip(r, Seq::empty());
    lemma_request_piece(s, j);
}

/// The beginning of a result is never taken for a response and never
/// refused: the reader asks for more, and for no more than the result still
/// has.
pub proof fn lemma_result_in_pieces(pending: Pending, r: ResponseView, j: int)
    requires
        response_sendable(r),
        answers(pending, r.value),
        0 <= j < wire_result(r).len(),
    ensures
        parse_reply(pending, wire_result(r).take(j)) matches Err(Fault::Incomplete { needed }) && 0
            < needed <= wire_result(r).len() - j,
{
    let s = wire_result(r);
    lemma_result_roundtrip(pending, r, Seq::empty());
    lemma_reply_piece(pending, s, j);
}

/// The beginning of an error response is never taken for a response and
/// never refused: the reader asks for more, and for no more than the error
/// still has.
pub proof fn lemma_error_in_pieces(
    pending: Pending,
    err_type: RemoteErrorType,
    aux: Seq<Value>,
    j: int,
)
    requires
        all_sendable(aux),
        0 <= j < wire_erroneous(err_type, aux).len(),
    ensures
        parse_reply(pending, wire_erroneous(err_type, aux).take(j)) matches Err(
            Fault::Incomplete { needed },
        ) && 0 < needed <= wire_erroneous(err_type, aux).len() - j,
{
    let s = wire_erroneous(err_type, aux);
    lemma_erroneous_roundtrip(pending, err_type, aux, Seq::empty());
    lemma_reply_piece(pending, s, j);
}

/// A subordinate that has only the beginning of a request goes on
/// listening and has read nothing; a controller that has only the beginning
/// of a response stays in flight and has read nothing.
pub proof fn lemma_endpoints_wait_for_the_rest(
    s: SubordinateView,
    c: ControllerView,
    r: RequestView,
    pending: Pending,
    answer: ResponseView,
    j: int,
    i: int,
)
    requires
        request_sendable(r),
        0 <= j < wire_request(r).len(),
        s.pipes.unread == wire_request(r).take(j),
        response_sendable(answer),
        answers(pending, answer.value),
        0 <= i < wire_result(answer).len(),
        c.pipes.unread == wire_result(answer).take(i),
    ensures
        s.recv_command() == s,
        c.read_response(pending) == c,
{
    lemma_request_in_pieces(r, j);
    lemma_result_in_pieces(pending, answer, i);
}

} // verus!
