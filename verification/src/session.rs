//! What holds of a whole session: messages are read back as they were
//! written and in the order in which they were written, the handshake leaves
//! both ends ready, tokens are never minted twice, and a shutdown is final.

use vstd::prelude::*;
use vstd::utf8::encode_utf8;

use crate::bytes::{lemma_native_bytes_len, native_bytes, word_bytes};
use crate::endpoint::{
    ControllerOp, ControllerState, ControllerView, SubordinateOp, SubordinateState, SubordinateView,
};
use crate::envelope::{
    answers, command_sendable, log_sendable, logs_sendable, opcode, parse_command_body,
    parse_erroneous_body, parse_hello, parse_log, parse_logs, parse_n_logs, parse_reply,
    parse_request, parse_response_value, parse_result_body, request_sendable, response_sendable,
    wire_command_body, wire_each_log, wire_erroneous, wire_log, wire_logs, wire_request,
    wire_response_value, wire_result, Command, Pending, ReplyView, RequestView, ResponseValueView,
    ResponseView,
};
use crate::err::{Fault, ProtocolError, RemoteErrorType, RemoteFault};
use crate::protocol::{LogLine, LogType, ProtocolConstant};
use crate::roundtrip::{
    lemma_bytes_roundtrip, lemma_string_roundtrip, lemma_u64_roundtrip, lemma_usize_roundtrip,
    lemma_values_roundtrip,
};
use crate::wire::{all_sendable, wire_bytes, wire_string, wire_values, Value};

verus! {

/// Every constant is the constant of its byte.
pub proof fn lemma_protocol_constant_byte(c: ProtocolConstant)
    ensures
        ProtocolConstant::of_byte(c.byte()) == Some(c),
{
}

/// Every kind of remote error is the kind of its byte.
pub proof fn lemma_err_type_byte(t: RemoteErrorType)
    ensures
        RemoteErrorType::of_byte(t.byte()) == Some(t),
{
}

/// Every log type is the log type of its byte.
pub proof fn lemma_log_type_byte(t: LogType)
    ensures
        LogType::of_byte(t.byte()) == Some(t),
{
}

/// The fields of a command are read back as they were written.
pub proof fn lemma_command_body_roundtrip(c: Command, rest: Seq<u8>)
    requires
        command_sendable(c),
    ensures
        parse_command_body(opcode(c), wire_command_body(c) + rest) == Ok::<(Command, nat), Fault>(
            (c, wire_command_body(c).len()),
        ),
{
    reveal(parse_command_body);
    let s = wire_command_body(c) + rest;
    match c {
        Command::Shutdown => {},
        Command::DefineFunction { token, function_blob, associated_data } => {
            let t = native_bytes(token.0 as nat, 8);
            let b = wire_bytes(function_blob);
            let d = wire_values(associated_data);
            lemma_native_bytes_len(token.0 as nat, 8);
            assert(s =~= t + (b + (d + rest)));
            lemma_u64_roundtrip(token.0, b + (d + rest));
            assert(s.skip(8) =~= b + (d + rest));
            lemma_bytes_roundtrip(function_blob, d + rest);
            assert(s.skip(8).skip(b.len() as int) =~= d + rest);
            lemma_values_roundtrip(associated_data, rest);
        },
        Command::DefineData { token, value } => {
            let t = native_bytes(token.0 as nat, 8);
            let d = wire_values(value);
            lemma_native_bytes_len(token.0 as nat, 8);
            assert(s =~= t + (d + rest));
            lemma_u64_roundtrip(token.0, d + rest);
            assert(s.skip(8) =~= d + rest);
            lemma_values_roundtrip(value, rest);
        },
        Command::Call { token, args } => {
            let t = native_bytes(token.0 as nat, 8);
            let d = wire_values(args);
            lemma_native_bytes_len(token.0 as nat, 8);
            assert(s =~= t + (d + rest));
            lemma_u64_roundtrip(token.0, d + rest);
            assert(s.skip(8) =~= d + rest);
            lemma_values_roundtrip(args, rest);
        },
        Command::FreeFunction(token) => {
            lemma_native_bytes_len(token.0 as nat, 8);
            lemma_u64_roundtrip(token.0, rest);
        },
        Command::FreeData(token) => {
            lemma_native_bytes_len(token.0 as nat, 8);
            lemma_u64_roundtrip(token.0, rest);
        },
        Command::Peek(key) => {
            lemma_string_roundtrip(key, rest);
        },
        Command::Poke { key, value } => {
            let k = wire_string(key);
            let d = wire_values(value);
            assert(s =~= k + (d + rest));
            lemma_string_roundtrip(key, d + rest);
            assert(s.skip(k.len() as int) =~= d + rest);
            lemma_values_roundtrip(value, rest);
        },
    }
}

/// A request, followed by whatever else is in the stream, is read back as
/// that request and takes its own bytes and no more.
pub proof fn lemma_request_roundtrip(r: RequestView, rest: Seq<u8>)
    requires
        request_sendable(r),
    ensures
        parse_request(wire_request(r) + rest) == Ok::<(RequestView, nat), Fault>(
            (r, wire_request(r).len()),
        ),
        wire_request(r).len() > 0,
{
    reveal(parse_request);
    let body = wire_command_body(r.command);
    let aux = wire_values(r.aux);
    let s = wire_request(r) + rest;
    assert(s.skip(1) =~= body + (aux + rest));
    lemma_command_body_roundtrip(r.command, aux + rest);
    assert(s.skip(1).skip(body.len() as int) =~= aux + rest);
    lemma_values_roundtrip(r.aux, rest);
}

/// A log line is read back as it was written.
pub proof fn lemma_log_roundtrip(l: LogLine, rest: Seq<u8>)
    requires
        log_sendable(l),
    ensures
        parse_log(wire_log(l) + rest) == Ok::<(LogLine, nat), Fault>((l, wire_log(l).len())),
        wire_log(l).len() > 0,
{
    reveal(parse_log);
    let s = wire_log(l) + rest;
    assert(s.skip(1) =~= wire_string(l.line) + rest);
    lemma_string_roundtrip(l.line, rest);
}

/// The bytes of some log lines begin with the bytes of the first of them.
pub proof fn lemma_wire_each_log_first(ls: Seq<LogLine>)
    requires
        ls.len() > 0,
    ensures
        wire_each_log(ls) == wire_log(ls[0]) + wire_each_log(ls.skip(1)),
    decreases ls.len(),
{
    if ls.len() == 1 {
        assert(ls.drop_last() =~= Seq::<LogLine>::empty());
        assert(ls.skip(1) =~= Seq::<LogLine>::empty());
    } else {
        lemma_wire_each_log_first(ls.drop_last());
        assert(ls.drop_last().skip(1) =~= ls.skip(1).drop_last());
    }
}

/// Log lines written one after the other are read back one after the other.
pub proof fn lemma_n_logs_roundtrip(ls: Seq<LogLine>, rest: Seq<u8>)
    requires
        forall|i: int| 0 <= i < ls.len() ==> log_sendable(#[trigger] ls[i]),
    ensures
        parse_n_logs(wire_each_log(ls) + rest, ls.len()) == Ok::<(Seq<LogLine>, nat), Fault>(
            (ls, wire_each_log(ls).len()),
        ),
    decreases ls.len(),
{
    if ls.len() == 0 {
        assert(ls =~= Seq::<LogLine>::empty());
    } else {
        let l = ls[0];
        let tail = ls.skip(1);
        lemma_wire_each_log_first(ls);
        let s = wire_each_log(ls) + rest;
        assert(s =~= wire_log(l) + (wire_each_log(tail) + rest));
        lemma_log_roundtrip(l, wire_each_log(tail) + rest);
        assert(s.skip(wire_log(l).len() as int) =~= wire_each_log(tail) + rest);
        assert forall|i: int| 0 <= i < tail.len() implies log_sendable(#[trigger] tail[i]) by {
        }
        lemma_n_logs_roundtrip(tail, rest);
        assert(seq![l] + tail =~= ls);
    }
}

/// The log lines of a response are read back as they were written.
pub proof fn lemma_logs_roundtrip(ls: Seq<LogLine>, rest: Seq<u8>)
    requires
        logs_sendable(ls),
    ensures
        parse_logs(wire_logs(ls) + rest) == Ok::<(Seq<LogLine>, nat), Fault>(
            (ls, wire_logs(ls).len()),
        ),
{
    reveal(parse_logs);
    let w = word_bytes();
    let head = native_bytes(ls.len(), w);
    lemma_native_bytes_len(ls.len(), w);
    let s = wire_logs(ls) + rest;
    assert(s =~= head + (wire_each_log(ls) + rest));
    lemma_usize_roundtrip(ls.len() as usize, wire_each_log(ls) + rest);
    assert(s.skip(w as int) =~= wire_each_log(ls) + rest);
    lemma_n_logs_roundtrip(ls, rest);
}

/// The value of a response is read back in the shape that the controller
/// waits for.
pub proof fn lemma_response_value_roundtrip(pending: Pending, v: ResponseValueView, rest: Seq<u8>)
    requires
        answers(pending, v),
        v matches ResponseValueView::Values(vs) ==> all_sendable(vs),
    ensures
        parse_response_value(pending, wire_response_value(v) + rest) == Ok::<
            (ResponseValueView, nat),
            Fault,
        >((v, wire_response_value(v).len())),
{
    match v {
        ResponseValueView::Values(vs) => {
            lemma_values_roundtrip(vs, rest);
        },
        _ => {},
    }
}

/// What follows the constant `Result` is read back as it was written.
pub proof fn lemma_result_body_roundtrip(pending: Pending, r: ResponseView, rest: Seq<u8>)
    requires
        response_sendable(r),
        answers(pending, r.value),
    ensures
        parse_result_body(
            pending,
            wire_logs(r.logs) + wire_values(r.response_aux) + wire_response_value(r.value) + rest,
        ) == Ok::<(ResponseView, nat), Fault>(
            (
                r,
                (wire_logs(r.logs).len() + wire_values(r.response_aux).len() + wire_response_value(
                    r.value,
                ).len()) as nat,
            ),
        ),
{
    reveal(parse_result_body);
    let l = wire_logs(r.logs);
    let a = wire_values(r.response_aux);
    let v = wire_response_value(r.value);
    let body = l + a + v + rest;
    assert(body =~= l + (a + (v + rest)));
    lemma_logs_roundtrip(r.logs, a + (v + rest));
    assert(body.skip(l.len() as int) =~= a + (v + rest));
    lemma_values_roundtrip(r.response_aux, v + rest);
    assert(body.skip(l.len() as int).skip(a.len() as int) =~= v + rest);
    lemma_response_value_roundtrip(pending, r.value, rest);
}

/// A successful response of the shape that the controller waits for is read
/// back as it was written.
pub proof fn lemma_result_roundtrip(pending: Pending, r: ResponseView, rest: Seq<u8>)
    requires
        response_sendable(r),
        answers(pending, r.value),
    ensures
        parse_reply(pending, wire_result(r) + rest) == Ok::<(ReplyView, nat), Fault>(
            (ReplyView::Result(r), wire_result(r).len()),
        ),
        wire_result(r).len() > 0,
{
    reveal(parse_reply);
    let body = wire_logs(r.logs) + wire_values(r.response_aux) + wire_response_value(r.value);
    let s = wire_result(r) + rest;
    assert(s.skip(1) =~= body + rest);
    lemma_result_body_roundtrip(pending, r, rest);
}

/// An error response is read back as it was written, whatever the controller
/// waits for.
pub proof fn lemma_erroneous_roundtrip(
    pending: Pending,
    err_type: RemoteErrorType,
    aux: Seq<Value>,
    rest: Seq<u8>,
)
    requires
        all_sendable(aux),
    ensures
        parse_reply(pending, wire_erroneous(err_type, aux) + rest) == Ok::<(ReplyView, nat), Fault>(
            (
                ReplyView::Erroneous(RemoteFault { logs: Seq::empty(), err_type, aux }),
                wire_erroneous(err_type, aux).len(),
            ),
        ),
        wire_erroneous(err_type, aux).len() > 0,
{
    reveal(parse_reply);
    reveal(parse_erroneous_body);
    let a = wire_values(aux);
    let s = wire_erroneous(err_type, aux) + rest;
    assert(s.skip(1).skip(1) =~= a + rest);
    lemma_values_roundtrip(aux, rest);
}

/// Nothing can be read where nothing has arrived: a subordinate that waits
/// for a request and a controller that waits for a response both go on
/// waiting, for one byte.
pub proof fn lemma_empty_stream_blocks(pending: Pending)
    ensures
        parse_request(Seq::empty()) == Err::<(RequestView, nat), Fault>(
            Fault::Incomplete { needed: 1 },
        ),
        parse_reply(pending, Seq::empty()) == Err::<(ReplyView, nat), Fault>(
            Fault::Incomplete { needed: 1 },
        ),
        parse_hello(Seq::empty()) == Err::<((), nat), Fault>(Fault::Incomplete { needed: 1 }),
{
    reveal(parse_request);
    reveal(parse_reply);
}

/// The subordinate once the bytes that the controller has flushed have been
/// carried over to it.
pub open spec fn carry_down(c: ControllerView, s: SubordinateView) -> SubordinateView {
    s.feed(c.pipes.outbound)
}

/// The controller once the bytes that the subordinate has flushed have been
/// carried over to it, and its own have been picked up.
pub open spec fn carry_up(s: SubordinateView, c: ControllerView) -> ControllerView {
    c.take_outbound().feed(s.pipes.outbound)
}

/// The handshake: the controller says `Hello`, the subordinate reads it and
/// answers `Hello`, the controller reads that. Afterwards the controller is
/// ready and the subordinate listens, and neither has a byte left to read,
/// so that the next read on either side waits.
pub proof fn lemma_handshake()
    ensures
        ({
            let c1 = ControllerView::new().hello();
            let s1 = carry_down(c1, SubordinateView::new()).hello();
            let c2 = carry_up(s1, c1).finish_hello();
            &&& ControllerView::new().state.allows(ControllerOp::Hello)
            &&& SubordinateView::new().state.allows(SubordinateOp::Hello)
            &&& c1.state.allows(ControllerOp::FinishHello)
            &&& c2.state == ControllerState::Ready
            &&& s1.state == SubordinateState::Listening
            &&& c2.pipes.unread == Seq::<u8>::empty()
            &&& s1.pipes.unread == Seq::<u8>::empty()
        }),
{
}

/// Before the controller's `Hello` has arrived the subordinate waits for it,
/// and says nothing.
pub proof fn lemma_handshake_waits(s: SubordinateView)
    requires
        s.pipes.unread.len() == 0,
    ensures
        s.hello().state == SubordinateState::AwaitingHello,
        s.hello().pipes == s.pipes,
{
}

/// One request travels: what the controller issues is what the subordinate
/// receives, the subordinate is left with nothing to read, and it is to
/// answer, unless the request was the shutdown.
pub proof fn lemma_request_delivered(
    c: ControllerView,
    s: SubordinateView,
    r: RequestView,
    pending: Pending,
)
    requires
        request_sendable(r),
        c.pipes.outbound.len() == 0,
        c.pipes.staged.len() == 0,
        s.pipes.unread.len() == 0,
    ensures
        ({
            let s1 = carry_down(c.issue(r, pending), s);
            &&& parse_request(s1.pipes.unread) == Ok::<(RequestView, nat), Fault>(
                (r, wire_request(r).len()),
            )
            &&& s1.recv_command().pipes.unread == Seq::<u8>::empty()
            &&& s1.recv_command().state == if r.command is Shutdown {
                SubordinateState::Shutdown
            } else {
                SubordinateState::Handling
            }
        }),
{
    lemma_request_roundtrip(r, Seq::empty());
}

/// One result travels back: the response that the subordinate writes is the
/// response that the controller reads, and the controller is ready again
/// with nothing left to read.
pub proof fn lemma_result_delivered(
    s: SubordinateView,
    c: ControllerView,
    pending: Pending,
    r: ResponseView,
)
    requires
        response_sendable(r),
        answers(pending, r.value),
        s.pipes.outbound.len() == 0,
        s.pipes.staged.len() == 0,
        c.pipes.unread.len() == 0,
    ensures
        ({
            let c1 = carry_up(s.respond(wire_result(r)), c);
            &&& parse_reply(pending, c1.pipes.unread) == Ok::<(ReplyView, nat), Fault>(
                (ReplyView::Result(r), wire_result(r).len()),
            )
            &&& c1.read_response(pending).state == ControllerState::Ready
            &&& c1.read_response(pending).pipes.unread == Seq::<u8>::empty()
        }),
{
    lemma_result_roundtrip(pending, r, Seq::empty());
}

/// One error travels back: the controller reads the kind of error and the
/// auxiliary values that the subordinate wrote, and is ready again: an
/// error that the subordinate reports does not end the session.
pub proof fn lemma_error_delivered(
    s: SubordinateView,
    c: ControllerView,
    pending: Pending,
    err_type: RemoteErrorType,
    aux: Seq<Value>,
)
    requires
        all_sendable(aux),
        s.pipes.outbound.len() == 0,
        s.pipes.staged.len() == 0,
        c.pipes.unread.len() == 0,
    ensures
        ({
            let c1 = carry_up(s.respond(wire_erroneous(err_type, aux)), c);
            &&& parse_reply(pending, c1.pipes.unread) == Ok::<(ReplyView, nat), Fault>(
                (
                    ReplyView::Erroneous(RemoteFault { logs: Seq::empty(), err_type, aux }),
                    wire_erroneous(err_type, aux).len(),
                ),
            )
            &&& c1.read_response(pending).state == ControllerState::Ready
            &&& c1.read_response(pending).pipes.unread == Seq::<u8>::empty()
        }),
{
    lemma_erroneous_roundtrip(pending, err_type, aux, Seq::empty());
}

/// The bytes of some requests, in the order in which they were issued.
pub open spec fn wire_requests(rs: Seq<RequestView>) -> Seq<u8>
    decreases rs.len(),
{
    if rs.len() == 0 {
        Seq::empty()
    } else {
        wire_request(rs[0]) + wire_requests(rs.skip(1))
    }
}

/// Requests are received in the order in which they were issued: with the
/// first `i` of them read, the next read yields request `i`, takes exactly
/// its bytes, and leaves the later ones as they are.
pub proof fn lemma_requests_in_order(rs: Seq<RequestView>, i: int, rest: Seq<u8>)
    requires
        0 <= i < rs.len(),
        forall|j: int| 0 <= j < rs.len() ==> request_sendable(#[trigger] rs[j]),
    ensures
        parse_request(wire_requests(rs.skip(i)) + rest) == Ok::<(RequestView, nat), Fault>(
            (rs[i], wire_request(rs[i]).len()),
        ),
        (wire_requests(rs.skip(i)) + rest).skip(wire_request(rs[i]).len() as int) == wire_requests(
            rs.skip(i + 1),
        ) + rest,
{
    let here = rs.skip(i);
    let later = wire_requests(rs.skip(i + 1));
    assert(here.skip(1) =~= rs.skip(i + 1));
    let s = wire_requests(here) + rest;
    assert(s =~= wire_request(rs[i]) + (later + rest));
    lemma_request_roundtrip(rs[i], later + rest);
}

/// A response and the shape in which the controller waits for it.
pub struct Awaited {
    pub pending: Pending,
    pub response: ResponseView,
}

/// The bytes of some results, in the order in which they were written.
pub open spec fn wire_results(rs: Seq<Awaited>) -> Seq<u8>
    decreases rs.len(),
{
    if rs.len() == 0 {
        Seq::empty()
    } else {
        wire_result(rs[0].response) + wire_results(rs.skip(1))
    }
}

/// Responses are observed in the order in which they were written: with the
/// first `i` of them read, the next read yields response `i`, takes exactly
/// its bytes, and leaves the later ones as they are.
pub proof fn lemma_responses_in_order(rs: Seq<Awaited>, i: int, rest: Seq<u8>)
    requires
        0 <= i < rs.len(),
        forall|j: int|
            0 <= j < rs.len() ==> response_sendable((#[trigger] rs[j]).response) && answers(
                rs[j].pending,
                rs[j].response.value,
            ),
    ensures
        parse_reply(rs[i].pending, wire_results(rs.skip(i)) + rest) == Ok::<
            (ReplyView, nat),
            Fault,
        >((ReplyView::Result(rs[i].response), wire_result(rs[i].response).len())),
        (wire_results(rs.skip(i)) + rest).skip(wire_result(rs[i].response).len() as int)
            == wire_results(rs.skip(i + 1)) + rest,
{
    let here = rs.skip(i);
    let later = wire_results(rs.skip(i + 1));
    assert(here.skip(1) =~= rs.skip(i + 1));
    let s = wire_results(here) + rest;
    assert(s =~= wire_result(rs[i].response) + (later + rest));
    lemma_result_roundtrip(rs[i].pending, rs[i].response, later + rest);
}

/// The states of a controller over time, one after each operation, are a
/// history: from one to the next the counter stays, or a token is minted
/// and the counter goes up by one without wrapping.
pub open spec fn is_history(h: Seq<ControllerView>) -> bool {
    forall|i: int|
        0 <= i < h.len() - 1 ==> (#[trigger] h[i + 1]).id_ctr == h[i].id_ctr || (h[i].id_ctr
            < u64::MAX && h[i + 1].id_ctr == h[i].mint().id_ctr)
}

/// Step `i` of a history minted a token: the one that the counter shows
/// after it.
pub open spec fn mints(h: Seq<ControllerView>, i: int) -> bool {
    0 <= i < h.len() - 1 && h[i + 1].id_ctr == h[i].id_ctr + 1
}

/// The counter never goes down.
pub proof fn lemma_counter_monotone(h: Seq<ControllerView>, i: int, j: int)
    requires
        is_history(h),
        0 <= i <= j < h.len(),
    ensures
        h[i].id_ctr <= h[j].id_ctr,
    decreases j - i,
{
    if i < j {
        lemma_counter_monotone(h, i, j - 1);
        assert(h[j - 1 + 1].id_ctr >= h[j - 1].id_ctr);
    }
}

/// No token is minted twice: whatever else the controller does in between,
/// two tokens minted at different steps differ, be they tokens of functions
/// or of data.
pub proof fn lemma_tokens_unique(h: Seq<ControllerView>, i: int, j: int)
    requires
        is_history(h),
        mints(h, i),
        mints(h, j),
        i != j,
    ensures
        h[i + 1].id_ctr != h[j + 1].id_ctr,
{
    if i < j {
        lemma_counter_monotone(h, i + 1, j);
    } else {
        lemma_counter_monotone(h, j + 1, i);
    }
}

/// The first token that a controller mints is 1.
pub proof fn lemma_first_token()
    ensures
        ControllerView::new().mint().id_ctr == 1,
{
}

/// Minting is what defining does, and nothing else touches the counter.
pub proof fn lemma_only_defining_mints(
    c: ControllerView,
    r: RequestView,
    pending: Pending,
    data: Seq<u8>,
    aux: Seq<Value>,
)
    ensures
        c.issue(r, pending).id_ctr == c.id_ctr,
        c.read_response(pending).id_ctr == c.id_ctr,
        c.hello().id_ctr == c.id_ctr,
        c.finish_hello().id_ctr == c.id_ctr,
        c.shutdown(aux).id_ctr == c.id_ctr,
        c.child_exited().id_ctr == c.id_ctr,
        c.feed(data).id_ctr == c.id_ctr,
        c.take_outbound().id_ctr == c.id_ctr,
        c.fail().id_ctr == c.id_ctr,
{
}

/// A shutdown is final. Once `Goodbye` is sent the controller can only take
/// note that the subordinate has exited, and after that nothing is valid.
pub proof fn lemma_shutdown_is_final(c: ControllerView, aux: Seq<Value>, op: ControllerOp)
    ensures
        c.shutdown(aux).state.allows(op) <==> op == ControllerOp::ChildExited,
        !c.shutdown(aux).child_exited().state.allows(op),
{
}

/// A shutdown reaches the subordinate as `Shutdown` and ends its session:
/// nothing is valid for it afterwards.
pub proof fn lemma_shutdown_delivered(
    c: ControllerView,
    s: SubordinateView,
    aux: Seq<Value>,
    op: SubordinateOp,
)
    requires
        all_sendable(aux),
        c.pipes.outbound.len() == 0,
        c.pipes.staged.len() == 0,
        s.pipes.unread.len() == 0,
    ensures
        ({
            let s1 = carry_down(c.shutdown(aux), s);
            &&& parse_request(s1.pipes.unread) matches Ok((r, _)) && r.command is Shutdown && r.aux
                == aux
            &&& s1.recv_command().state == SubordinateState::Shutdown
            &&& !s1.recv_command().state.allows(op)
        }),
{
    lemma_request_roundtrip(crate::envelope::shutdown_request(aux), Seq::empty());
}

/// The constants that open a request.
pub open spec fn opens_request(c: ProtocolConstant) -> bool {
    c == ProtocolConstant::DefineFunction || c == ProtocolConstant::DefineData || c
        == ProtocolConstant::Call || c == ProtocolConstant::FreeFunction || c
        == ProtocolConstant::FreeData || c == ProtocolConstant::Peek || c
        == ProtocolConstant::Poke || c == ProtocolConstant::Goodbye
}

/// A constant that opens no request is refused as soon as it is read: the
/// subordinate does not wait for more and does not take it for anything
/// else, whatever follows.
pub proof fn lemma_inappropriate_constant_refused(s: Seq<u8>, c: ProtocolConstant)
    requires
        s.len() > 0,
        ProtocolConstant::of_byte(s[0]) == Some(c),
        !opens_request(c),
    ensures
        parse_request(s) == Err::<(RequestView, nat), Fault>(
            Fault::Protocol(ProtocolError::InappropriateProtocolConstant(c)),
        ),
{
    reveal(parse_request);
    reveal(parse_command_body);
}

/// A byte that stands for no constant is refused as soon as it is read,
/// whatever follows.
pub proof fn lemma_unknown_constant_refused(s: Seq<u8>)
    requires
        s.len() > 0,
        ProtocolConstant::of_byte(s[0]) is None,
    ensures
        parse_request(s) == Err::<(RequestView, nat), Fault>(
            Fault::Protocol(ProtocolError::UnknownProtocolConstant(s[0])),
        ),
{
    reveal(parse_request);
}

/// Either refusal loses the subordinate's session: it neither hangs nor
/// goes on.
pub proof fn lemma_refusal_fails_subordinate(s: SubordinateView)
    requires
        s.pipes.unread.len() > 0,
        match ProtocolConstant::of_byte(s.pipes.unread[0]) {
            Some(c) => !opens_request(c),
            None => true,
        },
    ensures
        s.recv_command().state == SubordinateState::Failed,
{
    match ProtocolConstant::of_byte(s.pipes.unread[0]) {
        Some(c) => {
            lemma_inappropriate_constant_refused(s.pipes.unread, c);
        },
        None => {
            lemma_unknown_constant_refused(s.pipes.unread);
        },
    }
}

} // verus!
