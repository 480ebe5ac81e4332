//! The messages of the protocol, stated over sequences of bytes: which bytes
//! stand for a request or a response, and what a reader makes of the bytes
//! in front of it.

use vstd::prelude::*;

use crate::bytes::{native_bytes, word_bytes};
use crate::err::{Fault, ProtocolError, RemoteErrorType, RemoteFault};
use crate::protocol::{DataToken, FunctionToken, LogLine, ProtocolConstant};
use crate::wire::{
    after, all_sendable, join, lemma_parse_values_used, parse_bytes, parse_err_type, parse_log_type,
    parse_protocol, parse_string, parse_u64, parse_usize, parse_values, text_sendable, wire_bytes,
    wire_string, wire_values, Parse, Value,
};

verus! {

/// What the controller asks of the subordinate, as a mathematical value.
#[allow(inconsistent_fields)]
pub enum Command {
    Shutdown,
    DefineFunction { token: FunctionToken, function_blob: Seq<u8>, associated_data: Seq<Value> },
    DefineData { token: DataToken, value: Seq<Value> },
    Call { token: FunctionToken, args: Seq<Value> },
    FreeFunction(FunctionToken),
    FreeData(DataToken),
    Peek(Seq<char>),
    Poke { key: Seq<char>, value: Seq<Value> },
}

/// A request as a mathematical value: the command and the auxiliary values
/// that come with every request.
pub struct RequestView {
    pub command: Command,
    pub aux: Seq<Value>,
}

/// What a successful response carries besides logs and auxiliary values.
pub enum ResponseValueView {
    Empty,
    Function(FunctionToken),
    Data(DataToken),
    Values(Seq<Value>),
}

/// A successful response as a mathematical value.
pub struct ResponseView {
    pub logs: Seq<LogLine>,
    pub response_aux: Seq<Value>,
    pub value: ResponseValueView,
}

/// What the subordinate answered: a result or an error.
pub enum ReplyView {
    Result(ResponseView),
    Erroneous(RemoteFault),
}

/// What the controller waits for after a request: the shape of the value in
/// the response. A token is not sent back; the controller knows it.
#[derive(Debug, Copy, Clone, PartialEq, Eq, Structural)]
pub enum Pending {
    /// The response carries no value.
    Empty,
    /// The response confirms the function that was defined under this token.
    Function(FunctionToken),
    /// The response confirms the data that was defined under this token.
    Data(DataToken),
    /// The response carries a sequence of values.
    Values,
}

/// The constant that opens the request for a command.
pub open spec fn opcode(c: Command) -> ProtocolConstant {
    match c {
        Command::Shutdown => ProtocolConstant::Goodbye,
        Command::DefineFunction { .. } => ProtocolConstant::DefineFunction,
        Command::DefineData { .. } => ProtocolConstant::DefineData,
        Command::Call { .. } => ProtocolConstant::Call,
        Command::FreeFunction(_) => ProtocolConstant::FreeFunction,
        Command::FreeData(_) => ProtocolConstant::FreeData,
        Command::Peek(_) => ProtocolConstant::Peek,
        Command::Poke { .. } => ProtocolConstant::Poke,
    }
}

/// The fields of a command, in the order in which they are sent.
pub open spec fn wire_command_body(c: Command) -> Seq<u8> {
    match c {
        Command::Shutdown => Seq::empty(),
        Command::DefineFunction { token, function_blob, associated_data } => native_bytes(
            token.0 as nat,
            8,
        ) + wire_bytes(function_blob) + wire_values(associated_data),
        Command::DefineData { token, value } => native_bytes(token.0 as nat, 8) + wire_values(
            value,
        ),
        Command::Call { token, args } => native_bytes(token.0 as nat, 8) + wire_values(args),
        Command::FreeFunction(token) => native_bytes(token.0 as nat, 8),
        Command::FreeData(token) => native_bytes(token.0 as nat, 8),
        Command::Peek(key) => wire_string(key),
        Command::Poke { key, value } => wire_string(key) + wire_values(value),
    }
}

/// The bytes of a request: the opening constant, the fields of the command,
/// the auxiliary values.
pub open spec fn wire_request(r: RequestView) -> Seq<u8> {
    seq![opcode(r.command).byte()] + wire_command_body(r.command) + wire_values(r.aux)
}

/// The fields that follow the opening constant `c`. A constant that opens no
/// request is refused at once, whatever follows it.
#[verifier::opaque]
pub open spec fn parse_command_body(c: ProtocolConstant, s: Seq<u8>) -> Parse<Command> {
    match c {
        ProtocolConstant::DefineFunction => match parse_u64(s) {
            Ok((token, k)) => after(
                k,
                match parse_bytes(s.skip(k as int)) {
                    Ok((function_blob, m)) => after(
                        m,
                        match parse_values(s.skip(k as int).skip(m as int)) {
                            Ok((associated_data, n)) => Ok(
                                (
                                    Command::DefineFunction {
                                        token: FunctionToken(token),
                                        function_blob,
                                        associated_data,
                                    },
                                    n,
                                ),
                            ),
                            Err(e) => Err(e),
                        },
                    ),
                    Err(e) => Err(e),
                },
            ),
            Err(e) => Err(e),
        },
        ProtocolConstant::DefineData => match parse_u64(s) {
            Ok((token, k)) => after(
                k,
                match parse_values(s.skip(k as int)) {
                    Ok((value, n)) => Ok((Command::DefineData { token: DataToken(token), value }, n)),
                    Err(e) => Err(e),
                },
            ),
            Err(e) => Err(e),
        },
        ProtocolConstant::Call => match parse_u64(s) {
            Ok((token, k)) => after(
                k,
                match parse_values(s.skip(k as int)) {
                    Ok((args, n)) => Ok((Command::Call { token: FunctionToken(token), args }, n)),
                    Err(e) => Err(e),
                },
            ),
            Err(e) => Err(e),
        },
        ProtocolConstant::FreeFunction => match parse_u64(s) {
            Ok((token, k)) => Ok((Command::FreeFunction(FunctionToken(token)), k)),
            Err(e) => Err(e),
        },
        ProtocolConstant::FreeData => match parse_u64(s) {
            Ok((token, k)) => Ok((Command::FreeData(DataToken(token)), k)),
            Err(e) => Err(e),
        },
        ProtocolConstant::Peek => match parse_string(s) {
            Ok((key, k)) => Ok((Command::Peek(key), k)),
            Err(e) => Err(e),
        },
        ProtocolConstant::Poke => match parse_string(s) {
            Ok((key, k)) => after(
                k,
                match parse_values(s.skip(k as int)) {
                    Ok((value, n)) => Ok((Command::Poke { key, value }, n)),
                    Err(e) => Err(e),
                },
            ),
            Err(e) => Err(e),
        },
        ProtocolConstant::Goodbye => Ok((Command::Shutdown, 0)),
        _ => Err(Fault::Protocol(ProtocolError::InappropriateProtocolConstant(c))),
    }
}

/// One request: the opening constant, the fields of the command, the
/// auxiliary values.
#[verifier::opaque]
pub open spec fn parse_request(s: Seq<u8>) -> Parse<RequestView> {
    match parse_protocol(s) {
        Ok((c, k)) => after(
            k,
            match parse_command_body(c, s.skip(k as int)) {
                Ok((command, m)) => after(
                    m,
                    match parse_values(s.skip(k as int).skip(m as int)) {
                        Ok((aux, n)) => Ok((RequestView { command, aux }, n)),
                        Err(e) => Err(e),
                    },
                ),
                Err(e) => Err(e),
            },
        ),
        Err(e) => Err(e),
    }
}

/// The reply to `Hello`: the constant `Hello` and no other.
pub open spec fn parse_hello(s: Seq<u8>) -> Parse<()> {
    match parse_protocol(s) {
        Ok((c, k)) => if c == ProtocolConstant::Hello {
            Ok(((), k))
        } else {
            Err(
                Fault::Protocol(
                    ProtocolError::UnexpectedProtocolConstant {
                        got: c,
                        expected: ProtocolConstant::Hello,
                    },
                ),
            )
        },
        Err(e) => Err(e),
    }
}

/// The request that defines a function.
pub open spec fn define_function_request(
    token: FunctionToken,
    function_blob: Seq<u8>,
    associated_data: Seq<Value>,
    aux: Seq<Value>,
) -> RequestView {
    RequestView { command: Command::DefineFunction { token, function_blob, associated_data }, aux }
}

/// The request that defines data.
pub open spec fn define_data_request(token: DataToken, value: Seq<Value>, aux: Seq<Value>)
    -> RequestView {
    RequestView { command: Command::DefineData { token, value }, aux }
}

/// The request that calls a function.
pub open spec fn call_request(token: FunctionToken, args: Seq<Value>, aux: Seq<Value>)
    -> RequestView {
    RequestView { command: Command::Call { token, args }, aux }
}

/// The request that frees a function.
pub open spec fn free_function_request(token: FunctionToken, aux: Seq<Value>) -> RequestView {
    RequestView { command: Command::FreeFunction(token), aux }
}

/// The request that frees data.
pub open spec fn free_data_request(token: DataToken, aux: Seq<Value>) -> RequestView {
    RequestView { command: Command::FreeData(token), aux }
}

/// The request that reads the value under a key.
pub open spec fn peek_request(key: Seq<char>, aux: Seq<Value>) -> RequestView {
    RequestView { command: Command::Peek(key), aux }
}

/// The request that sets the value under a key.
pub open spec fn poke_request(key: Seq<char>, value: Seq<Value>, aux: Seq<Value>) -> RequestView {
    RequestView { command: Command::Poke { key, value }, aux }
}

/// The request that ends the session.
pub open spec fn shutdown_request(aux: Seq<Value>) -> RequestView {
    RequestView { command: Command::Shutdown, aux }
}

/// The successful response that the subordinate writes: no log lines, the
/// auxiliary values, and the values where the request asks for some.
pub open spec fn plain_result(aux: Seq<Value>, value: ResponseValueView) -> ResponseView {
    ResponseView { logs: Seq::empty(), response_aux: aux, value }
}

/// The bytes of a log line: the stream it came from, then its text.
pub open spec fn wire_log(l: LogLine) -> Seq<u8> {
    seq![l.log_type.byte()] + wire_string(l.line)
}

/// The bytes of some log lines, one after the other.
pub open spec fn wire_each_log(ls: Seq<LogLine>) -> Seq<u8>
    decreases ls.len(),
{
    if ls.len() == 0 {
        Seq::empty()
    } else {
        wire_each_log(ls.drop_last()) + wire_log(ls.last())
    }
}

/// The bytes of the log lines of a response: their number as a machine word,
/// then the lines.
pub open spec fn wire_logs(ls: Seq<LogLine>) -> Seq<u8> {
    native_bytes(ls.len(), word_bytes()) + wire_each_log(ls)
}

/// One log line: the stream it came from, then its text.
#[verifier::opaque]
pub open spec fn parse_log(s: Seq<u8>) -> Parse<LogLine> {
    match parse_log_type(s) {
        Ok((log_type, k)) => after(
            k,
            match parse_string(s.skip(k as int)) {
                Ok((line, n)) => Ok((LogLine { log_type, line }, n)),
                Err(e) => Err(e),
            },
        ),
        Err(e) => Err(e),
    }
}

/// `n` log lines, one after the other.
pub open spec fn parse_n_logs(s: Seq<u8>, n: nat) -> Parse<Seq<LogLine>>
    decreases n,
{
    if n == 0 {
        Ok((Seq::empty(), 0))
    } else {
        match parse_log(s) {
            Ok((l, k)) => join(seq![l], k, parse_n_logs(s.skip(k as int), (n - 1) as nat)),
            Err(e) => Err(e),
        }
    }
}

/// The log lines of a response: their number as a machine word, then the
/// lines.
#[verifier::opaque]
pub open spec fn parse_logs(s: Seq<u8>) -> Parse<Seq<LogLine>> {
    match parse_usize(s) {
        Ok((n, k)) => after(k, parse_n_logs(s.skip(k as int), n as nat)),
        Err(e) => Err(e),
    }
}

/// The bytes in which a response carries its value: the values where it
/// carries some, nothing otherwise.
pub open spec fn wire_response_value(v: ResponseValueView) -> Seq<u8> {
    match v {
        ResponseValueView::Values(vs) => wire_values(vs),
        _ => Seq::empty(),
    }
}

/// The bytes of a successful response: the constant `Result`, the log lines,
/// the auxiliary values, the value.
pub open spec fn wire_result(r: ResponseView) -> Seq<u8> {
    seq![ProtocolConstant::Result.byte()] + wire_logs(r.logs) + wire_values(r.response_aux)
        + wire_response_value(r.value)
}

/// The bytes of an error response: the constant `Erroneous`, the kind of
/// error, the auxiliary values. No log lines travel with an error.
pub open spec fn wire_erroneous(err_type: RemoteErrorType, aux: Seq<Value>) -> Seq<u8> {
    seq![ProtocolConstant::Erroneous.byte()] + seq![err_type.byte()] + wire_values(aux)
}

/// The value of a response, in the shape that the controller waits for.
pub open spec fn parse_response_value(pending: Pending, s: Seq<u8>) -> Parse<ResponseValueView> {
    match pending {
        Pending::Empty => Ok((ResponseValueView::Empty, 0)),
        Pending::Function(token) => Ok((ResponseValueView::Function(token), 0)),
        Pending::Data(token) => Ok((ResponseValueView::Data(token), 0)),
        Pending::Values => match parse_values(s) {
            Ok((vs, n)) => Ok((ResponseValueView::Values(vs), n)),
            Err(e) => Err(e),
        },
    }
}

/// What follows the constant `Result`: log lines, auxiliary values, value.
#[verifier::opaque]
pub open spec fn parse_result_body(pending: Pending, s: Seq<u8>) -> Parse<ResponseView> {
    match parse_logs(s) {
        Ok((logs, k)) => after(
            k,
            match parse_values(s.skip(k as int)) {
                Ok((response_aux, m)) => after(
                    m,
                    match parse_response_value(pending, s.skip(k as int).skip(m as int)) {
                        Ok((value, n)) => Ok((ResponseView { logs, response_aux, value }, n)),
                        Err(e) => Err(e),
                    },
                ),
                Err(e) => Err(e),
            },
        ),
        Err(e) => Err(e),
    }
}

/// What follows the constant `Erroneous`: the kind of error and the
/// auxiliary values.
#[verifier::opaque]
pub open spec fn parse_erroneous_body(s: Seq<u8>) -> Parse<RemoteFault> {
    match parse_err_type(s) {
        Ok((err_type, k)) => after(
            k,
            match parse_values(s.skip(k as int)) {
                Ok((aux, n)) => Ok((RemoteFault { logs: Seq::empty(), err_type, aux }, n)),
                Err(e) => Err(e),
            },
        ),
        Err(e) => Err(e),
    }
}

/// One response: `Result` and a result, or `Erroneous` and an error. Any
/// other constant is refused at once.
#[verifier::opaque]
pub open spec fn parse_reply(pending: Pending, s: Seq<u8>) -> Parse<ReplyView> {
    match parse_protocol(s) {
        Ok((c, k)) => match c {
            ProtocolConstant::Result => after(
                k,
                match parse_result_body(pending, s.skip(k as int)) {
                    Ok((r, n)) => Ok((ReplyView::Result(r), n)),
                    Err(e) => Err(e),
                },
            ),
            ProtocolConstant::Erroneous => after(
                k,
                match parse_erroneous_body(s.skip(k as int)) {
                    Ok((r, n)) => Ok((ReplyView::Erroneous(r), n)),
                    Err(e) => Err(e),
                },
            ),
            _ => Err(
                Fault::Protocol(
                    ProtocolError::UnexpectedProtocolConstant {
                        got: c,
                        expected: ProtocolConstant::Result,
                    },
                ),
            ),
        },
        Err(e) => Err(e),
    }
}

/// A command can be sent: so can each of its fields.
pub open spec fn command_sendable(c: Command) -> bool {
    match c {
        Command::Shutdown => true,
        Command::DefineFunction { token, function_blob, associated_data } => function_blob.len()
            <= usize::MAX && all_sendable(associated_data),
        Command::DefineData { token, value } => all_sendable(value),
        Command::Call { token, args } => all_sendable(args),
        Command::FreeFunction(_) => true,
        Command::FreeData(_) => true,
        Command::Peek(key) => text_sendable(key),
        Command::Poke { key, value } => text_sendable(key) && all_sendable(value),
    }
}

/// A request can be sent: so can its command and its auxiliary values.
/// Every request that a program holds in memory can.
pub open spec fn request_sendable(r: RequestView) -> bool {
    command_sendable(r.command) && all_sendable(r.aux)
}

/// A log line can be sent: so can its text.
pub open spec fn log_sendable(l: LogLine) -> bool {
    text_sendable(l.line)
}

/// Some log lines can be sent: a machine word can hold their number, and
/// each of them can be sent.
pub open spec fn logs_sendable(ls: Seq<LogLine>) -> bool {
    &&& ls.len() <= usize::MAX
    &&& forall|i: int| 0 <= i < ls.len() ==> log_sendable(#[trigger] ls[i])
}

/// The value of a response has the shape that the controller waits for.
pub open spec fn answers(pending: Pending, v: ResponseValueView) -> bool {
    match pending {
        Pending::Empty => v == ResponseValueView::Empty,
        Pending::Function(token) => v == ResponseValueView::Function(token),
        Pending::Data(token) => v == ResponseValueView::Data(token),
        Pending::Values => v is Values,
    }
}

/// A response can be sent: so can its log lines, its auxiliary values and
/// the values that it carries.
pub open spec fn response_sendable(r: ResponseView) -> bool {
    &&& logs_sendable(r.logs)
    &&& all_sendable(r.response_aux)
    &&& r.value matches ResponseValueView::Values(vs) ==> all_sendable(vs)
}

/// Reading `n` log lines is reading one and then the others.
pub proof fn lemma_parse_n_logs_step(s: Seq<u8>, n: nat, done: Seq<LogLine>, j: nat)
    requires
        n > 0,
    ensures
        match parse_log(s) {
            Ok((l, k)) => join(done, j, parse_n_logs(s, n)) == join(
                done.push(l),
                j + k,
                parse_n_logs(s.skip(k as int), (n - 1) as nat),
            ),
            Err(e) => join(done, j, parse_n_logs(s, n)) == Err::<(Seq<LogLine>, nat), Fault>(e),
        },
{
    match parse_log(s) {
        Ok((l, k)) => {
            match parse_n_logs(s.skip(k as int), (n - 1) as nat) {
                Ok((ws, m)) => {
                    assert(done + (seq![l] + ws) =~= done.push(l) + ws);
                },
                Err(e) => {},
            }
        },
        Err(e) => {},
    }
}

/// A log line that was read took at least one byte and no more than were
/// there.
pub proof fn lemma_parse_log_used(s: Seq<u8>)
    ensures
        parse_log(s) matches Ok((l, k)) ==> 0 < k <= s.len(),
{
    reveal(parse_log);
}

/// Log lines that were read took no more bytes than were there.
pub proof fn lemma_parse_n_logs_used(s: Seq<u8>, n: nat)
    ensures
        parse_n_logs(s, n) matches Ok((ls, k)) ==> k <= s.len(),
    decreases n,
{
    if n > 0 {
        lemma_parse_log_used(s);
        if let Ok((l, k)) = parse_log(s) {
            lemma_parse_n_logs_used(s.skip(k as int), (n - 1) as nat);
        }
    }
}

/// The log lines of a response took no more bytes than were there.
pub proof fn lemma_parse_logs_used(s: Seq<u8>)
    ensures
        parse_logs(s) matches Ok((ls, k)) ==> 0 < k <= s.len(),
{
    reveal(parse_logs);
    if let Ok((n, k)) = parse_usize(s) {
        lemma_parse_n_logs_used(s.skip(k as int), n as nat);
    }
}

/// The fields of a command took no more bytes than were there.
pub proof fn lemma_parse_command_body_used(c: ProtocolConstant, s: Seq<u8>)
    ensures
        parse_command_body(c, s) matches Ok((command, k)) ==> k <= s.len(),
{
    reveal(parse_command_body);
    match c {
        ProtocolConstant::DefineFunction => {
            if let Ok((token, k)) = parse_u64(s) {
                if let Ok((blob, m)) = parse_bytes(s.skip(k as int)) {
                    lemma_parse_values_used(s.skip(k as int).skip(m as int));
                }
            }
        },
        ProtocolConstant::DefineData => {
            if let Ok((token, k)) = parse_u64(s) {
                lemma_parse_values_used(s.skip(k as int));
            }
        },
        ProtocolConstant::Call => {
            if let Ok((token, k)) = parse_u64(s) {
                lemma_parse_values_used(s.skip(k as int));
            }
        },
        ProtocolConstant::Poke => {
            if let Ok((key, k)) = parse_string(s) {
                lemma_parse_values_used(s.skip(k as int));
            }
        },
        _ => {},
    }
}

/// A request that was read took at least its opening constant and no more
/// bytes than were there.
pub proof fn lemma_parse_request_used(s: Seq<u8>)
    ensures
        parse_request(s) matches Ok((r, k)) ==> 0 < k <= s.len(),
{
    reveal(parse_request);
    if let Ok((c, k)) = parse_protocol(s) {
        lemma_parse_command_body_used(c, s.skip(k as int));
        if let Ok((command, m)) = parse_command_body(c, s.skip(k as int)) {
            lemma_parse_values_used(s.skip(k as int).skip(m as int));
        }
    }
}

/// The body of a result took no more bytes than were there.
pub proof fn lemma_parse_result_body_used(pending: Pending, s: Seq<u8>)
    ensures
        parse_result_body(pending, s) matches Ok((r, k)) ==> k <= s.len(),
{
    reveal(parse_result_body);
    lemma_parse_logs_used(s);
    if let Ok((logs, k)) = parse_logs(s) {
        lemma_parse_values_used(s.skip(k as int));
        if let Ok((aux, m)) = parse_values(s.skip(k as int)) {
            lemma_parse_values_used(s.skip(k as int).skip(m as int));
        }
    }
}

/// A response that was read took at least its opening constant and no more
/// bytes than were there.
pub proof fn lemma_parse_reply_used(pending: Pending, s: Seq<u8>)
    ensures
        parse_reply(pending, s) matches Ok((r, k)) ==> 0 < k <= s.len(),
{
    reveal(parse_reply);
    reveal(parse_erroneous_body);
    if let Ok((c, k)) = parse_protocol(s) {
        lemma_parse_result_body_used(pending, s.skip(k as int));
        if let Ok((err_type, m)) = parse_err_type(s.skip(k as int)) {
            lemma_parse_values_used(s.skip(k as int).skip(m as int));
        }
    }
}

} // verus!
