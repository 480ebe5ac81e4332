//! The messages of the protocol: the constants that open them, the tokens,
//! requests and responses as a program holds them, and the readers that
//! make them out of bytes.

use vstd::prelude::*;

use crate::codec::{
    read_bytes, read_err_type, read_generic_vec, read_log_type, read_protocol, read_string,
    read_u64, read_usize, reads,
};
use crate::envelope::{
    lemma_parse_command_body_used, lemma_parse_logs_used,
    lemma_parse_n_logs_step, parse_command_body, parse_erroneous_body, parse_log, parse_logs,
    parse_n_logs, parse_reply, parse_request, parse_response_value, parse_result_body, Command,
    Pending, ReplyView, RequestView, ResponseValueView, ResponseView,
};
use crate::err::{IpcError, ProtocolError, RemoteError};
use crate::serialization::GenericValueBoxed;
use crate::wire::{join, lemma_parse_values_used, lemma_unread_skip, parse_usize, unread, Parse};

verus! {

/// The one-byte constants that open every message on the wire.
#[derive(Copy, Clone, Debug, PartialEq, Eq, Structural)]
pub enum ProtocolConstant {
    Hello,
    DefineFunction,
    DefineData,
    Call,
    Result,
    Erroneous,
    FreeFunction,
    FreeData,
    Peek,
    Poke,
    Log,
    Goodbye,
}

impl ProtocolConstant {
    /// The byte that stands for this constant on the wire.
    pub open spec fn byte(self) -> u8 {
        match self {
            ProtocolConstant::Hello => 0x00,
            ProtocolConstant::DefineFunction => 0x01,
            ProtocolConstant::DefineData => 0x02,
            ProtocolConstant::Call => 0x03,
            ProtocolConstant::FreeFunction => 0x04,
            ProtocolConstant::FreeData => 0x05,
            ProtocolConstant::Peek => 0x06,
            ProtocolConstant::Poke => 0x07,
            ProtocolConstant::Log => 0x08,
            ProtocolConstant::Result => 0xc5,
            ProtocolConstant::Erroneous => 0x5c,
            ProtocolConstant::Goodbye => 0xff,
        }
    }

    /// The constant that a byte stands for, if any.
    pub open spec fn of_byte(b: u8) -> Option<ProtocolConstant> {
        if b == 0x00 {
            Some(ProtocolConstant::Hello)
        } else if b == 0x01 {
            Some(ProtocolConstant::DefineFunction)
        } else if b == 0x02 {
            Some(ProtocolConstant::DefineData)
        } else if b == 0x03 {
            Some(ProtocolConstant::Call)
        } else if b == 0x04 {
            Some(ProtocolConstant::FreeFunction)
        } else if b == 0x05 {
            Some(ProtocolConstant::FreeData)
        } else if b == 0x06 {
            Some(ProtocolConstant::Peek)
        } else if b == 0x07 {
            Some(ProtocolConstant::Poke)
        } else if b == 0x08 {
            Some(ProtocolConstant::Log)
        } else if b == 0xc5 {
            Some(ProtocolConstant::Result)
        } else if b == 0x5c {
            Some(ProtocolConstant::Erroneous)
        } else if b == 0xff {
            Some(ProtocolConstant::Goodbye)
        } else {
            None
        }
    }

    /// The byte of this constant.
    pub fn to_u8(self) -> (b: u8)
        ensures
            b == self.byte(),
    {
        match self {
            ProtocolConstant::Hello => 0x00,
            ProtocolConstant::DefineFunction => 0x01,
            ProtocolConstant::DefineData => 0x02,
            ProtocolConstant::Call => 0x03,
            ProtocolConstant::FreeFunction => 0x04,
            ProtocolConstant::FreeData => 0x05,
            ProtocolConstant::Peek => 0x06,
            ProtocolConstant::Poke => 0x07,
            ProtocolConstant::Log => 0x08,
            ProtocolConstant::Result => 0xc5,
            ProtocolConstant::Erroneous => 0x5c,
            ProtocolConstant::Goodbye => 0xff,
        }
    }
}

impl ProtocolConstant {
    /// The constant of a byte, or the byte itself where it is no constant.
    pub fn try_from(b: u8) -> (r: Result<ProtocolConstant, u8>)
        ensures
            r == match ProtocolConstant::of_byte(b) {
                Some(c) => Ok::<ProtocolConstant, u8>(c),
                None => Err::<ProtocolConstant, u8>(b),
            },
    {
        match b {
            0x00 => Ok(ProtocolConstant::Hello),
            0x01 => Ok(ProtocolConstant::DefineFunction),
            0x02 => Ok(ProtocolConstant::DefineData),
            0x03 => Ok(ProtocolConstant::Call),
            0x04 => Ok(ProtocolConstant::FreeFunction),
            0x05 => Ok(ProtocolConstant::FreeData),
            0x06 => Ok(ProtocolConstant::Peek),
            0x07 => Ok(ProtocolConstant::Poke),
            0x08 => Ok(ProtocolConstant::Log),
            0xc5 => Ok(ProtocolConstant::Result),
            0x5c => Ok(ProtocolConstant::Erroneous),
            0xff => Ok(ProtocolConstant::Goodbye),
            _ => Err(b),
        }
    }

    /// Checks that this constant is the one that was due.
    pub fn expect(self, expected: ProtocolConstant) -> (r: Result<(), ProtocolError>)
        ensures
            r == if self == expected {
                Ok::<(), ProtocolError>(())
            } else {
                Err::<(), ProtocolError>(
                    ProtocolError::UnexpectedProtocolConstant { got: self, expected },
                )
            },
    {
        if self == expected {
            Ok(())
        } else {
            Err(ProtocolError::UnexpectedProtocolConstant { got: self, expected })
        }
    }
}

/// Which of the subordinate's two output streams a log line came from.
#[derive(Debug, Copy, Clone, PartialEq, Eq, Structural)]
pub enum LogType {
    Stdout,
    Stderr,
}

impl LogType {
    /// The byte that stands for this stream on the wire.
    pub open spec fn byte(self) -> u8 {
        match self {
            LogType::Stdout => 0,
            LogType::Stderr => 1,
        }
    }

    /// The stream that a byte stands for, if any.
    pub open spec fn of_byte(b: u8) -> Option<LogType> {
        if b == 0 {
            Some(LogType::Stdout)
        } else if b == 1 {
            Some(LogType::Stderr)
        } else {
            None
        }
    }

    /// The byte of this stream.
    pub fn to_u8(self) -> (b: u8)
        ensures
            b == self.byte(),
    {
        match self {
            LogType::Stdout => 0,
            LogType::Stderr => 1,
        }
    }

    /// The stream of a byte, or the byte itself where it is no stream.
    pub fn try_from(b: u8) -> (r: Result<LogType, u8>)
        ensures
            r == match LogType::of_byte(b) {
                Some(t) => Ok::<LogType, u8>(t),
                None => Err::<LogType, u8>(b),
            },
    {
        match b {
            0 => Ok(LogType::Stdout),
            1 => Ok(LogType::Stderr),
            _ => Err(b),
        }
    }
}

/// One line that the subordinate printed while it handled a request.
#[derive(Debug, Clone, PartialEq, Eq)]
pub struct LogEntry {
    pub log_type: LogType,
    pub line: String,
}

/// What a [`LogEntry`] holds, as mathematical values.
pub struct LogLine {
    pub log_type: LogType,
    pub line: Seq<char>,
}

impl DeepView for LogEntry {
    type V = LogLine;

    open spec fn deep_view(&self) -> LogLine {
        LogLine { log_type: self.log_type, line: self.line@ }
    }
}

/// Names a data blob that the subordinate holds. Opaque: only the session
/// that minted it gives it a meaning.
#[derive(Debug, Hash, PartialEq, Eq, PartialOrd, Ord, Clone, Copy, Structural)]
pub struct DataToken(pub u64);

/// Names a function blob that the subordinate holds. Opaque: only the session
/// that minted it gives it a meaning.
#[derive(Debug, Hash, PartialEq, Eq, PartialOrd, Ord, Clone, Copy, Structural)]
pub struct FunctionToken(pub u64);

impl From<u64> for DataToken {
    fn from(v: u64) -> (r: Self) {
        DataToken(v)
    }
}

impl vstd::std_specs::convert::FromSpecImpl<u64> for DataToken {
    open spec fn obeys_from_spec() -> bool {
        true
    }

    open spec fn from_spec(v: u64) -> Self {
        DataToken(v)
    }
}

impl From<DataToken> for u64 {
    fn from(v: DataToken) -> (r: Self) {
        v.0
    }
}

impl vstd::std_specs::convert::FromSpecImpl<DataToken> for u64 {
    open spec fn obeys_from_spec() -> bool {
        true
    }

    open spec fn from_spec(v: DataToken) -> Self {
        v.0
    }
}

impl From<u64> for FunctionToken {
    fn from(v: u64) -> (r: Self) {
        FunctionToken(v)
    }
}

impl vstd::std_specs::convert::FromSpecImpl<u64> for FunctionToken {
    open spec fn obeys_from_spec() -> bool {
        true
    }

    open spec fn from_spec(v: u64) -> Self {
        FunctionToken(v)
    }
}

impl From<FunctionToken> for u64 {
    fn from(v: FunctionToken) -> (r: Self) {
        v.0
    }
}

impl vstd::std_specs::convert::FromSpecImpl<FunctionToken> for u64 {
    open spec fn obeys_from_spec() -> bool {
        true
    }

    open spec fn from_spec(v: FunctionToken) -> Self {
        v.0
    }
}

/// One request as the subordinate sees it.
#[derive(Debug, PartialEq, Eq)]
pub struct Request {
    pub command: ProtocolCommand,
    pub aux: Vec<GenericValueBoxed>,
}

/// What the controller asks of the subordinate.
#[derive(Debug, PartialEq, Eq)]
#[must_use]
#[allow(inconsistent_fields)]
pub enum ProtocolCommand {
    Shutdown,
    DefineFunction {
        token: FunctionToken,
        function_blob: Vec<u8>,
        associated_data: Vec<GenericValueBoxed>,
    },
    DefineData { token: DataToken, value: Vec<GenericValueBoxed> },
    Call { token: FunctionToken, args: Vec<GenericValueBoxed> },
    FreeFunction(FunctionToken),
    FreeData(DataToken),
    Peek(String),
    Poke { key: String, value: Vec<GenericValueBoxed> },
}

impl DeepView for ProtocolCommand {
    type V = Command;

    open spec fn deep_view(&self) -> Command {
        match *self {
            ProtocolCommand::Shutdown => Command::Shutdown,
            ProtocolCommand::DefineFunction {
                token,
                function_blob,
                associated_data,
            } => Command::DefineFunction {
                token,
                function_blob: function_blob@,
                associated_data: associated_data.deep_view(),
            },
            ProtocolCommand::DefineData { token, value } => Command::DefineData {
                token,
                value: value.deep_view(),
            },
            ProtocolCommand::Call { token, args } => Command::Call {
                token,
                args: args.deep_view(),
            },
            ProtocolCommand::FreeFunction(token) => Command::FreeFunction(token),
            ProtocolCommand::FreeData(token) => Command::FreeData(token),
            ProtocolCommand::Peek(key) => Command::Peek(key@),
            ProtocolCommand::Poke { key, value } => Command::Poke {
                key: key@,
                value: value.deep_view(),
            },
        }
    }
}

impl DeepView for Request {
    type V = RequestView;

    open spec fn deep_view(&self) -> RequestView {
        RequestView { command: self.command.deep_view(), aux: self.aux.deep_view() }
    }
}

/// What a successful response carries besides logs and auxiliary values:
/// nothing, the token that the request defined, or a sequence of values.
#[derive(Debug, PartialEq, Eq)]
pub enum ResponseValue {
    Empty,
    Function(FunctionToken),
    Data(DataToken),
    Values(Vec<GenericValueBoxed>),
}

impl DeepView for ResponseValue {
    type V = ResponseValueView;

    open spec fn deep_view(&self) -> ResponseValueView {
        match *self {
            ResponseValue::Empty => ResponseValueView::Empty,
            ResponseValue::Function(token) => ResponseValueView::Function(token),
            ResponseValue::Data(token) => ResponseValueView::Data(token),
            ResponseValue::Values(vs) => ResponseValueView::Values(vs.deep_view()),
        }
    }
}

/// A successful response as the controller sees it.
#[derive(Debug, PartialEq, Eq)]
pub struct Response<T> {
    pub logs: Vec<LogEntry>,
    pub response_aux: Vec<GenericValueBoxed>,
    pub value: T,
}

impl DeepView for Response<ResponseValue> {
    type V = ResponseView;

    open spec fn deep_view(&self) -> ResponseView {
        ResponseView {
            logs: self.logs.deep_view(),
            response_aux: self.response_aux.deep_view(),
            value: self.value.deep_view(),
        }
    }
}

impl Response<ResponseValue> {
    /// The response to a request that defined a function, with the token as
    /// its value; `None` where the response is of another shape.
    pub fn function(self) -> (r: Option<Response<FunctionToken>>)
        ensures
            match self.value {
                ResponseValue::Function(token) => r matches Some(x) && x.logs == self.logs
                    && x.response_aux == self.response_aux && x.value == token,
                _ => r is None,
            },
    {
        match self.value {
            ResponseValue::Function(token) => Some(
                Response { logs: self.logs, response_aux: self.response_aux, value: token },
            ),
            _ => None,
        }
    }

    /// The response to a request that defined data, with the token as its
    /// value; `None` where the response is of another shape.
    pub fn data(self) -> (r: Option<Response<DataToken>>)
        ensures
            match self.value {
                ResponseValue::Data(token) => r matches Some(x) && x.logs == self.logs
                    && x.response_aux == self.response_aux && x.value == token,
                _ => r is None,
            },
    {
        match self.value {
            ResponseValue::Data(token) => Some(
                Response { logs: self.logs, response_aux: self.response_aux, value: token },
            ),
            _ => None,
        }
    }

    /// The response to a request that asked for values, with the values as
    /// its value; `None` where the response is of another shape.
    pub fn values(self) -> (r: Option<Response<Vec<GenericValueBoxed>>>)
        ensures
            match self.value {
                ResponseValue::Values(vs) => r matches Some(x) && x.logs == self.logs
                    && x.response_aux == self.response_aux && x.value == vs,
                _ => r is None,
            },
    {
        match self.value {
            ResponseValue::Values(vs) => Some(
                Response { logs: self.logs, response_aux: self.response_aux, value: vs },
            ),
            _ => None,
        }
    }

    /// The response to a request that asked for nothing back, with nothing
    /// as its value; `None` where the response is of another shape.
    pub fn empty(self) -> (r: Option<Response<()>>)
        ensures
            match self.value {
                ResponseValue::Empty => r matches Some(x) && x.logs == self.logs && x.response_aux
                    == self.response_aux,
                _ => r is None,
            },
    {
        match self.value {
            ResponseValue::Empty => Some(
                Response { logs: self.logs, response_aux: self.response_aux, value: () },
            ),
            _ => None,
        }
    }
}

/// Reads what follows the constant `DefineFunction`.
pub fn recv_define_function(data: &[u8], pos: usize) -> (r: Result<
    (ProtocolCommand, usize),
    IpcError,
>)
    ensures
        reads(
            r,
            parse_command_body(ProtocolConstant::DefineFunction, unread(data@, pos as int)),
            pos,
        ),
{
    proof {
        reveal(parse_command_body);
    }
    let ghost s = unread(data@, pos as int);
    let (token, at) = read_u64(data, pos)?;
    assert(unread(data@, at as int) =~= s.skip(at - pos));
    let (function_blob, at2) = read_bytes(data, at)?;
    assert(unread(data@, at2 as int) =~= s.skip(at - pos).skip(at2 - at));
    let (associated_data, next) = read_generic_vec(data, at2)?;
    assert(function_blob@ =~= function_blob.deep_view());
    Ok((ProtocolCommand::DefineFunction { token: FunctionToken(token), function_blob, associated_data }, next))
}

/// Reads what follows the constant `Call`.
pub fn recv_call(data: &[u8], pos: usize) -> (r: Result<(ProtocolCommand, usize), IpcError>)
    ensures
        reads(r, parse_command_body(ProtocolConstant::Call, unread(data@, pos as int)), pos),
{
    proof {
        reveal(parse_command_body);
    }
    let (token, at) = read_u64(data, pos)?;
    assert(unread(data@, at as int) =~= unread(data@, pos as int).skip(at - pos));
    let (args, next) = read_generic_vec(data, at)?;
    Ok((ProtocolCommand::Call { token: FunctionToken(token), args }, next))
}

/// Reads what follows the constant `FreeFunction`.
pub fn recv_free_function(data: &[u8], pos: usize) -> (r: Result<
    (ProtocolCommand, usize),
    IpcError,
>)
    ensures
        reads(
            r,
            parse_command_body(ProtocolConstant::FreeFunction, unread(data@, pos as int)),
            pos,
        ),
{
    proof {
        reveal(parse_command_body);
    }
    let (token, next) = read_u64(data, pos)?;
    Ok((ProtocolCommand::FreeFunction(FunctionToken(token)), next))
}

/// Reads what follows the constant `DefineData`.
pub fn recv_define_data(data: &[u8], pos: usize) -> (r: Result<(ProtocolCommand, usize), IpcError>)
    ensures
        reads(r, parse_command_body(ProtocolConstant::DefineData, unread(data@, pos as int)), pos),
{
    proof {
        reveal(parse_command_body);
    }
    let (token, at) = read_u64(data, pos)?;
    assert(unread(data@, at as int) =~= unread(data@, pos as int).skip(at - pos));
    let (value, next) = read_generic_vec(data, at)?;
    Ok((ProtocolCommand::DefineData { token: DataToken(token), value }, next))
}

/// Reads what follows the constant `FreeData`.
pub fn recv_free_data(data: &[u8], pos: usize) -> (r: Result<(ProtocolCommand, usize), IpcError>)
    ensures
        reads(r, parse_command_body(ProtocolConstant::FreeData, unread(data@, pos as int)), pos),
{
    proof {
        reveal(parse_command_body);
    }
    let (token, next) = read_u64(data, pos)?;
    Ok((ProtocolCommand::FreeData(DataToken(token)), next))
}

/// Reads what follows the constant `Peek`.
pub fn recv_peek(data: &[u8], pos: usize) -> (r: Result<(ProtocolCommand, usize), IpcError>)
    ensures
        reads(r, parse_command_body(ProtocolConstant::Peek, unread(data@, pos as int)), pos),
{
    proof {
        reveal(parse_command_body);
    }
    let (key, next) = read_string(data, pos)?;
    Ok((ProtocolCommand::Peek(key), next))
}

/// Reads what follows the constant `Poke`.
pub fn recv_poke(data: &[u8], pos: usize) -> (r: Result<(ProtocolCommand, usize), IpcError>)
    ensures
        reads(r, parse_command_body(ProtocolConstant::Poke, unread(data@, pos as int)), pos),
{
    proof {
        reveal(parse_command_body);
    }
    let (key, at) = read_string(data, pos)?;
    assert(unread(data@, at as int) =~= unread(data@, pos as int).skip(at - pos));
    let (value, next) = read_generic_vec(data, at)?;
    Ok((ProtocolCommand::Poke { key, value }, next))
}

/// Reads one request: the opening constant, the fields of the command, the
/// auxiliary values.
pub fn read_request(data: &[u8], pos: usize) -> (r: Result<(Request, usize), IpcError>)
    ensures
        reads(r, parse_request(unread(data@, pos as int)), pos),
{
    proof {
        reveal(parse_request);
        reveal(parse_command_body);
    }
    let ghost s = unread(data@, pos as int);
    let (c, at) = read_protocol(data, pos)?;
    assert(unread(data@, at as int) =~= s.skip(at - pos));
    proof {
        lemma_parse_command_body_used(c, s.skip(at - pos));
    }
    let (command, at2) = match c {
        ProtocolConstant::DefineFunction => recv_define_function(data, at)?,
        ProtocolConstant::Call => recv_call(data, at)?,
        ProtocolConstant::FreeFunction => recv_free_function(data, at)?,
        ProtocolConstant::DefineData => recv_define_data(data, at)?,
        ProtocolConstant::FreeData => recv_free_data(data, at)?,
        ProtocolConstant::Peek => recv_peek(data, at)?,
        ProtocolConstant::Poke => recv_poke(data, at)?,
        ProtocolConstant::Goodbye => (ProtocolCommand::Shutdown, at),
        err => {
            return Err(IpcError::Protocol(ProtocolError::InappropriateProtocolConstant(err)));
        },
    };
    assert(unread(data@, at2 as int) =~= s.skip(at - pos).skip(at2 - at));
    let (aux, next) = read_generic_vec(data, at2)?;
    Ok((Request { command, aux }, next))
}

/// Reads the log lines of a response: their number, then the lines.
pub fn read_logs(data: &[u8], pos: usize) -> (r: Result<(Vec<LogEntry>, usize), IpcError>)
    ensures
        reads(r, parse_logs(unread(data@, pos as int)), pos),
{
    proof {
        reveal(parse_logs);
    }
    let (log_ct, at) = read_usize(data, pos)?;
    let mut logs: Vec<LogEntry> = Vec::new();
    let mut p: usize = at;
    let mut i: usize = 0;
    while i < log_ct
        invariant
            i <= log_ct,
            pos <= at <= p,
            parse_usize(unread(data@, pos as int)) matches Ok((n, k)) && n == log_ct && k == at
                - pos,
            unread(data@, at as int) == unread(data@, pos as int).skip(at - pos),
            parse_n_logs(unread(data@, at as int), log_ct as nat) == join(
                logs.deep_view(),
                (p - at) as nat,
                parse_n_logs(unread(data@, p as int), (log_ct - i) as nat),
            ),
        decreases log_ct - i,
    {
        let ghost rest = unread(data@, p as int);
        let ghost before = logs.deep_view();
        proof {
            reveal(parse_logs);
            reveal(parse_log);
            lemma_parse_n_logs_step(rest, (log_ct - i) as nat, before, (p - at) as nat);
        }
        let (log_type, q) = read_log_type(data, p)?;
        assert(unread(data@, q as int) =~= rest.skip(q - p));
        let (line, q2) = read_string(data, q)?;
        assert(unread(data@, q2 as int) =~= rest.skip(q2 - p));
        let entry = LogEntry { log_type, line };
        logs.push(entry);
        assert(logs.deep_view() =~= before.push(entry.deep_view()));
        p = q2;
        i += 1;
    }
    Ok((logs, p))
}

/// Reads the value of a response, in the shape that the controller waits
/// for.
pub fn read_response_value(data: &[u8], pos: usize, pending: Pending) -> (r: Result<
    (ResponseValue, usize),
    IpcError,
>)
    ensures
        reads(r, parse_response_value(pending, unread(data@, pos as int)), pos),
{
    match pending {
        Pending::Empty => Ok((ResponseValue::Empty, pos)),
        Pending::Function(token) => Ok((ResponseValue::Function(token), pos)),
        Pending::Data(token) => Ok((ResponseValue::Data(token), pos)),
        Pending::Values => {
            let (vs, next) = read_generic_vec(data, pos)?;
            Ok((ResponseValue::Values(vs), next))
        },
    }
}

/// `r` is what the reader of a response returns where the bytes in front of
/// it parse as `p`.
pub open spec fn reads_reply(
    r: Result<(Result<Response<ResponseValue>, RemoteError>, usize), IpcError>,
    p: Parse<ReplyView>,
    pos: usize,
) -> bool {
    match p {
        Ok((ReplyView::Result(v), used)) => r matches Ok((Ok(x), next)) && x.deep_view() == v
            && next == pos + used,
        Ok((ReplyView::Erroneous(v), used)) => r matches Ok((Err(x), next)) && x@ == v && next
            == pos + used,
        Err(f) => r matches Err(e) && e@ == f,
    }
}

/// Reads what follows the constant `Result`: log lines, auxiliary values
/// and the value that is pending.
pub fn read_result_body(data: &[u8], pos: usize, pending: Pending) -> (r: Result<
    (Response<ResponseValue>, usize),
    IpcError,
>)
    ensures
        reads(r, parse_result_body(pending, unread(data@, pos as int)), pos),
{
    proof {
        reveal(parse_result_body);
    }
    let ghost body = unread(data@, pos as int);
    proof {
        lemma_parse_logs_used(body);
    }
    let (logs, at2) = read_logs(data, pos)?;
    proof {
        lemma_unread_skip(data@, pos as int, at2 - pos);
        lemma_parse_values_used(body.skip(at2 - pos));
    }
    let (response_aux, at3) = read_generic_vec(data, at2)?;
    proof {
        lemma_unread_skip(data@, at2 as int, at3 - at2);
    }
    let (value, next) = read_response_value(data, at3, pending)?;
    Ok((Response { logs, response_aux, value }, next))
}

/// Reads what follows the constant `Erroneous`: the kind of error and the
/// auxiliary values. No log lines travel with an error.
pub fn read_erroneous_body(data: &[u8], pos: usize) -> (r: Result<(RemoteError, usize), IpcError>)
    ensures
        match parse_erroneous_body(unread(data@, pos as int)) {
            Ok((v, used)) => r matches Ok((x, next)) && x@ == v && next == pos + used,
            Err(f) => r matches Err(e) && e@ == f,
        },
{
    proof {
        reveal(parse_erroneous_body);
    }
    let (err_type, at2) = read_err_type(data, pos)?;
    assert(unread(data@, at2 as int) =~= unread(data@, pos as int).skip(at2 - pos));
    let (aux, next) = read_generic_vec(data, at2)?;
    let logs: Vec<LogEntry> = Vec::new();
    assert(logs.deep_view() =~= Seq::<LogLine>::empty());
    Ok((RemoteError { err_type, logs, aux }, next))
}

/// Reads one response: `Result` and a result, or `Erroneous` and an error.
/// Any other constant is refused.
pub fn read_reply(data: &[u8], pos: usize, pending: Pending) -> (r: Result<
    (Result<Response<ResponseValue>, RemoteError>, usize),
    IpcError,
>)
    ensures
        reads_reply(r, parse_reply(pending, unread(data@, pos as int)), pos),
{
    proof {
        reveal(parse_reply);
    }
    let (p, at) = read_protocol(data, pos)?;
    assert(unread(data@, at as int) =~= unread(data@, pos as int).skip(at - pos));
    match p {
        ProtocolConstant::Result => {
            let (response, next) = read_result_body(data, at, pending)?;
            Ok((Ok(response), next))
        },
        ProtocolConstant::Erroneous => {
            let (error, next) = read_erroneous_body(data, at)?;
            Ok((Err(error), next))
        },
        err => Err(
            IpcError::Protocol(
                ProtocolError::UnexpectedProtocolConstant {
                    expected: ProtocolConstant::Result,
                    got: err,
                },
            ),
        ),
    }
}

} // verus!
