//! What can go wrong at an endpoint.

use vstd::prelude::*;

use crate::bootstrap::StartupError;
use crate::protocol::{LogEntry, LogLine, ProtocolConstant};
use crate::serialization::{GenericValueBoxed, SerializedType};
use crate::wire::Value;

verus! {

/// A breach of the wire format. After one the stream can no longer be
/// followed and the session is lost.
#[derive(Debug, Copy, Clone, PartialEq, Eq, Structural)]
pub enum ProtocolError {
    /// A byte where a protocol constant was due that stands for none.
    UnknownProtocolConstant(u8),
    /// A byte where a remote error type was due that stands for none.
    UnknownErrorType(u8),
    /// A byte where a log type was due that stands for none.
    UnknownLogType(u8),
    /// A protocol constant where another one was required.
    UnexpectedProtocolConstant { got: ProtocolConstant, expected: ProtocolConstant },
    /// A protocol constant that does not open a request.
    InappropriateProtocolConstant(ProtocolConstant),
    /// A byte where a value's type tag was due that stands for none.
    UnknownGenericType(u8),
}

/// A value was asked for as one type and holds another. The stream is not
/// touched by this: the caller may go on.
#[derive(Debug, Copy, Clone, PartialEq, Eq, Structural)]
pub struct UnexpectedGenericType {
    pub expected_type: SerializedType,
    pub actual_type: SerializedType,
}

/// The kind of failure that the subordinate reports.
#[derive(Debug, Copy, Clone, PartialEq, Eq, Structural)]
pub enum RemoteErrorType {
    UserspaceException,
    ProtocolError,
    GenericTypeError,
}

impl RemoteErrorType {
    /// The byte that stands for this kind on the wire: kinds count up from 0.
    pub open spec fn byte(self) -> u8 {
        match self {
            RemoteErrorType::UserspaceException => 0,
            RemoteErrorType::ProtocolError => 1,
            RemoteErrorType::GenericTypeError => 2,
        }
    }

    /// The kind that a byte stands for, if any.
    pub open spec fn of_byte(b: u8) -> Option<RemoteErrorType> {
        if b == 0 {
            Some(RemoteErrorType::UserspaceException)
        } else if b == 1 {
            Some(RemoteErrorType::ProtocolError)
        } else if b == 2 {
            Some(RemoteErrorType::GenericTypeError)
        } else {
            None
        }
    }

    /// The byte of this kind.
    pub fn to_u8(self) -> (b: u8)
        ensures
            b == self.byte(),
    {
        match self {
            RemoteErrorType::UserspaceException => 0,
            RemoteErrorType::ProtocolError => 1,
            RemoteErrorType::GenericTypeError => 2,
        }
    }

    /// The kind of a byte, or the byte itself where it is no kind.
    pub fn try_from(b: u8) -> (r: Result<RemoteErrorType, u8>)
        ensures
            r == match RemoteErrorType::of_byte(b) {
                Some(t) => Ok::<RemoteErrorType, u8>(t),
                None => Err::<RemoteErrorType, u8>(b),
            },
    {
        match b {
            0 => Ok(RemoteErrorType::UserspaceException),
            1 => Ok(RemoteErrorType::ProtocolError),
            2 => Ok(RemoteErrorType::GenericTypeError),
            _ => Err(b),
        }
    }
}

/// A failure that the subordinate reported in place of a result. The session
/// goes on after it.
#[derive(Debug, PartialEq, Eq)]
pub struct RemoteError {
    pub logs: Vec<LogEntry>,
    pub err_type: RemoteErrorType,
    pub aux: Vec<GenericValueBoxed>,
}

/// What a [`RemoteError`] holds, as mathematical values.
pub struct RemoteFault {
    pub logs: Seq<LogLine>,
    pub err_type: RemoteErrorType,
    pub aux: Seq<Value>,
}

impl View for RemoteError {
    type V = RemoteFault;

    open spec fn view(&self) -> RemoteFault {
        RemoteFault {
            logs: self.logs.deep_view(),
            err_type: self.err_type,
            aux: self.aux.deep_view(),
        }
    }
}

/// Every way in which the library can fail, in one type.
#[derive(Debug, PartialEq, Eq)]
pub enum IpcError {
    /// The bytes that have arrived end before the message does. The read that
    /// stopped can go on once `needed` more bytes are there; nothing was
    /// consumed.
    Incomplete { needed: usize },
    /// A text field does not hold UTF-8.
    InvalidUtf8,
    /// The stream breaks the wire format.
    Protocol(ProtocolError),
    /// The subordinate answered with an error.
    Remote(RemoteError),
    /// A value was asked for as one type and holds another.
    GenericType(UnexpectedGenericType),
    /// The subordinate could not find its pipes.
    Startup(StartupError),
}

/// What an [`IpcError`] holds, as mathematical values.
pub enum Fault {
    Incomplete { needed: nat },
    InvalidUtf8,
    Protocol(ProtocolError),
    Remote(RemoteFault),
    GenericType(UnexpectedGenericType),
    Startup(StartupError),
}

impl View for IpcError {
    type V = Fault;

    open spec fn view(&self) -> Fault {
        match *self {
            IpcError::Incomplete { needed } => Fault::Incomplete { needed: needed as nat },
            IpcError::InvalidUtf8 => Fault::InvalidUtf8,
            IpcError::Protocol(e) => Fault::Protocol(e),
            IpcError::Remote(e) => Fault::Remote(e@),
            IpcError::GenericType(e) => Fault::GenericType(e),
            IpcError::Startup(e) => Fault::Startup(e),
        }
    }
}

impl From<ProtocolError> for IpcError {
    fn from(e: ProtocolError) -> (r: Self) {
        IpcError::Protocol(e)
    }
}

impl vstd::std_specs::convert::FromSpecImpl<ProtocolError> for IpcError {
    open spec fn obeys_from_spec() -> bool {
        true
    }

    open spec fn from_spec(e: ProtocolError) -> Self {
        IpcError::Protocol(e)
    }
}

impl From<UnexpectedGenericType> for IpcError {
    fn from(e: UnexpectedGenericType) -> (r: Self) {
        IpcError::GenericType(e)
    }
}

impl vstd::std_specs::convert::FromSpecImpl<UnexpectedGenericType> for IpcError {
    open spec fn obeys_from_spec() -> bool {
        true
    }

    open spec fn from_spec(e: UnexpectedGenericType) -> Self {
        IpcError::GenericType(e)
    }
}

impl From<RemoteError> for IpcError {
    fn from(e: RemoteError) -> (r: Self) {
        IpcError::Remote(e)
    }
}

impl vstd::std_specs::convert::FromSpecImpl<RemoteError> for IpcError {
    open spec fn obeys_from_spec() -> bool {
        true
    }

    open spec fn from_spec(e: RemoteError) -> Self {
        IpcError::Remote(e)
    }
}

impl From<StartupError> for IpcError {
    fn from(e: StartupError) -> (r: Self) {
        IpcError::Startup(e)
    }
}

impl vstd::std_specs::convert::FromSpecImpl<StartupError> for IpcError {
    open spec fn obeys_from_spec() -> bool {
        true
    }

    open spec fn from_spec(e: StartupError) -> Self {
        IpcError::Startup(e)
    }
}

} // verus!
