//! A length-framed request/response protocol between a controller process
//! and the subordinate process that it spawned, over a pair of pipes.
//!
//! The library is the protocol and nothing but the protocol. It never reads
//! or writes a pipe: an endpoint is handed the bytes that have arrived
//! (`feed`) and hands out the bytes that are to be sent (`take_outbound`),
//! and whoever owns the pipes moves them. A read that finds a message only
//! partly there fails with `IpcError::Incomplete`, which says how many bytes
//! to fetch before asking again, and consumes nothing.
//!
//! The protocol is for a parent and its child on one host. Every multi-byte
//! field travels in the byte order of the host, and lengths and counts are
//! as wide as its machine word: two hosts that differ in either cannot talk
//! to each other. Floating-point values travel as their IEEE-754 bit
//! patterns and are held as such.
//!
//! - [`serialization`]: the tagged values and their typed accessors.
//! - [`bytes`], [`wire`], [`envelope`]: the wire format, as mathematics.
//! - [`codec`], [`protocol`]: writers and readers of that format.
//! - [`endpoint`], [`controller`], [`subordinate`]: the two state machines.
//! - [`bootstrap`]: how the pipes reach the subordinate.
//! - [`roundtrip`], [`session`], [`streaming`]: what is proved of all this.

pub mod bootstrap;
pub mod bytes;
pub mod codec;
pub mod controller;
pub mod endpoint;
pub mod envelope;
pub mod err;
pub mod protocol;
pub mod roundtrip;
pub mod serialization;
pub mod session;
pub mod streaming;
pub mod subordinate;
pub mod wire;

pub use bootstrap::{
    start_subordinate_process, subordinate_begin, Adopted, Launch, PipeEnd, StartupError,
    StdioMode, SUB_IN_ENV, SUB_OUT_ENV,
};
pub use endpoint::{
    ControllerOp, ControllerProcess, ControllerState, Endpoint, Pipes, SubordinateOp,
    SubordinateProcess, SubordinateState,
};
pub use envelope::Pending;
pub use err::{IpcError, ProtocolError, RemoteError, RemoteErrorType, UnexpectedGenericType};
pub use protocol::{
    DataToken, FunctionToken, LogEntry, LogType, ProtocolCommand, ProtocolConstant, Request,
    Response, ResponseValue,
};
pub use serialization::{GenericValue, GenericValueBoxed, GenericValueRef, SerializedType};
