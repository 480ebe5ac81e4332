//! What the subordinate does: the handshake, receiving requests, answering
//! them.

use vstd::prelude::*;

use crate::codec::{read_protocol, write_err_type, write_generic_vec, write_protocol, write_usize};
use crate::endpoint::{Pipes, SubordinateOp, SubordinateProcess, SubordinateState};
use crate::envelope::{
    lemma_parse_request_used, parse_hello, parse_request, plain_result, response_sendable,
    wire_erroneous, wire_result, ResponseValueView,
};
use crate::err::{IpcError, RemoteErrorType};
use crate::protocol::{read_request, ProtocolCommand, ProtocolConstant, Request};
use crate::serialization::GenericValueRef;
use crate::wire::{all_sendable, Value};

verus! {

/// The value that a response carries: the values where there are some.
pub open spec fn carried(value: Option<Seq<Value>>) -> ResponseValueView {
    match value {
        Some(vs) => ResponseValueView::Values(vs),
        None => ResponseValueView::Empty,
    }
}

impl SubordinateProcess {
    /// The handshake: reads the controller's `Hello` and answers it with
    /// `Hello`. Where the byte has not arrived yet the subordinate goes on
    /// waiting and the call can be made again; any other byte in its place
    /// loses the session.
    pub fn hello(&mut self) -> (r: Result<(), IpcError>)
        requires
            old(self)@.state.allows(SubordinateOp::Hello),
        ensures
            final(self)@ == old(self)@.hello(),
            match parse_hello(old(self)@.pipes.unread) {
                Ok(_) => r is Ok,
                Err(f) => r matches Err(e) && e@ == f,
            },
    {
        let ghost before = self.pipes;
        match read_protocol(self.pipes.reader.as_slice(), self.pipes.consumed) {
            Ok((c, next)) => {
                match c.expect(ProtocolConstant::Hello) {
                    Ok(()) => {
                        self.pipes.consumed = next;
                        let ghost taken = self.pipes;
                        proof {
                            Pipes::lemma_consumed(before, taken, 1);
                        }
                        write_protocol(&mut self.pipes.writer, ProtocolConstant::Hello);
                        self.pipes.flush();
                        self.state = SubordinateState::Listening;
                        Ok(())
                    },
                    Err(e) => {
                        self.state = SubordinateState::Failed;
                        Err(IpcError::Protocol(e))
                    },
                }
            },
            Err(e) => {
                match e {
                    IpcError::Incomplete { .. } => {
                        self.state = SubordinateState::AwaitingHello;
                    },
                    _ => {
                        self.state = SubordinateState::Failed;
                    },
                }
                Err(e)
            },
        }
    }

    /// Receives the next request. Where it has not all arrived yet nothing
    /// changes and the call can be made again. `Goodbye` comes back as
    /// `Shutdown` and ends the session; a constant that opens no request, or
    /// any other breach of the format, loses it.
    pub fn recv_command(&mut self) -> (r: Result<Request, IpcError>)
        requires
            old(self)@.state.allows(SubordinateOp::RecvCommand),
        ensures
            final(self)@ == old(self)@.recv_command(),
            match parse_request(old(self)@.pipes.unread) {
                Ok((v, _)) => r matches Ok(x) && x.deep_view() == v,
                Err(f) => r matches Err(e) && e@ == f,
            },
    {
        let ghost before = self.pipes;
        proof {
            lemma_parse_request_used(before@.unread);
        }
        match read_request(self.pipes.reader.as_slice(), self.pipes.consumed) {
            Ok((request, next)) => {
                self.pipes.consumed = next;
                proof {
                    Pipes::lemma_consumed(before, self.pipes, (next - before.consumed) as nat);
                }
                self.state = match request.command {
                    ProtocolCommand::Shutdown => SubordinateState::Shutdown,
                    _ => SubordinateState::Handling,
                };
                Ok(request)
            },
            Err(e) => {
                match e {
                    IpcError::Incomplete { .. } => {},
                    _ => {
                        self.state = SubordinateState::Failed;
                    },
                }
                Err(e)
            },
        }
    }

    /// Writes a successful response: `Result`, no log lines, the auxiliary
    /// values, and the values that the response carries, if any.
    fn respond(&mut self, aux: &[GenericValueRef<'_>], value: Option<&[GenericValueRef<'_>]>)
        requires
            old(self)@.state.allows(SubordinateOp::Respond),
        ensures
            final(self)@ == old(self)@.respond(
                wire_result(
                    plain_result(
                        aux.deep_view(),
                        carried(
                            match value {
                                Some(vs) => Some(vs.deep_view()),
                                None => None,
                            },
                        ),
                    ),
                ),
            ),
            response_sendable(
                plain_result(
                    aux.deep_view(),
                    carried(
                        match value {
                            Some(vs) => Some(vs.deep_view()),
                            None => None,
                        },
                    ),
                ),
            ),
    {
        let ghost before = self.pipes;
        write_protocol(&mut self.pipes.writer, ProtocolConstant::Result);
        write_usize(&mut self.pipes.writer, 0);
        write_generic_vec(&mut self.pipes.writer, aux);
        match value {
            Some(vs) => {
                write_generic_vec(&mut self.pipes.writer, vs);
            },
            None => {},
        }
        proof {
            let r = plain_result(
                aux.deep_view(),
                carried(
                    match value {
                        Some(vs) => Some(vs.deep_view()),
                        None => None,
                    },
                ),
            );
            assert(self.pipes.writer@ =~= before.writer@ + wire_result(r));
        }
        self.pipes.flush();
        self.state = SubordinateState::Listening;
    }

    /// Confirms that a function or data was defined.
    pub fn respond_to_define(&mut self, aux: &[GenericValueRef<'_>])
        requires
            old(self)@.state.allows(SubordinateOp::Respond),
        ensures
            final(self)@ == old(self)@.respond(
                wire_result(plain_result(aux.deep_view(), ResponseValueView::Empty)),
            ),
            response_sendable(plain_result(aux.deep_view(), ResponseValueView::Empty)),
    {
        self.respond(aux, None)
    }

    /// Answers a call with the values that it returned.
    pub fn respond_to_call(
        &mut self,
        call_return: &[GenericValueRef<'_>],
        aux: &[GenericValueRef<'_>],
    )
        requires
            old(self)@.state.allows(SubordinateOp::Respond),
        ensures
            final(self)@ == old(self)@.respond(
                wire_result(
                    plain_result(
                        aux.deep_view(),
                        ResponseValueView::Values(call_return.deep_view()),
                    ),
                ),
            ),
            response_sendable(
                plain_result(aux.deep_view(), ResponseValueView::Values(call_return.deep_view())),
            ),
    {
        self.respond(aux, Some(call_return))
    }

    /// Confirms that a function or data was freed.
    pub fn respond_to_unregister(&mut self, aux: &[GenericValueRef<'_>])
        requires
            old(self)@.state.allows(SubordinateOp::Respond),
        ensures
            final(self)@ == old(self)@.respond(
                wire_result(plain_result(aux.deep_view(), ResponseValueView::Empty)),
            ),
            response_sendable(plain_result(aux.deep_view(), ResponseValueView::Empty)),
    {
        self.respond(aux, None)
    }

    /// Answers a peek with the values under the key.
    pub fn respond_to_peek(
        &mut self,
        peek_value: &[GenericValueRef<'_>],
        aux: &[GenericValueRef<'_>],
    )
        requires
            old(self)@.state.allows(SubordinateOp::Respond),
        ensures
            final(self)@ == old(self)@.respond(
                wire_result(
                    plain_result(aux.deep_view(), ResponseValueView::Values(peek_value.deep_view())),
                ),
            ),
            response_sendable(
                plain_result(aux.deep_view(), ResponseValueView::Values(peek_value.deep_view())),
            ),
    {
        self.respond(aux, Some(peek_value))
    }

    /// Confirms that the values under a key were set.
    pub fn respond_to_poke(&mut self, aux: &[GenericValueRef<'_>])
        requires
            old(self)@.state.allows(SubordinateOp::Respond),
        ensures
            final(self)@ == old(self)@.respond(
                wire_result(plain_result(aux.deep_view(), ResponseValueView::Empty)),
            ),
            response_sendable(plain_result(aux.deep_view(), ResponseValueView::Empty)),
    {
        self.respond(aux, None)
    }

    /// Answers with an error: `Erroneous`, the kind of error, the auxiliary
    /// values. No log lines travel with an error.
    pub fn respond_with_error(&mut self, error_type: RemoteErrorType, aux: &[GenericValueRef<'_>])
        requires
            old(self)@.state.allows(SubordinateOp::Respond),
        ensures
            final(self)@ == old(self)@.respond(wire_erroneous(error_type, aux.deep_view())),
            all_sendable(aux.deep_view()),
    {
        let ghost before = self.pipes;
        write_protocol(&mut self.pipes.writer, ProtocolConstant::Erroneous);
        write_err_type(&mut self.pipes.writer, error_type);
        write_generic_vec(&mut self.pipes.writer, aux);
        proof {
            let bytes = wire_erroneous(error_type, aux.deep_view());
            assert(self.pipes.writer@ =~= before.writer@ + bytes);
        }
        self.pipes.flush();
        self.state = SubordinateState::Listening;
    }
}

} // verus!
