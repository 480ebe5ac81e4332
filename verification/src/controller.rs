//! What the controller does: the handshake, the requests, the responses, the
//! shutdown.
//!
//! A request is written and flushed at once and leaves the controller in
//! flight; `read_response` brings it back once the whole response has been
//! fed. No second request can be issued in between.

use vstd::prelude::*;

use crate::codec::{
    read_protocol, write_bytes, write_generic_vec, write_protocol, write_string, write_u64,
};
use crate::endpoint::{ControllerOp, ControllerProcess, ControllerState, Pipes};
use crate::envelope::{
    call_request, define_data_request, define_function_request, free_data_request,
    free_function_request, lemma_parse_reply_used, parse_hello, parse_reply, peek_request,
    poke_request, request_sendable, shutdown_request, wire_request, Pending, ReplyView,
};
use crate::err::{Fault, IpcError};
use crate::protocol::{
    read_reply, DataToken, FunctionToken, ProtocolConstant, Response, ResponseValue,
};
use crate::serialization::GenericValueRef;

verus! {

impl ControllerProcess {
    /// Opens the handshake: sends `Hello`.
    pub fn hello(&mut self)
        requires
            old(self)@.state.allows(ControllerOp::Hello),
        ensures
            final(self)@ == old(self)@.hello(),
    {
        write_protocol(&mut self.pipes.writer, ProtocolConstant::Hello);
        self.pipes.flush();
        self.state = ControllerState::AwaitingHello;
    }

    /// Closes the handshake: reads the subordinate's `Hello`. Where it has
    /// not arrived yet nothing changes and the call can be made again; any
    /// other byte in its place loses the session.
    pub fn finish_hello(&mut self) -> (r: Result<(), IpcError>)
        requires
            old(self)@.state.allows(ControllerOp::FinishHello),
        ensures
            final(self)@ == old(self)@.finish_hello(),
            match parse_hello(old(self)@.pipes.unread) {
                Ok(_) => r is Ok,
                Err(f) => r matches Err(e) && e@ == f,
            },
    {
        let ghost before = self.pipes;
        match read_protocol(self.pipes.reader.as_slice(), self.pipes.consumed) {
            Ok((c, next)) => {
                match c.expect(ProtocolConstant::Hello) {
                    Ok(()) => {
                        self.pipes.consumed = next;
                        self.state = ControllerState::Ready;
                        proof {
                            Pipes::lemma_consumed(before, self.pipes, 1);
                        }
                        Ok(())
                    },
                    Err(e) => {
                        self.state = ControllerState::Failed;
                        Err(IpcError::Protocol(e))
                    },
                }
            },
            Err(e) => {
                match e {
                    IpcError::Incomplete { .. } => {},
                    _ => {
                        self.state = ControllerState::Failed;
                    },
                }
                Err(e)
            },
        }
    }

    /// Defines a function in the subordinate: mints its token and sends the
    /// function blob with the data that belongs to it.
    pub fn define_function(
        &mut self,
        function_blob: &[u8],
        associated_data: &[GenericValueRef<'_>],
        aux: &[GenericValueRef<'_>],
    ) -> (token: FunctionToken)
        requires
            old(self)@.state.allows(ControllerOp::Request),
            old(self)@.id_ctr < u64::MAX,
        ensures
            token.0 == old(self)@.id_ctr + 1,
            final(self)@ == old(self)@.mint().issue(
                define_function_request(
                    token,
                    function_blob@,
                    associated_data.deep_view(),
                    aux.deep_view(),
                ),
                Pending::Function(token),
            ),
            request_sendable(
                define_function_request(
                    token,
                    function_blob@,
                    associated_data.deep_view(),
                    aux.deep_view(),
                ),
            ),
    {
        self.id_ctr += 1;
        let token = self.id_ctr;
        let ghost before = self.pipes;
        write_protocol(&mut self.pipes.writer, ProtocolConstant::DefineFunction);
        write_u64(&mut self.pipes.writer, token);
        write_bytes(&mut self.pipes.writer, function_blob);
        write_generic_vec(&mut self.pipes.writer, associated_data);
        write_generic_vec(&mut self.pipes.writer, aux);
        proof {
            let r = define_function_request(
                FunctionToken(token),
                function_blob@,
                associated_data.deep_view(),
                aux.deep_view(),
            );
            assert(self.pipes.writer@ =~= before.writer@ + wire_request(r));
        }
        self.pipes.flush();
        self.state = ControllerState::InFlight(Pending::Function(FunctionToken(token)));
        FunctionToken(token)
    }

    /// Calls a function that the subordinate holds.
    pub fn call_function(
        &mut self,
        token: &FunctionToken,
        args: &[GenericValueRef<'_>],
        aux: &[GenericValueRef<'_>],
    )
        requires
            old(self)@.state.allows(ControllerOp::Request),
        ensures
            final(self)@ == old(self)@.issue(
                call_request(*token, args.deep_view(), aux.deep_view()),
                Pending::Values,
            ),
            request_sendable(call_request(*token, args.deep_view(), aux.deep_view())),
    {
        let ghost before = self.pipes;
        write_protocol(&mut self.pipes.writer, ProtocolConstant::Call);
        write_u64(&mut self.pipes.writer, token.0);
        write_generic_vec(&mut self.pipes.writer, args);
        write_generic_vec(&mut self.pipes.writer, aux);
        proof {
            let r = call_request(*token, args.deep_view(), aux.deep_view());
            assert(self.pipes.writer@ =~= before.writer@ + wire_request(r));
        }
        self.pipes.flush();
        self.state = ControllerState::InFlight(Pending::Values);
    }

    /// Frees a function that the subordinate holds.
    pub fn free_function(&mut self, token: &FunctionToken, aux: &[GenericValueRef<'_>])
        requires
            old(self)@.state.allows(ControllerOp::Request),
        ensures
            final(self)@ == old(self)@.issue(
                free_function_request(*token, aux.deep_view()),
                Pending::Empty,
            ),
            request_sendable(free_function_request(*token, aux.deep_view())),
    {
        let ghost before = self.pipes;
        write_protocol(&mut self.pipes.writer, ProtocolConstant::FreeFunction);
        write_u64(&mut self.pipes.writer, token.0);
        write_generic_vec(&mut self.pipes.writer, aux);
        proof {
            let r = free_function_request(*token, aux.deep_view());
            assert(self.pipes.writer@ =~= before.writer@ + wire_request(r));
        }
        self.pipes.flush();
        self.state = ControllerState::InFlight(Pending::Empty);
    }

    /// Defines data in the subordinate: mints its token and sends the
    /// values.
    pub fn define_data(&mut self, value: &[GenericValueRef<'_>], aux: &[GenericValueRef<'_>]) -> (token:
        DataToken)
        requires
            old(self)@.state.allows(ControllerOp::Request),
            old(self)@.id_ctr < u64::MAX,
        ensures
            token.0 == old(self)@.id_ctr + 1,
            final(self)@ == old(self)@.mint().issue(
                define_data_request(token, value.deep_view(), aux.deep_view()),
                Pending::Data(token),
            ),
            request_sendable(define_data_request(token, value.deep_view(), aux.deep_view())),
    {
        self.id_ctr += 1;
        let token = self.id_ctr;
        let ghost before = self.pipes;
        write_protocol(&mut self.pipes.writer, ProtocolConstant::DefineData);
        write_u64(&mut self.pipes.writer, token);
        write_generic_vec(&mut self.pipes.writer, value);
        write_generic_vec(&mut self.pipes.writer, aux);
        proof {
            let r = define_data_request(DataToken(token), value.deep_view(), aux.deep_view());
            assert(self.pipes.writer@ =~= before.writer@ + wire_request(r));
        }
        self.pipes.flush();
        self.state = ControllerState::InFlight(Pending::Data(DataToken(token)));
        DataToken(token)
    }

    /// Frees data that the subordinate holds.
    pub fn free_data(&mut self, token: &DataToken, aux: &[GenericValueRef<'_>])
        requires
            old(self)@.state.allows(ControllerOp::Request),
        ensures
            final(self)@ == old(self)@.issue(
                free_data_request(*token, aux.deep_view()),
                Pending::Empty,
            ),
            request_sendable(free_data_request(*token, aux.deep_view())),
    {
        let ghost before = self.pipes;
        write_protocol(&mut self.pipes.writer, ProtocolConstant::FreeData);
        write_u64(&mut self.pipes.writer, token.0);
        write_generic_vec(&mut self.pipes.writer, aux);
        proof {
            let r = free_data_request(*token, aux.deep_view());
            assert(self.pipes.writer@ =~= before.writer@ + wire_request(r));
        }
        self.pipes.flush();
        self.state = ControllerState::InFlight(Pending::Empty);
    }

    /// Asks for the values under a key.
    pub fn peek(&mut self, key: &str, aux: &[GenericValueRef<'_>])
        requires
            old(self)@.state.allows(ControllerOp::Request),
        ensures
            final(self)@ == old(self)@.issue(peek_request(key@, aux.deep_view()), Pending::Values),
            request_sendable(peek_request(key@, aux.deep_view())),
    {
        let ghost before = self.pipes;
        write_protocol(&mut self.pipes.writer, ProtocolConstant::Peek);
        write_string(&mut self.pipes.writer, key);
        write_generic_vec(&mut self.pipes.writer, aux);
        proof {
            let r = peek_request(key@, aux.deep_view());
            assert(self.pipes.writer@ =~= before.writer@ + wire_request(r));
        }
        self.pipes.flush();
        self.state = ControllerState::InFlight(Pending::Values);
    }

    /// Sets the values under a key.
    pub fn poke(&mut self, key: &str, value: &[GenericValueRef<'_>], aux: &[GenericValueRef<'_>])
        requires
            old(self)@.state.allows(ControllerOp::Request),
        ensures
            final(self)@ == old(self)@.issue(
                poke_request(key@, value.deep_view(), aux.deep_view()),
                Pending::Empty,
            ),
            request_sendable(poke_request(key@, value.deep_view(), aux.deep_view())),
    {
        let ghost before = self.pipes;
        write_protocol(&mut self.pipes.writer, ProtocolConstant::Poke);
        write_string(&mut self.pipes.writer, key);
        write_generic_vec(&mut self.pipes.writer, value);
        write_generic_vec(&mut self.pipes.writer, aux);
        proof {
            let r = poke_request(key@, value.deep_view(), aux.deep_view());
            assert(self.pipes.writer@ =~= before.writer@ + wire_request(r));
        }
        self.pipes.flush();
        self.state = ControllerState::InFlight(Pending::Empty);
    }

    /// Reads the response to the request in flight. Where it has not all
    /// arrived yet nothing changes and the call can be made again. An error
    /// that the subordinate reports comes back as `IpcError::Remote` and
    /// leaves the session usable; a breach of the format loses it.
    pub fn read_response(&mut self) -> (r: Result<Response<ResponseValue>, IpcError>)
        requires
            old(self)@.state.allows(ControllerOp::ReadResponse),
        ensures
            final(self)@ == old(self)@.read_response(old(self)@.state->InFlight_0),
            match parse_reply(old(self)@.state->InFlight_0, old(self)@.pipes.unread) {
                Ok((ReplyView::Result(v), _)) => r matches Ok(x) && x.deep_view() == v,
                Ok((ReplyView::Erroneous(v), _)) => r matches Err(e) && e@ == Fault::Remote(v),
                Err(f) => r matches Err(e) && e@ == f,
            },
    {
        let ghost before = self.pipes;
        let pending = match self.state {
            ControllerState::InFlight(p) => p,
            _ => Pending::Empty,
        };
        proof {
            lemma_parse_reply_used(pending, before@.unread);
        }
        match read_reply(self.pipes.reader.as_slice(), self.pipes.consumed, pending) {
            Ok((reply, next)) => {
                self.pipes.consumed = next;
                self.state = ControllerState::Ready;
                proof {
                    Pipes::lemma_consumed(
                        before,
                        self.pipes,
                        (next - before.consumed) as nat,
                    );
                }
                match reply {
                    Ok(response) => Ok(response),
                    Err(remote) => Err(IpcError::Remote(remote)),
                }
            },
            Err(e) => {
                match e {
                    IpcError::Incomplete { .. } => {},
                    _ => {
                        self.state = ControllerState::Failed;
                    },
                }
                Err(e)
            },
        }
    }

    /// Ends the session: sends `Goodbye` with the auxiliary values. No
    /// response follows; the subordinate exits.
    pub fn shutdown(&mut self, aux: &[GenericValueRef<'_>])
        requires
            old(self)@.state.allows(ControllerOp::Shutdown),
        ensures
            final(self)@ == old(self)@.shutdown(aux.deep_view()),
            request_sendable(shutdown_request(aux.deep_view())),
    {
        let ghost before = self.pipes;
        write_protocol(&mut self.pipes.writer, ProtocolConstant::Goodbye);
        write_generic_vec(&mut self.pipes.writer, aux);
        proof {
            let r = shutdown_request(aux.deep_view());
            assert(self.pipes.writer@ =~= before.writer@ + wire_request(r));
        }
        self.pipes.flush();
        self.state = ControllerState::ShuttingDown;
    }

    /// The subordinate has exited after the shutdown: the session is over.
    pub fn child_exited(&mut self)
        requires
            old(self)@.state.allows(ControllerOp::ChildExited),
        ensures
            final(self)@ == old(self)@.child_exited(),
    {
        self.state = ControllerState::Terminated;
    }
}

} // verus!
