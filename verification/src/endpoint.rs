//! The two ends of a session, free of any transport.
//!
//! An endpoint never touches a pipe. What has arrived is handed to it with
//! `feed`; what it wants sent is picked up with `take_outbound`. Whoever owns
//! the pipes moves the bytes.

use vstd::prelude::*;

use crate::envelope::{
    parse_hello, parse_reply, parse_request, shutdown_request, wire_request, Pending, RequestView,
};
use crate::err::Fault;
use crate::protocol::ProtocolConstant;
use crate::wire::{unread, Parse, Value};

verus! {

/// An endpoint's side of its two pipes: the bytes that have arrived and were
/// not read yet, and the bytes that were written and not picked up yet.
///
/// `consumed` never passes the end of `reader`. Nothing relies on that: a
/// position behind the end counts as the end.
pub struct Pipes {
    /// What has arrived, read or not.
    pub(crate) reader: Vec<u8>,
    /// How many of the bytes in `reader` have been read.
    pub(crate) consumed: usize,
    /// What was written and not flushed yet.
    pub(crate) writer: Vec<u8>,
    /// What was flushed and not picked up yet.
    pub(crate) outbound: Vec<u8>,
}

/// An endpoint's side of its two pipes, as mathematical values.
pub struct PipesView {
    /// Arrived and not read yet, oldest byte first.
    pub unread: Seq<u8>,
    /// Flushed and not picked up yet: what the transport is to send next.
    pub outbound: Seq<u8>,
    /// Written and not flushed yet.
    pub staged: Seq<u8>,
}

impl PipesView {
    /// Pipes through which nothing has gone yet.
    pub open spec fn empty() -> PipesView {
        PipesView { unread: Seq::empty(), outbound: Seq::empty(), staged: Seq::empty() }
    }

    /// `data` has arrived.
    pub open spec fn feed(self, data: Seq<u8>) -> PipesView {
        PipesView { unread: self.unread + data, ..self }
    }

    /// The first `n` unread bytes have been read.
    pub open spec fn consume(self, n: nat) -> PipesView {
        PipesView { unread: self.unread.skip(n as int), ..self }
    }

    /// `data` has been written.
    pub open spec fn write(self, data: Seq<u8>) -> PipesView {
        PipesView { staged: self.staged + data, ..self }
    }

    /// All that was written has been flushed.
    pub open spec fn flush(self) -> PipesView {
        PipesView { outbound: self.outbound + self.staged, staged: Seq::empty(), ..self }
    }

    /// `data` has been written, and all that was written has been flushed:
    /// a whole message goes out at once.
    pub open spec fn send(self, data: Seq<u8>) -> PipesView {
        self.write(data).flush()
    }

    /// What was flushed has been picked up.
    pub open spec fn take_outbound(self) -> PipesView {
        PipesView { outbound: Seq::empty(), ..self }
    }
}

impl View for Pipes {
    type V = PipesView;

    open(crate) spec fn view(&self) -> PipesView {
        PipesView {
            unread: unread(self.reader@, self.consumed as int),
            outbound: self.outbound@,
            staged: self.writer@,
        }
    }
}

impl Pipes {
    /// Moving on by `k` bytes that are there is reading `k` bytes.
    pub(crate) proof fn lemma_consumed(before: Pipes, after: Pipes, k: nat)
        requires
            after.reader == before.reader,
            after.consumed == before.consumed + k,
            after.outbound == before.outbound,
            after.writer == before.writer,
            k <= before@.unread.len(),
        ensures
            after@ == before@.consume(k),
    {
        assert(after@.unread =~= before@.unread.skip(k as int));
    }

    /// Pipes through which nothing has gone yet.
    pub fn new() -> (p: Pipes)
        ensures
            p@ == PipesView::empty(),
    {
        let p = Pipes { reader: Vec::new(), consumed: 0, writer: Vec::new(), outbound: Vec::new() };
        assert(p@.unread =~= Seq::<u8>::empty());
        p
    }

    /// Takes in bytes that have arrived from the peer.
    pub fn feed(&mut self, data: &[u8])
        ensures
            final(self)@ == old(self)@.feed(data@),
    {
        if self.consumed >= self.reader.len() {
            self.reader.clear();
            self.consumed = 0;
        }
        self.reader.extend_from_slice(data);
        assert(self@.unread =~= old(self)@.unread + data@);
    }

    /// The number of bytes that have arrived and were not read yet.
    pub fn unread_len(&self) -> (n: usize)
        ensures
            n == self@.unread.len(),
    {
        if self.consumed <= self.reader.len() {
            self.reader.len() - self.consumed
        } else {
            0
        }
    }

    /// Marks all that was written as ready to be sent.
    pub fn flush(&mut self)
        ensures
            final(self)@ == old(self)@.flush(),
    {
        self.outbound.append(&mut self.writer);
    }

    /// Hands out the bytes that are ready to be sent, oldest first, and
    /// forgets them.
    pub fn take_outbound(&mut self) -> (bytes: Vec<u8>)
        ensures
            bytes@ == old(self)@.outbound,
            final(self)@ == old(self)@.take_outbound(),
    {
        let mut bytes: Vec<u8> = Vec::new();
        core::mem::swap(&mut self.outbound, &mut bytes);
        bytes
    }
}

/// Where the controller stands in a session.
#[derive(Debug, Copy, Clone, PartialEq, Eq, Structural)]
pub enum ControllerState {
    /// Nothing was sent yet.
    Unstarted,
    /// `Hello` was sent and the subordinate's `Hello` is awaited.
    AwaitingHello,
    /// The next request can be issued.
    Ready,
    /// A request was issued and its response, of this shape, is awaited.
    InFlight(Pending),
    /// `Goodbye` was sent and the subordinate is to exit.
    ShuttingDown,
    /// The subordinate has exited after a shutdown.
    Terminated,
    /// The stream broke; the session is lost.
    Failed,
}

/// What a controller can be asked to do to the conversation.
#[derive(Debug, Copy, Clone, PartialEq, Eq, Structural)]
pub enum ControllerOp {
    /// Open the handshake.
    Hello,
    /// Close the handshake.
    FinishHello,
    /// Issue a request.
    Request,
    /// Read the response to the request in flight.
    ReadResponse,
    /// End the session.
    Shutdown,
    /// Take note that the subordinate has exited.
    ChildExited,
}

impl ControllerState {
    /// Whether an operation is valid in this state. Each operation has one
    /// state in which it is; in `Terminated` and in `Failed` none is.
    pub open spec fn allows(self, op: ControllerOp) -> bool {
        match op {
            ControllerOp::Hello => self == ControllerState::Unstarted,
            ControllerOp::FinishHello => self == ControllerState::AwaitingHello,
            ControllerOp::Request => self == ControllerState::Ready,
            ControllerOp::ReadResponse => self is InFlight,
            ControllerOp::Shutdown => self == ControllerState::Ready,
            ControllerOp::ChildExited => self == ControllerState::ShuttingDown,
        }
    }

    /// Whether an operation is valid in this state.
    pub fn can(self, op: ControllerOp) -> (b: bool)
        ensures
            b == self.allows(op),
    {
        match op {
            ControllerOp::Hello => self == ControllerState::Unstarted,
            ControllerOp::FinishHello => self == ControllerState::AwaitingHello,
            ControllerOp::Request => self == ControllerState::Ready,
            ControllerOp::ReadResponse => match self {
                ControllerState::InFlight(_) => true,
                _ => false,
            },
            ControllerOp::Shutdown => self == ControllerState::Ready,
            ControllerOp::ChildExited => self == ControllerState::ShuttingDown,
        }
    }
}

/// Where the subordinate stands in a session.
#[derive(Debug, Copy, Clone, PartialEq, Eq, Structural)]
pub enum SubordinateState {
    /// Nothing was read yet.
    Unconnected,
    /// The controller's `Hello` is awaited.
    AwaitingHello,
    /// The next request is awaited.
    Listening,
    /// A request was received and is to be answered.
    Handling,
    /// `Goodbye` was received: the session is over.
    Shutdown,
    /// The stream broke; the session is lost.
    Failed,
}

/// What a subordinate can be asked to do to the conversation.
#[derive(Debug, Copy, Clone, PartialEq, Eq, Structural)]
pub enum SubordinateOp {
    /// Take part in the handshake.
    Hello,
    /// Receive the next request.
    RecvCommand,
    /// Answer the request at hand.
    Respond,
}

impl SubordinateState {
    /// Whether an operation is valid in this state. In `Shutdown` and in
    /// `Failed` none is.
    pub open spec fn allows(self, op: SubordinateOp) -> bool {
        match op {
            SubordinateOp::Hello => self == SubordinateState::Unconnected || self
                == SubordinateState::AwaitingHello,
            SubordinateOp::RecvCommand => self == SubordinateState::Listening,
            SubordinateOp::Respond => self == SubordinateState::Handling,
        }
    }

    /// Whether an operation is valid in this state.
    pub fn can(self, op: SubordinateOp) -> (b: bool)
        ensures
            b == self.allows(op),
    {
        match op {
            SubordinateOp::Hello => self == SubordinateState::Unconnected || self
                == SubordinateState::AwaitingHello,
            SubordinateOp::RecvCommand => self == SubordinateState::Listening,
            SubordinateOp::Respond => self == SubordinateState::Handling,
        }
    }
}

/// The controller's end of a session: the state of the conversation, the
/// counter from which tokens are minted, and the bytes on their way.
pub struct ControllerProcess {
    pub(crate) pipes: Pipes,
    pub(crate) id_ctr: u64,
    pub(crate) state: ControllerState,
}

/// The controller's end as mathematical values.
pub struct ControllerView {
    pub pipes: PipesView,
    /// The token that was minted last; 0 where none was.
    pub id_ctr: u64,
    pub state: ControllerState,
}

impl View for ControllerProcess {
    type V = ControllerView;

    open(crate) spec fn view(&self) -> ControllerView {
        ControllerView { pipes: self.pipes@, id_ctr: self.id_ctr, state: self.state }
    }
}

/// The subordinate's end of a session: the state of the conversation and the
/// bytes on their way.
pub struct SubordinateProcess {
    pub(crate) pipes: Pipes,
    pub(crate) state: SubordinateState,
}

/// The subordinate's end as mathematical values.
pub struct SubordinateView {
    pub pipes: PipesView,
    pub state: SubordinateState,
}

impl View for SubordinateProcess {
    type V = SubordinateView;

    open(crate) spec fn view(&self) -> SubordinateView {
        SubordinateView { pipes: self.pipes@, state: self.state }
    }
}

impl ControllerView {
    /// A controller that has not begun.
    pub open spec fn new() -> ControllerView {
        ControllerView { pipes: PipesView::empty(), id_ctr: 0, state: ControllerState::Unstarted }
    }

    /// `data` has arrived from the subordinate.
    pub open spec fn feed(self, data: Seq<u8>) -> ControllerView {
        ControllerView { pipes: self.pipes.feed(data), ..self }
    }

    /// What was flushed has been picked up by the transport.
    pub open spec fn take_outbound(self) -> ControllerView {
        ControllerView { pipes: self.pipes.take_outbound(), ..self }
    }

    /// All that was written has been flushed.
    pub open spec fn flush(self) -> ControllerView {
        ControllerView { pipes: self.pipes.flush(), ..self }
    }

    /// The transport has failed.
    pub open spec fn fail(self) -> ControllerView {
        ControllerView { state: ControllerState::Failed, ..self }
    }

    /// `Hello` is sent.
    pub open spec fn hello(self) -> ControllerView {
        ControllerView {
            pipes: self.pipes.send(seq![ProtocolConstant::Hello.byte()]),
            state: ControllerState::AwaitingHello,
            ..self
        }
    }

    /// What reading does to the controller where the unread bytes parse as
    /// `p`: a message that is all there is taken and the controller is ready
    /// again; one that is not all there is left alone; a breach of the
    /// format loses the session.
    pub open spec fn after_read<T>(self, p: Parse<T>) -> ControllerView {
        match p {
            Ok((_, k)) => ControllerView {
                pipes: self.pipes.consume(k),
                state: ControllerState::Ready,
                ..self
            },
            Err(Fault::Incomplete { .. }) => self,
            Err(_) => ControllerView { state: ControllerState::Failed, ..self },
        }
    }

    /// The subordinate's `Hello` is read.
    pub open spec fn finish_hello(self) -> ControllerView {
        self.after_read(parse_hello(self.pipes.unread))
    }

    /// The next token is minted: the counter goes up by one.
    pub open spec fn mint(self) -> ControllerView {
        ControllerView { id_ctr: (self.id_ctr + 1) as u64, ..self }
    }

    /// The request `r` is sent, and a response of the shape `pending` is
    /// awaited.
    pub open spec fn issue(self, r: RequestView, pending: Pending) -> ControllerView {
        ControllerView {
            pipes: self.pipes.send(wire_request(r)),
            state: ControllerState::InFlight(pending),
            ..self
        }
    }

    /// The response of the shape `pending` is read.
    pub open spec fn read_response(self, pending: Pending) -> ControllerView {
        self.after_read(parse_reply(pending, self.pipes.unread))
    }

    /// `Goodbye` is sent with the auxiliary values `aux`.
    pub open spec fn shutdown(self, aux: Seq<Value>) -> ControllerView {
        ControllerView {
            pipes: self.pipes.send(wire_request(shutdown_request(aux))),
            state: ControllerState::ShuttingDown,
            ..self
        }
    }

    /// The subordinate has exited.
    pub open spec fn child_exited(self) -> ControllerView {
        ControllerView { state: ControllerState::Terminated, ..self }
    }
}

impl SubordinateView {
    /// A subordinate that has not begun.
    pub open spec fn new() -> SubordinateView {
        SubordinateView { pipes: PipesView::empty(), state: SubordinateState::Unconnected }
    }

    /// `data` has arrived from the controller.
    pub open spec fn feed(self, data: Seq<u8>) -> SubordinateView {
        SubordinateView { pipes: self.pipes.feed(data), ..self }
    }

    /// What was flushed has been picked up by the transport.
    pub open spec fn take_outbound(self) -> SubordinateView {
        SubordinateView { pipes: self.pipes.take_outbound(), ..self }
    }

    /// All that was written has been flushed.
    pub open spec fn flush(self) -> SubordinateView {
        SubordinateView { pipes: self.pipes.flush(), ..self }
    }

    /// The transport has failed.
    pub open spec fn fail(self) -> SubordinateView {
        SubordinateView { state: SubordinateState::Failed, ..self }
    }

    /// The handshake as far as the bytes at hand allow: once the
    /// controller's `Hello` is there it is taken and answered with `Hello`;
    /// anything else in its place ends the session.
    pub open spec fn hello(self) -> SubordinateView {
        match parse_hello(self.pipes.unread) {
            Ok((_, k)) => SubordinateView {
                pipes: self.pipes.consume(k).send(seq![ProtocolConstant::Hello.byte()]),
                state: SubordinateState::Listening,
            },
            Err(Fault::Incomplete { .. }) => SubordinateView {
                state: SubordinateState::AwaitingHello,
                ..self
            },
            Err(_) => SubordinateView { state: SubordinateState::Failed, ..self },
        }
    }

    /// The next request is taken once all of it is there. `Goodbye` ends the
    /// session; a breach of the format loses it.
    pub open spec fn recv_command(self) -> SubordinateView {
        match parse_request(self.pipes.unread) {
            Ok((r, k)) => SubordinateView {
                pipes: self.pipes.consume(k),
                state: if r.command is Shutdown {
                    SubordinateState::Shutdown
                } else {
                    SubordinateState::Handling
                },
            },
            Err(Fault::Incomplete { .. }) => self,
            Err(_) => SubordinateView { state: SubordinateState::Failed, ..self },
        }
    }

    /// The request at hand is answered with `bytes`.
    pub open spec fn respond(self, bytes: Seq<u8>) -> SubordinateView {
        SubordinateView { pipes: self.pipes.send(bytes), state: SubordinateState::Listening }
    }
}

impl ControllerProcess {
    /// A controller that has not begun: no token minted, nothing on its way.
    pub fn new() -> (c: ControllerProcess)
        ensures
            c@ == ControllerView::new(),
    {
        ControllerProcess { pipes: Pipes::new(), id_ctr: 0, state: ControllerState::Unstarted }
    }

    /// Where the controller stands.
    pub fn state(&self) -> (s: ControllerState)
        ensures
            s == self@.state,
    {
        self.state
    }

    /// The token that was minted last; 0 where none was.
    pub fn last_token(&self) -> (t: u64)
        ensures
            t == self@.id_ctr,
    {
        self.id_ctr
    }
}

impl SubordinateProcess {
    /// A subordinate that has not begun: nothing on its way.
    pub fn new() -> (s: SubordinateProcess)
        ensures
            s@ == SubordinateView::new(),
    {
        SubordinateProcess { pipes: Pipes::new(), state: SubordinateState::Unconnected }
    }

    /// Where the subordinate stands.
    pub fn state(&self) -> (s: SubordinateState)
        ensures
            s == self@.state,
    {
        self.state
    }
}

/// What the two ends of a session have in common for whoever moves their
/// bytes: each has its side of two pipes, takes in what has arrived, hands
/// out what is to be sent, and is lost when the transport fails.
pub trait Endpoint {
    /// The endpoint's side of its two pipes, as mathematical values.
    spec fn pipes_view(&self) -> PipesView;

    /// Whether the session is lost.
    spec fn failed(&self) -> bool;

    /// The endpoint's side of its two pipes.
    fn pipes(&self) -> (p: &Pipes)
        ensures
            p@ == self.pipes_view(),
    ;

    /// Takes in bytes that have arrived from the peer.
    fn feed(&mut self, data: &[u8])
        ensures
            final(self).pipes_view() == old(self).pipes_view().feed(data@),
            final(self).failed() == old(self).failed(),
    ;

    /// Marks all that was written as ready to be sent. Every operation that
    /// writes a message does so itself once the message is whole.
    fn flush(&mut self)
        ensures
            final(self).pipes_view() == old(self).pipes_view().flush(),
            final(self).failed() == old(self).failed(),
    ;

    /// Hands out the bytes that are ready to be sent, oldest first, and
    /// forgets them.
    fn take_outbound(&mut self) -> (bytes: Vec<u8>)
        ensures
            bytes@ == old(self).pipes_view().outbound,
            final(self).pipes_view() == old(self).pipes_view().take_outbound(),
            final(self).failed() == old(self).failed(),
    ;

    /// The transport has failed: the session is lost.
    fn fail(&mut self)
        ensures
            final(self).pipes_view() == old(self).pipes_view(),
            final(self).failed(),
    ;
}

impl Endpoint for ControllerProcess {
    open spec fn pipes_view(&self) -> PipesView {
        self@.pipes
    }

    open spec fn failed(&self) -> bool {
        self@.state == ControllerState::Failed
    }

    fn pipes(&self) -> (p: &Pipes) {
        &self.pipes
    }

    fn feed(&mut self, data: &[u8])
        ensures
            final(self)@ == old(self)@.feed(data@),
    {
        self.pipes.feed(data);
    }

    fn flush(&mut self)
        ensures
            final(self)@ == old(self)@.flush(),
    {
        self.pipes.flush();
    }

    fn take_outbound(&mut self) -> (bytes: Vec<u8>)
        ensures
            final(self)@ == old(self)@.take_outbound(),
    {
        self.pipes.take_outbound()
    }

    fn fail(&mut self)
        ensures
            final(self)@ == old(self)@.fail(),
    {
        self.state = ControllerState::Failed;
    }
}

impl Endpoint for SubordinateProcess {
    open spec fn pipes_view(&self) -> PipesView {
        self@.pipes
    }

    open spec fn failed(&self) -> bool {
        self@.state == SubordinateState::Failed
    }

    fn pipes(&self) -> (p: &Pipes) {
        &self.pipes
    }

    fn feed(&mut self, data: &[u8])
        ensures
            final(self)@ == old(self)@.feed(data@),
    {
        self.pipes.feed(data);
    }

    fn flush(&mut self)
        ensures
            final(self)@ == old(self)@.flush(),
    {
        self.pipes.flush();
    }

    fn take_outbound(&mut self) -> (bytes: Vec<u8>)
        ensures
            final(self)@ == old(self)@.take_outbound(),
    {
        self.pipes.take_outbound()
    }

    fn fail(&mut self)
        ensures
            final(self)@ == old(self)@.fail(),
    {
        self.state = SubordinateState::Failed;
    }
}

} // verus!
