//! The connection handler as a state machine: from the handler's state and
//! what just happened on the socket or the relay, the next state and what to
//! do next. The loop that performs the actions lives with the sockets.
use crossbeam_channel::Receiver;
use vstd::prelude::*;
use vstd::string::StringSliceAdditionalSpecFns;

use crate::codec::{push_bytes, Frame};
use crate::relay::recv_frame;

verus! {

/// The HTTP status line and content type written once, before any frame.
pub open spec fn preamble() -> Seq<u8> {
    "HTTP/1.1 200 OK\r\nContent-Type: multipart/x-mixed-replace;boundary=MJPEGBOUNDARY\r\n".spec_bytes()
}

#[derive(Debug, PartialEq, Eq, Clone, Copy, Structural)]
pub enum ConnState {
    /// The preamble is being written.
    Handshake,
    /// Frames are being received from the relay and written out.
    Streaming,
    /// The socket is presumed broken; the handler is done.
    Terminated,
}

/// Why a receive gave no frame. Neither ends the connection.
#[derive(Debug, PartialEq, Eq, Clone, Copy, Structural)]
pub enum Failure {
    /// The relay's sending side is gone.
    ChannelClosed,
    /// The lock on the shared receiving handle is poisoned.
    LockPoisoned,
}

/// What happened after the last action.
pub enum Event {
    /// The bytes of the last `Write` went out and were flushed.
    Written,
    /// Writing or flushing failed.
    WriteFailed,
    /// The relay handed this connection a frame.
    Received(Frame),
    /// The receive gave no frame.
    ReceiveFailed(Failure),
}

/// What the handler does next.
pub enum Action {
    /// Write these bytes to the socket and flush.
    Write(Vec<u8>),
    /// Take the lock on the shared receiving handle and receive a frame.
    Receive,
    /// Report the failure, then receive again.
    Retry(Failure),
    /// Stop and release the socket.
    Close,
}

/// The mathematical counterpart of an `Action`.
pub ghost enum ActionView {
    Write(Seq<u8>),
    Receive,
    Retry(Failure),
    Close,
}

impl Action {
    pub open spec fn view(&self) -> ActionView {
        match self {
            Action::Write(b) => ActionView::Write(b@),
            Action::Receive => ActionView::Receive,
            Action::Retry(f) => ActionView::Retry(*f),
            Action::Close => ActionView::Close,
        }
    }
}

/// The handler's transition: a failed write ends the connection, a failed
/// receive is retried, a received frame is written out as header then body.
/// An event that the state did not wait for ends the connection.
pub open spec fn transition(s: ConnState, e: Event) -> (ConnState, ActionView) {
    match (s, e) {
        (ConnState::Handshake, Event::Written) => (ConnState::Streaming, ActionView::Receive),
        (ConnState::Streaming, Event::Written) => (ConnState::Streaming, ActionView::Receive),
        (ConnState::Streaming, Event::Received(f)) => (
            ConnState::Streaming,
            ActionView::Write(f.wire()),
        ),
        (ConnState::Streaming, Event::ReceiveFailed(why)) => (
            ConnState::Streaming,
            ActionView::Retry(why),
        ),
        _ => (ConnState::Terminated, ActionView::Close),
    }
}

/// The state in which a new connection starts, and its first action: write
/// the preamble.
pub fn start() -> (r: (ConnState, Action))
    ensures
        r.0 == ConnState::Handshake,
        r.1@ == ActionView::Write(preamble()),
{
    let mut out: Vec<u8> = Vec::new();
    push_bytes(
        &mut out,
        "HTTP/1.1 200 OK\r\nContent-Type: multipart/x-mixed-replace;boundary=MJPEGBOUNDARY\r\n".as_bytes(),
    );
    (ConnState::Handshake, Action::Write(out))
}

/// The next state and action of a handler in state `s` after event `e`.
pub fn step(s: ConnState, e: Event) -> (r: (ConnState, Action))
    ensures
        (r.0, r.1@) == transition(s, e),
{
    match (s, e) {
        (ConnState::Handshake, Event::Written) => (ConnState::Streaming, Action::Receive),
        (ConnState::Streaming, Event::Written) => (ConnState::Streaming, Action::Receive),
        (ConnState::Streaming, Event::Received(f)) => (
            ConnState::Streaming,
            Action::Write(f.wire_bytes()),
        ),
        (ConnState::Streaming, Event::ReceiveFailed(why)) => (
            ConnState::Streaming,
            Action::Retry(why),
        ),
        _ => (ConnState::Terminated, Action::Close),
    }
}

/// Receives the next frame from the shared handle (which the caller has
/// locked) and reports it as an event: the frame, or a closed channel.
pub fn receive(rx: &Receiver<Frame>) -> (e: Event)
    ensures
        e is Received || e == Event::ReceiveFailed(Failure::ChannelClosed),
{
    match recv_frame(rx) {
        Some(f) => Event::Received(f),
        None => Event::ReceiveFailed(Failure::ChannelClosed),
    }
}

/// The bytes that an action writes to the socket.
pub open spec fn bytes_written(a: ActionView) -> Seq<u8> {
    match a {
        ActionView::Write(b) => b,
        _ => Seq::empty(),
    }
}

/// Runs the handler from state `s` through the events `es`: the final state
/// and every byte written on the way, in order.
pub open spec fn run(s: ConnState, es: Seq<Event>) -> (ConnState, Seq<u8>)
    decreases es.len(),
{
    if es.len() == 0 {
        (s, Seq::empty())
    } else {
        let (s1, w) = run(s, es.drop_last());
        let (s2, a) = transition(s1, es.last());
        (s2, w + bytes_written(a))
    }
}

/// The events of a connection that receives each of `fs` in turn and writes
/// each one out successfully.
pub open spec fn delivery(fs: Seq<Frame>) -> Seq<Event>
    decreases fs.len(),
{
    if fs.len() == 0 {
        Seq::empty()
    } else {
        delivery(fs.drop_last()).push(Event::Received(fs.last())).push(Event::Written)
    }
}

/// The wire bytes of `fs`, one frame after the other.
pub open spec fn wire_of_all(fs: Seq<Frame>) -> Seq<u8>
    decreases fs.len(),
{
    if fs.len() == 0 {
        Seq::empty()
    } else {
        wire_of_all(fs.drop_last()) + fs.last().wire()
    }
}

/// A streaming connection writes exactly the frames it receives, each once,
/// in the order received, header before body, and keeps streaming.
pub proof fn lemma_delivery_in_order(fs: Seq<Frame>)
    ensures
        run(ConnState::Streaming, delivery(fs)) == (ConnState::Streaming, wire_of_all(fs)),
    decreases fs.len(),
{
    if fs.len() > 0 {
        lemma_delivery_in_order(fs.drop_last());
        let es = delivery(fs);
        let prev = delivery(fs.drop_last());
        assert(es.drop_last() == prev.push(Event::Received(fs.last())));
        assert(es.drop_last().drop_last() == prev);
        assert(run(ConnState::Streaming, es.drop_last()) == (
            ConnState::Streaming,
            wire_of_all(fs.drop_last()) + fs.last().wire(),
        ));
        assert(wire_of_all(fs.drop_last()) + fs.last().wire() + Seq::<u8>::empty()
            == wire_of_all(fs));
    }
}

/// Once a connection has terminated, nothing brings it back or writes to it.
pub proof fn lemma_terminated_stays(es: Seq<Event>)
    ensures
        run(ConnState::Terminated, es) == (ConnState::Terminated, Seq::<u8>::empty()),
    decreases es.len(),
{
    if es.len() > 0 {
        lemma_terminated_stays(es.drop_last());
        assert(Seq::<u8>::empty() + Seq::<u8>::empty() == Seq::<u8>::empty());
    }
}

} // verus!
