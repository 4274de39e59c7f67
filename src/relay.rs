//! Frame relay: a single-slot hand-off from one producer to the pool of
//! connections, over a bounded crossbeam channel.
use std::sync::{Arc, Mutex};

use crossbeam_channel::{Receiver, Sender};
use vstd::prelude::*;

use crate::codec::Frame;

verus! {

/// How many frames the relay holds at most: one in-flight slot.
pub const SLOT_CAPACITY: usize = 1;

#[verifier::external_type_specification]
#[verifier::external_body]
#[verifier::reject_recursive_types(T)]
pub struct ExSender<T>(crossbeam_channel::Sender<T>);

#[verifier::external_type_specification]
#[verifier::external_body]
#[verifier::reject_recursive_types(T)]
pub struct ExReceiver<T>(crossbeam_channel::Receiver<T>);

#[verifier::external_type_specification]
#[verifier::external_body]
#[verifier::reject_recursive_types(T)]
pub struct ExMutex<T: ?Sized>(std::sync::Mutex<T>);

/// Relies on std's `Mutex::new`, which wraps a value in an unlocked mutex.
pub assume_specification<T>[ std::sync::Mutex::<T>::new ](t: T) -> Mutex<T>;

/// A blocking publish failed because every receiving handle is gone; it
/// carries back the payload.
#[derive(Debug, PartialEq, Eq)]
pub struct SendError<T>(pub T);

/// A non-blocking publish failed; each variant carries back the payload.
#[derive(Debug, PartialEq, Eq)]
pub enum TrySendError<T> {
    /// The slot still holds a frame that no connection has taken.
    Full(T),
    /// Every receiving handle is gone.
    Disconnected(T),
}

/// The number of messages that the channel of `s` was made to hold at most.
pub uninterp spec fn capacity_of(s: Sender<Frame>) -> nat;

/// Relies on `crossbeam_channel::bounded`: a channel that holds at most `cap`
/// messages (`Sender::capacity` then gives `Some(cap)`). Capacities that
/// would make its index arithmetic overflow panic there, so they are left
/// out.
#[verifier::external_body]
fn bounded_channel(cap: usize) -> (r: (Sender<Frame>, Receiver<Frame>))
    requires
        cap <= usize::MAX / 4,
    ensures
        capacity_of(r.0) == cap,
{
    crossbeam_channel::bounded(cap)
}

/// Relies on `Sender::send`: blocks until the message is placed, or hands the
/// same message back once the channel is disconnected.
#[verifier::external_body]
fn send_frame(s: &Sender<Frame>, f: Frame) -> (r: Result<(), Frame>)
    ensures
        r matches Err(g) ==> g == f,
{
    s.send(f).map_err(|e| e.0)
}

/// Relies on `Sender::try_send`: places the message without waiting, or hands
/// the same message back, telling a full channel from a disconnected one.
#[verifier::external_body]
fn try_send_frame(s: &Sender<Frame>, f: Frame) -> (r: Result<(), TrySendError<Frame>>)
    ensures
        r matches Err(TrySendError::Full(g)) ==> g == f,
        r matches Err(TrySendError::Disconnected(g)) ==> g == f,
{
    s.try_send(f).map_err(
        |e| match e {
            crossbeam_channel::TrySendError::Full(g) => TrySendError::Full(g),
            crossbeam_channel::TrySendError::Disconnected(g) => TrySendError::Disconnected(g),
        },
    )
}

/// Relies on `Sender::is_full`: whether the channel holds as many messages as
/// it can at the moment of the call. Other threads may change that at any
/// time, so nothing is stated of the result.
#[verifier::external_body]
fn sender_is_full(s: &Sender<Frame>) -> bool {
    s.is_full()
}

/// Relies on `Receiver::recv`: blocks until a message arrives (`Some`), or
/// gives `None` once the channel is empty and disconnected. Which message
/// arrives depends on other threads, so nothing is stated of it.
#[verifier::external_body]
pub(crate) fn recv_frame(r: &Receiver<Frame>) -> Option<Frame> {
    r.recv().ok()
}

/// What a blocking publish reports, given what the channel did with the
/// frame: success, or the undelivered payload.
pub fn publish_outcome(res: Result<(), Frame>) -> (r: Result<(), SendError<Vec<u8>>>)
    ensures
        res is Ok <==> r is Ok,
        res matches Err(f) ==> r matches Err(SendError(b)) && b@ == f.body@,
{
    match res {
        Ok(()) => Ok(()),
        Err(f) => Err(SendError(f.body)),
    }
}

/// What a non-blocking publish reports, given what the channel did with the
/// frame: success, or the same kind of failure carrying the payload.
pub fn try_publish_outcome(res: Result<(), TrySendError<Frame>>) -> (r: Result<(), TrySendError<Vec<u8>>>)
    ensures
        res is Ok <==> r is Ok,
        res matches Err(TrySendError::Full(f)) ==> r matches Err(TrySendError::Full(b)) && b@ == f.body@,
        res matches Err(TrySendError::Disconnected(f)) ==> r matches Err(TrySendError::Disconnected(b)) && b@ == f.body@,
{
    match res {
        Ok(()) => Ok(()),
        Err(TrySendError::Full(f)) => Err(TrySendError::Full(f.body)),
        Err(TrySendError::Disconnected(f)) => Err(TrySendError::Disconnected(f.body)),
    }
}

/// The stream publisher: the sending side of the relay, and its single
/// receiving handle, shared by every connection behind a lock. A frame that
/// is published goes to exactly one connection: whichever takes the lock and
/// receives it first.
pub struct MJpeg {
    send: Sender<Frame>,
    recv: Arc<Mutex<Receiver<Frame>>>,
}

impl MJpeg {
    /// How many frames the relay holds at most.
    pub closed spec fn slot_capacity(&self) -> nat {
        capacity_of(self.send)
    }

    /// A publisher with an empty single-slot relay.
    pub fn new() -> (r: MJpeg)
        ensures
            r.slot_capacity() == 1,
    {
        let (send, recv) = bounded_channel(SLOT_CAPACITY);
        let recv = Arc::new(Mutex::new(recv));
        MJpeg { send, recv }
    }

    /// Encodes the payload and places it in the slot, waiting while the slot
    /// is occupied. Fails, handing the payload back unchanged, once no
    /// receiving handle is left.
    pub fn update_jpeg(&self, buf: Vec<u8>) -> (r: Result<(), SendError<Vec<u8>>>)
        ensures
            r matches Err(SendError(b)) ==> b@ == buf@,
    {
        let frame = Frame::from_jpeg_buf(buf);
        publish_outcome(send_frame(&self.send, frame))
    }

    /// Encodes the payload and places it in the slot without waiting. Fails
    /// with `Full` while the slot holds a frame that no connection has taken,
    /// and with `Disconnected` once no receiving handle is left; either way
    /// the payload comes back unchanged.
    pub fn try_update_jpeg(&self, buf: Vec<u8>) -> (r: Result<(), TrySendError<Vec<u8>>>)
        ensures
            r matches Err(TrySendError::Full(b)) ==> b@ == buf@,
            r matches Err(TrySendError::Disconnected(b)) ==> b@ == buf@,
    {
        let frame = Frame::from_jpeg_buf(buf);
        try_publish_outcome(try_send_frame(&self.send, frame))
    }

    /// Whether the slot holds a frame that no connection has taken yet.
    pub fn is_full(&self) -> bool {
        sender_is_full(&self.send)
    }

    /// The receiving handle that connections share.
    pub fn receiver(&self) -> &Arc<Mutex<Receiver<Frame>>> {
        &self.recv
    }
}

} // verus!
