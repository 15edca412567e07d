//! Two-way message handles between the hub and one worker, built on
//! crossbeam's unbounded channels.
use vstd::prelude::*;

verus! {

#[verifier::external_type_specification]
#[verifier::external_body]
#[verifier::reject_recursive_types(T)]
pub struct ExSender<T>(crossbeam::channel::Sender<T>);

#[verifier::external_type_specification]
#[verifier::external_body]
#[verifier::reject_recursive_types(T)]
pub struct ExReceiver<T>(crossbeam::channel::Receiver<T>);

/// Relies on crossbeam::channel::unbounded: a fresh sending end and the
/// receiving end of the same channel.
#[verifier::external_body]
fn unbounded<T>() -> (crossbeam::channel::Sender<T>, crossbeam::channel::Receiver<T>) {
    crossbeam::channel::unbounded()
}

/// Relies on crossbeam's `Sender::send`: on failure the error hands the
/// message back unsent.
#[verifier::external_body]
fn send_blocking<T>(sender: &crossbeam::channel::Sender<T>, msg: T) -> (r: Result<(), T>)
    ensures
        r matches Err(m) ==> m == msg,
{
    sender.send(msg).map_err(|e| e.0)
}

/// Relies on crossbeam's `Sender::try_send`: on failure (full or
/// disconnected) the error hands the message back unsent.
#[verifier::external_body]
fn send_now<T>(sender: &crossbeam::channel::Sender<T>, msg: T) -> (r: Result<(), T>)
    ensures
        r matches Err(m) ==> m == msg,
{
    sender.try_send(msg).map_err(|e| e.into_inner())
}

/// Relies on crossbeam's `Receiver::recv`: a message, or an error once the
/// channel is empty and every sender is gone.
#[verifier::external_body]
pub(crate) fn recv_blocking<T>(receiver: &crossbeam::channel::Receiver<T>) -> (r: Result<T, ()>) {
    receiver.recv().map_err(|_e| ())
}

/// Why a channel operation did not go through.
#[derive(Clone, Copy, Debug, PartialEq, Eq, Structural)]
pub enum ChannelError {
    /// The far end of the channel has been dropped.
    PeerDisconnected,
}

/// One unbounded channel, both ends held together until they are handed
/// out. The job queue is such a channel: the folder watcher holds its
/// sender, every dispatcher a clone of its receiver, and each job reaches
/// exactly one of them.
#[verifier::reject_recursive_types(T)]
pub struct Channel<T> {
    pub sender: crossbeam::channel::Sender<T>,
    pub receiver: crossbeam::channel::Receiver<T>,
}

impl<T> Channel<T> {
    /// Creates a fresh unbounded channel.
    pub fn new() -> (r: Self) {
        let (sender, receiver) = unbounded();
        Channel { sender, receiver }
    }
}

/// A pair of channel ends for talking to one peer: messages of type `S` go
/// out, messages of type `R` come in.
#[verifier::reject_recursive_types(S)]
#[verifier::reject_recursive_types(R)]
pub struct ChannelPair<S, R> {
    pub sender: crossbeam::channel::Sender<S>,
    pub receiver: crossbeam::channel::Receiver<R>,
}

impl<S, R> ChannelPair<S, R> {
    /// Puts an outbound and an inbound end together.
    pub fn new(
        sender: crossbeam::channel::Sender<S>,
        receiver: crossbeam::channel::Receiver<R>,
    ) -> (r: Self)
        ensures
            r.sender == sender,
            r.receiver == receiver,
    {
        ChannelPair { sender, receiver }
    }

    /// Delivers `msg` to the peer, waiting while the channel is full. Fails
    /// only when the peer's receiving end has been dropped; never panics.
    pub fn send(&self, msg: S) -> (r: Result<(), ChannelError>)
        ensures
            r matches Err(e) ==> e == ChannelError::PeerDisconnected,
    {
        match send_blocking(&self.sender, msg) {
            Ok(()) => Ok(()),
            Err(_returned) => Err(ChannelError::PeerDisconnected),
        }
    }

    /// Delivers `msg` to the peer only if that can be done without waiting.
    pub fn try_send(&self, msg: S) -> (r: Result<(), ChannelError>)
        ensures
            r matches Err(e) ==> e == ChannelError::PeerDisconnected,
    {
        match send_now(&self.sender, msg) {
            Ok(()) => Ok(()),
            Err(_returned) => Err(ChannelError::PeerDisconnected),
        }
    }

    /// Waits for the next message from the peer; fails once the peer has
    /// disconnected and nothing is left to read.
    pub fn receive(&self) -> (r: Result<R, ChannelError>)
        ensures
            r matches Err(e) ==> e == ChannelError::PeerDisconnected,
    {
        match recv_blocking(&self.receiver) {
            Ok(m) => Ok(m),
            Err(()) => Err(ChannelError::PeerDisconnected),
        }
    }
}

} // verus!
