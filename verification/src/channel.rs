use crate::codec::Codec;
use crate::error::{RecvError, SendError};
use crate::receiver::Receiver;
use crate::sender::Sender;
use crate::stream::{ByteRead, ByteWrite};
use vstd::prelude::*;

verus! {

/// The sending capability: anything one can hand values to for delivery.
///
/// Code that only needs to send depends on this contract instead of the
/// concrete [`Sender`], so test doubles and other transports can stand in.
/// `ready` is the state an endpoint must be in to be used; every operation
/// keeps it, so a channel can be driven for as long as its owner likes.
pub trait ChannelSend<T> {
    type Error;

    /// Whether this endpoint is in a state its operations may be called in.
    /// Unconstrained endpoints are always ready; [`Sender`] overrides this.
    open spec fn ready(&self) -> bool {
        true
    }

    /// Hand one value over for delivery.
    fn send(&mut self, value: &T) -> (r: Result<(), Self::Error>)
        requires
            old(self).ready(),
        ensures
            final(self).ready(),
    ;
}

/// The receiving capability: anything one can obtain values from, the
/// counterpart of [`ChannelSend`].
pub trait ChannelRecv<T> {
    type Error;

    /// Whether this endpoint is in a state its operations may be called in.
    /// Unconstrained endpoints are always ready; [`Receiver`] overrides this.
    open spec fn ready(&self) -> bool {
        true
    }

    /// Obtain the next value.
    fn recv(&mut self) -> (r: Result<T, Self::Error>)
        requires
            old(self).ready(),
        ensures
            final(self).ready(),
    ;
}

impl<T: Codec, W: ByteWrite> ChannelSend<T> for Sender<T, W> {
    type Error = SendError;

    open spec fn ready(&self) -> bool {
        self.wf()
    }

    fn send(&mut self, value: &T) -> (r: Result<(), SendError>) {
        Sender::send(self, value)
    }
}

impl<T: Codec, R: ByteRead> ChannelRecv<T> for Receiver<T, R> {
    type Error = RecvError;

    open spec fn ready(&self) -> bool {
        self.wf()
    }

    fn recv(&mut self) -> (r: Result<T, RecvError>) {
        Receiver::recv(self)
    }
}

} // verus!
