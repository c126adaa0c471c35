//! A simple promise: a one-shot channel through which a worker sends the one
//! value that the consumer waits for.
use vstd::prelude::*;

use crate::channel;
use crate::channel::{channel_fits, ChannelReceiver, ChannelSender};

verus! {

/// Create a new promise sender/receiver for sending a single value to another
/// waiting thread: the two ends of one channel that holds one value.
pub fn new<T>() -> (promise: (PromiseSender<T>, PromiseReceiver<T>))
    requires
        channel_fits::<T>(1),
    ensures
        promise.0.pairs_with(promise.1),
        promise.0.capacity() == 1,
        promise.1.capacity() == 1,
{
    let (tx, rx) = channel::bounded(1);
    (PromiseSender { channel: tx }, PromiseReceiver { channel: rx })
}

/// The end of a promise through which its value is sent.
#[verifier::reject_recursive_types(T)]
pub struct PromiseSender<T> {
    channel: ChannelSender<T>,
}

impl<T> PromiseSender<T> {
    /// Whether `receiver` is the end at which this sender's value is
    /// awaited: the two were made together, as one promise.
    pub closed spec fn pairs_with(&self, receiver: PromiseReceiver<T>) -> bool {
        self.channel.channel_id() == receiver.channel.channel_id()
    }

    /// How many values the promise's channel holds.
    pub closed spec fn capacity(&self) -> usize {
        self.channel.capacity()
    }

    /// Sends an item, consuming the sender. Never blocks. Does not error or
    /// panic if the receiver is already closed. (You can only ever send one
    /// thing.)
    pub fn send(self, t: T) {
        // This never blocks: the channel has room for 1 message, and this is
        // the only send on it. An error only means that the receiver has been
        // dropped, and then nobody waits for the value.
        let _result = channel::send_message(self.channel.as_sender(), t);
    }
}

/// The end of a promise at which its value is awaited.
#[verifier::reject_recursive_types(T)]
pub struct PromiseReceiver<T> {
    channel: ChannelReceiver<T>,
}

impl<T> PromiseReceiver<T> {
    /// How many values the promise's channel holds.
    pub closed spec fn capacity(&self) -> usize {
        self.channel.capacity()
    }

    /// Block waiting for the value. Returns an error if the sender was
    /// dropped before a value was sent.
    pub fn receive(self) -> Result<T, ()> {
        received(channel::recv_message(self.channel.as_receiver()))
    }
}

/// What waiting on a promise gives, from what its channel gave: the value
/// that was sent, or `Err(())` where the sender went away without sending.
pub fn received<T>(outcome: Result<T, crossbeam_channel::RecvError>) -> (r: Result<T, ()>)
    ensures
        r is Ok <==> outcome is Ok,
        outcome is Ok ==> r == Ok::<T, ()>(outcome->Ok_0),
{
    match outcome {
        Ok(t) => Ok(t),
        Err(_) => Err(()),
    }
}

} // verus!
