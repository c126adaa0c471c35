//! The parts of `crossbeam_channel` that the pipeline's streams use, declared
//! to Verus. A channel is shared between the threads that hold its ends, so
//! what one end observes depends on what other threads did: the contracts
//! here state only what holds whatever the other threads did.
use vstd::layout::{align_of, size_of};
use vstd::prelude::*;

verus! {

#[verifier::external_type_specification]
#[verifier::external_body]
#[verifier::reject_recursive_types(T)]
pub struct ExSender<T>(crossbeam_channel::Sender<T>);

#[verifier::external_type_specification]
#[verifier::external_body]
#[verifier::reject_recursive_types(T)]
pub struct ExReceiver<T>(crossbeam_channel::Receiver<T>);

#[verifier::external_type_specification]
#[verifier::external_body]
#[verifier::reject_recursive_types(T)]
pub struct ExIntoIter<T>(crossbeam_channel::IntoIter<T>);

#[verifier::external_type_specification]
#[verifier::external_body]
#[verifier::reject_recursive_types(T)]
pub struct ExSendError<T>(crossbeam_channel::SendError<T>);

#[verifier::external_type_specification]
#[verifier::external_body]
pub struct ExRecvError(crossbeam_channel::RecvError);

/// The largest capacity that the pipeline asks of a bounded channel:
/// `crossbeam_channel::bounded` computes the capacity plus one, rounded up to
/// a power of two and doubled, in an index type that is at least 32 bits
/// wide, and panics where that overflows; up to this capacity it cannot.
pub const MAX_CHANNEL_CAPACITY: usize = 0x3FFF_FFFF;

/// An upper bound on the bytes of one slot of a bounded channel of `T`: the
/// message, its alignment padding and the slot's stamp.
pub open spec fn slot_bytes<T>() -> nat {
    size_of::<T>() + align_of::<T>() + 16
}

/// Whether `crossbeam_channel::bounded::<T>(cap)` makes its channel without
/// panicking: the capacity is within `MAX_CHANNEL_CAPACITY`, and the buffer
/// of `cap` slots stays within the largest allocation there can be
/// (`isize::MAX` bytes).
pub open spec fn channel_fits<T>(cap: usize) -> bool {
    &&& cap <= MAX_CHANNEL_CAPACITY
    &&& cap * slot_bytes::<T>() <= isize::MAX
}

/// A channel fits exactly when its capacity is within crossbeam's index
/// limit and its buffer of `cap` slots, each the message with its alignment
/// and stamp, is within the largest allocation; nothing else about the
/// message type matters. Fitting is kept by smaller capacities, and a
/// channel where each send waits for a receive (capacity 0) always fits.
pub proof fn lemma_channel_fits_exactly<T>(cap: usize, smaller: usize)
    ensures
        channel_fits::<T>(cap) <==> (cap <= 0x3FFF_FFFF && cap * (size_of::<T>()
            + align_of::<T>() + 16) <= isize::MAX),
        channel_fits::<T>(0),
        channel_fits::<T>(cap) && smaller <= cap ==> channel_fits::<T>(smaller),
{
    if channel_fits::<T>(cap) && smaller <= cap {
        assert(smaller * slot_bytes::<T>() <= cap * slot_bytes::<T>()) by (nonlinear_arith)
            requires
                smaller <= cap,
        ;
    }
}

/// Whether a bounded channel of `cap` messages of type `T` can be made.
pub fn fits_in_channel<T>(cap: usize) -> (fits: bool)
    ensures
        fits == channel_fits::<T>(cap),
        fits <==> (cap <= 0x3FFF_FFFF && cap * (size_of::<T>() + align_of::<T>() + 16)
            <= isize::MAX),
{
    if cap > MAX_CHANNEL_CAPACITY {
        return false;
    }
    let size = core::mem::size_of::<T>() as u128;
    let align = core::mem::align_of::<T>() as u128;
    let slot = size + align + 16;
    let count = cap as u128;
    assert(count * slot <= 0x3FFF_FFFFu128 * 0x2_0000_0000_0000_0010u128) by (nonlinear_arith)
        requires
            count <= 0x3FFF_FFFF,
            slot <= 0x2_0000_0000_0000_0010u128,
    ;
    let bytes = count * slot;
    bytes <= isize::MAX as u128
}

/// The sending end of a bounded channel, with the identity of its channel
/// and the capacity that the channel was made with.
#[verifier::reject_recursive_types(T)]
pub struct ChannelSender<T> {
    sender: crossbeam_channel::Sender<T>,
    id: Ghost<int>,
    capacity: Ghost<usize>,
}

impl<T> ChannelSender<T> {
    /// The channel that this end belongs to.
    pub closed spec fn channel_id(&self) -> int {
        self.id@
    }

    /// The capacity that its channel was made with.
    pub closed spec fn capacity(&self) -> usize {
        self.capacity@
    }

    /// The `crossbeam_channel` sender itself.
    pub closed spec fn sender(&self) -> crossbeam_channel::Sender<T> {
        self.sender
    }

    pub fn as_sender(&self) -> (sender: &crossbeam_channel::Sender<T>)
        ensures
            *sender == self.sender(),
    {
        &self.sender
    }

    pub fn into_sender(self) -> (sender: crossbeam_channel::Sender<T>)
        ensures
            sender == self.sender(),
    {
        self.sender
    }
}

/// The receiving end of a bounded channel, with the identity of its channel
/// and the capacity that the channel was made with.
#[verifier::reject_recursive_types(T)]
pub struct ChannelReceiver<T> {
    receiver: crossbeam_channel::Receiver<T>,
    id: Ghost<int>,
    capacity: Ghost<usize>,
}

impl<T> ChannelReceiver<T> {
    /// The channel that this end belongs to.
    pub closed spec fn channel_id(&self) -> int {
        self.id@
    }

    /// The capacity that its channel was made with.
    pub closed spec fn capacity(&self) -> usize {
        self.capacity@
    }

    /// The `crossbeam_channel` receiver itself.
    pub closed spec fn receiver(&self) -> crossbeam_channel::Receiver<T> {
        self.receiver
    }

    pub fn as_receiver(&self) -> (receiver: &crossbeam_channel::Receiver<T>)
        ensures
            *receiver == self.receiver(),
    {
        &self.receiver
    }

    pub fn into_receiver(self) -> (receiver: crossbeam_channel::Receiver<T>)
        ensures
            receiver == self.receiver(),
    {
        self.receiver
    }
}

/// Calls `crossbeam_channel::bounded(cap)`: the two ends of one new channel
/// that holds at most `cap` messages (`cap == 0` gives a channel where each
/// send waits for a receive). Both ends carry the same channel identity and
/// the capacity `cap`. It panics only where `channel_fits` fails, which
/// `requires` leaves out; running out of memory is not ruled out. Nothing
/// else is stated of the ends, and two calls are not stated to give
/// different identities.
#[verifier::external_body]
pub(crate) fn bounded<T>(cap: usize) -> (ends: (ChannelSender<T>, ChannelReceiver<T>))
    requires
        channel_fits::<T>(cap),
    ensures
        ends.0.channel_id() == ends.1.channel_id(),
        ends.0.capacity() == cap,
        ends.1.capacity() == cap,
{
    let (sender, receiver) = crossbeam_channel::bounded(cap);
    let id: Ghost<int> = Ghost(arbitrary());
    (
        ChannelSender { sender, id, capacity: Ghost(cap) },
        ChannelReceiver { receiver, id, capacity: Ghost(cap) },
    )
}

/// Calls `crossbeam_channel::Sender::send`: blocks until the message is in the
/// channel, or fails when every receiver is gone. Which of the two happens
/// depends on other threads, so nothing is stated of the result.
#[verifier::external_body]
pub(crate) fn send_message<T>(sender: &crossbeam_channel::Sender<T>, msg: T) -> Result<(), crossbeam_channel::SendError<T>> {
    sender.send(msg)
}

/// Calls `crossbeam_channel::Receiver::recv`: blocks until a message arrives,
/// or fails when the channel is empty and every sender is gone. What comes
/// back depends on other threads, so nothing is stated of it.
#[verifier::external_body]
pub(crate) fn recv_message<T>(receiver: &crossbeam_channel::Receiver<T>) -> Result<T, crossbeam_channel::RecvError> {
    receiver.recv()
}

/// Calls `IntoIterator::into_iter` on a `crossbeam_channel::Receiver`: the
/// blocking iterator over the messages of its channel.
#[verifier::external_body]
pub(crate) fn into_messages<T>(receiver: crossbeam_channel::Receiver<T>) -> crossbeam_channel::IntoIter<T> {
    receiver.into_iter()
}

/// Calls `Iterator::next` on a `crossbeam_channel::IntoIter`: the next message
/// of the channel, or `None` once it is empty and every sender is gone. What
/// comes back depends on other threads, so nothing is stated of it.
#[verifier::external_body]
pub(crate) fn next_message<T>(messages: &mut crossbeam_channel::IntoIter<T>) -> Option<T> {
    messages.next()
}

} // verus!
