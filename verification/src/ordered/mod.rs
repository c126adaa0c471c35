//! The ordered pipeline: whoever takes an input value also queues, in the
//! same step, a promise for its result on the output channel, so that the
//! promises stand in the channel in input order; the consumer waits on them
//! one after the other.
use vstd::prelude::*;

use crate::channel;
use crate::channel::channel_fits;
use crate::channel::ChannelSender;
use crate::{classify, pull_outcome, taken_outcome, PipelineBuilder, Pulled, Step};

pub mod promise;

verus! {

/// The capacity of an ordered pipeline's output channel. It must be at least
/// the number of threads, because it has to hold a promise per running thread
/// so that results can come back in order via their promises.
pub open spec fn ordered_capacity(out_buffer: usize, num_threads: usize) -> usize {
    if out_buffer < num_threads {
        num_threads
    } else {
        out_buffer
    }
}

/// The capacity of an ordered pipeline's output channel: the requested output
/// buffer, raised to the number of threads where it is smaller.
pub fn output_capacity(out_buffer: usize, num_threads: usize) -> (capacity: usize)
    ensures
        capacity == ordered_capacity(out_buffer, num_threads),
{
    let mut capacity = out_buffer;
    if capacity < num_threads {
        capacity = num_threads
    }
    capacity
}

/// An ordered pipeline's output channel holds a promise for every worker
/// thread, and never less than the output buffer that was asked for.
pub proof fn lemma_capacity_covers_threads_and_buffer(out_buffer: usize, num_threads: usize)
    ensures
        ordered_capacity(out_buffer, num_threads) >= num_threads,
        ordered_capacity(out_buffer, num_threads) >= out_buffer,
        ordered_capacity(out_buffer, num_threads) == out_buffer
            || ordered_capacity(out_buffer, num_threads) == num_threads,
{
}

/// Raising an output buffer to the thread count changes nothing when it is
/// raised again: a pipeline asked for `out_buffer` and one asked for the
/// raised buffer get channels of the same capacity.
pub proof fn lemma_raised_buffer_changes_nothing(out_buffer: usize, num_threads: usize)
    ensures
        ordered_capacity(ordered_capacity(out_buffer, num_threads), num_threads)
            == ordered_capacity(out_buffer, num_threads),
{
}

/// The consumer's end of an ordered pipeline: a channel of promises, one per
/// input value, in input order. It is open until the channel ends or a
/// promise is broken; from then on it is closed, which drops its receiver so
/// that the workers can stop.
#[verifier::reject_recursive_types(T)]
pub struct OrderedOutput<T> {
    // This is optional because we may want to drop it to cause our threads to
    // die gracefully:
    output: Option<crossbeam_channel::IntoIter<promise::PromiseReceiver<T>>>,
    // The channel that it reads.
    id: Ghost<int>,
    // The capacity that the channel was made with.
    capacity: Ghost<usize>,
    // What the last pull that read the channel took: the value of the
    // promise it waited on, or `None` where the channel had ended.
    last_taken: Ghost<Option<Result<T, ()>>>,
}

impl<T> OrderedOutput<T> {
    /// Whether the stream still holds its end of the channel.
    pub closed spec fn is_open(&self) -> bool {
        self.output is Some
    }

    /// The channel that the stream reads.
    pub closed spec fn channel_id(&self) -> int {
        self.id@
    }

    /// How many promises the channel holds: the capacity it was made with.
    pub closed spec fn capacity(&self) -> usize {
        self.capacity@
    }

    /// What the last pull that read the channel took: what waiting on the
    /// next promise gave, or `None` where the channel had ended.
    pub closed spec fn last_taken(&self) -> Option<Result<T, ()>> {
        self.last_taken@
    }

    /// Takes the next promise and waits for its value. A kept promise gives
    /// `Item`; the end of the channel gives `Finished`; a promise whose
    /// sender went away without sending (its worker panicked) gives `Failed`.
    /// After `Finished` or `Failed` the stream is closed and every later pull
    /// gives `Finished` without touching the channel.
    pub fn pull(&mut self) -> (pulled: Pulled<T>)
        ensures
            pull_outcome(old(self).is_open(), final(self).is_open(), pulled),
            old(self).is_open() ==> pulled == taken_outcome(final(self).last_taken()),
            !old(self).is_open() ==> final(self).last_taken() == old(self).last_taken(),
            final(self).channel_id() == old(self).channel_id(),
            final(self).capacity() == old(self).capacity(),
    {
        let mut output = match self.output.take() {
            None => return Pulled::Finished,
            Some(output) => output,
        };
        let taken = match channel::next_message(&mut output) {
            // Finished cleanly:
            None => None,
            // Wait for the promise; an error means that its sender dropped
            // before sending a value (likely panicked):
            Some(next_promise) => Some(next_promise.receive()),
        };
        self.last_taken = Ghost(taken);
        let pulled = classify(taken);
        if let Pulled::Item(_) = &pulled {
            self.output = Some(output);
        }
        pulled
    }
}

/// What the ordered output iterator does with a pull: a value goes to the
/// caller; at the end of the output the workers are joined (which propagates
/// a panic of any of them) and the output ends; a broken promise means that a
/// worker died, so after joining the workers the output fails.
pub fn next_step<T>(pulled: Pulled<T>) -> (step: Step<T>)
    ensures
        pulled matches Pulled::Item(value) ==> step == Step::Yield(value),
        pulled is Finished ==> step is JoinAndEnd,
        pulled is Failed ==> step is JoinAndFail,
{
    match pulled {
        Pulled::Item(value) => Step::Yield(value),
        // Finished cleanly, clean up thread handles:
        Pulled::Finished => Step::JoinAndEnd,
        // Sender dropped before sending value. Likely panicked:
        Pulled::Failed => Step::JoinAndFail,
    }
}

/// The parts of an ordered pipeline before its workers start: the input, how
/// many workers to start, the sending end on which promises are queued, and
/// the consumer's end.
#[verifier::reject_recursive_types(Out)]
pub struct OrderedParts<I, Out> {
    pub input: I,
    pub num_threads: usize,
    pub promise_sink: ChannelSender<promise::PromiseReceiver<Out>>,
    pub output: OrderedOutput<Out>,
}

/// Sets up an ordered pipeline from its builder: a channel of promises whose
/// capacity is the output buffer, raised to the number of threads, and the
/// open consumer's end of it.
pub fn prepare<I, Out>(builder: PipelineBuilder<I>) -> (parts: OrderedParts<I, Out>) where
    I: Iterator + Send + 'static,
    I::Item: Send + 'static,

    requires
        channel_fits::<promise::PromiseReceiver<Out>>(
            ordered_capacity(builder.buffer_size(), builder.thread_count()),
        ),
    ensures
        parts.input == builder.input_iter(),
        parts.num_threads == builder.thread_count(),
        parts.num_threads >= 1,
        parts.output.is_open(),
        parts.output.capacity() == ordered_capacity(builder.buffer_size(), builder.thread_count()),
        parts.output.capacity() >= parts.num_threads,
        parts.promise_sink.channel_id() == parts.output.channel_id(),
        parts.promise_sink.capacity() == parts.output.capacity(),
{
    let (input, num_threads, out_buffer) = builder.into_parts();
    let capacity = output_capacity(out_buffer, num_threads);
    let (promise_sink, output_rx) = channel::bounded(capacity);
    let id = Ghost(output_rx.channel_id());
    let capacity = Ghost(output_rx.capacity());
    let output = OrderedOutput {
        output: Some(channel::into_messages(output_rx.into_receiver())),
        id,
        capacity,
        last_taken: Ghost(None),
    };
    OrderedParts { input, num_threads, promise_sink, output }
}

/// Hands out one input value with its promise: queues the promise's receiving
/// end on the output channel, which may block until the channel has room;
/// that gives the workers backpressure when the output buffer is full. Gives
/// back the value with the promise's sending end, or `None` where the output
/// channel is gone: then the user wants no more output, and there is no more
/// work to do.
///
/// Called while holding the input, so that promises are queued in the order
/// in which input values are taken.
pub fn hand_out<T, Out>(
    value: T,
    promise_tx: promise::PromiseSender<Out>,
    promise_rx: promise::PromiseReceiver<Out>,
    promise_sink: &crossbeam_channel::Sender<promise::PromiseReceiver<Out>>,
) -> (handed: Option<(T, promise::PromiseSender<Out>)>)
    requires
        promise_tx.pairs_with(promise_rx),
    ensures
        handed is Some ==> handed->0 == (value, promise_tx),
{
    // Send our promise rx into the output channel, to maintain the ordering:
    let sent = channel::send_message(promise_sink, promise_rx);
    queued(value, promise_tx, sent)
}

/// What handing out a value gives, from whether its promise could be queued:
/// the value with the promise's sending end where the queue took the
/// promise, and `None` where the output channel is gone (the user wants no
/// more output, so the worker that asked can stop).
pub fn queued<T, Out>(
    value: T,
    promise_tx: promise::PromiseSender<Out>,
    sent: Result<(), crossbeam_channel::SendError<promise::PromiseReceiver<Out>>>,
) -> (handed: Option<(T, promise::PromiseSender<Out>)>)
    ensures
        sent is Ok ==> handed == Some((value, promise_tx)),
        sent is Err ==> handed is None,
{
    match sent {
        Ok(()) => Some((value, promise_tx)),
        // The output channel has been dropped. The user isn't interested in
        // any more output, so there's no more work for us to do.
        Err(_) => None,
    }
}

} // verus!
