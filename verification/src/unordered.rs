//! The unordered pipeline: worker threads send each result, or the news that
//! they panicked, into one shared channel, and the consumer takes results in
//! the order they arrive.
use vstd::prelude::*;

use crate::channel;
use crate::channel::channel_fits;
use crate::channel::ChannelSender;
use crate::{classify, pull_outcome, taken_outcome, PipelineBuilder, Pulled, Step};

verus! {

/// The consumer's end of an unordered pipeline. It is open until the channel
/// ends or a worker reports a panic; from then on it is closed, which drops
/// its receiver so that the workers can stop.
#[verifier::reject_recursive_types(T)]
pub struct UnorderedOutput<T> {
    // This is optional because we may want to drop it to cause our threads to die gracefully:
    output: Option<crossbeam_channel::IntoIter<Result<T, ()>>>,
    // The channel that it reads.
    id: Ghost<int>,
    // The capacity that the channel was made with.
    capacity: Ghost<usize>,
    // What the last pull that read the channel took from it.
    last_taken: Ghost<Option<Result<T, ()>>>,
}

impl<T> UnorderedOutput<T> {
    /// Whether the stream still holds its end of the channel.
    pub closed spec fn is_open(&self) -> bool {
        self.output is Some
    }

    /// The channel that the stream reads.
    pub closed spec fn channel_id(&self) -> int {
        self.id@
    }

    /// How many results the channel buffers: the capacity it was made with.
    pub closed spec fn capacity(&self) -> usize {
        self.capacity@
    }

    /// What the last pull that read the channel took from it: a worker's
    /// message, or `None` where the channel had ended.
    pub closed spec fn last_taken(&self) -> Option<Result<T, ()>> {
        self.last_taken@
    }

    /// Takes the next result. A result that a worker sent gives `Item`; the
    /// end of the channel gives `Finished`; a worker's report that it panicked
    /// gives `Failed`. After `Finished` or `Failed` the stream is closed and
    /// every later pull gives `Finished` without touching the channel.
    pub fn pull(&mut self) -> (pulled: Pulled<T>)
        ensures
            pull_outcome(old(self).is_open(), final(self).is_open(), pulled),
            old(self).is_open() ==> pulled == taken_outcome(final(self).last_taken()),
            !old(self).is_open() ==> final(self).last_taken() == old(self).last_taken(),
            final(self).channel_id() == old(self).channel_id(),
            final(self).capacity() == old(self).capacity(),
    {
        let mut output = match self.output.take() {
            None => return Pulled::Finished,
            Some(output) => output,
        };
        let taken = channel::next_message(&mut output);
        self.last_taken = Ghost(taken);
        let pulled = classify(taken);
        if let Pulled::Item(_) = &pulled {
            self.output = Some(output);
        }
        pulled
    }
}

/// What the unordered output iterator does with a pull: a value goes to the
/// caller; at the end of the output, or when a worker reported a panic, the
/// workers are joined (which propagates a panic of any of them) and the
/// output ends.
pub fn next_step<T>(pulled: Pulled<T>) -> (step: Step<T>)
    ensures
        pulled matches Pulled::Item(value) ==> step == Step::Yield(value),
        !(pulled is Item) ==> step is JoinAndEnd,
{
    match pulled {
        Pulled::Item(value) => Step::Yield(value),
        Pulled::Finished => Step::JoinAndEnd,
        Pulled::Failed => Step::JoinAndEnd,
    }
}

/// The parts of an unordered pipeline before its workers start: the input,
/// how many workers to start, the sending end that each worker gets a clone
/// of, and the consumer's end.
#[verifier::reject_recursive_types(Out)]
pub struct UnorderedParts<I, Out> {
    pub input: I,
    pub num_threads: usize,
    pub output_tx: ChannelSender<Result<Out, ()>>,
    pub output: UnorderedOutput<Out>,
}

/// Sets up an unordered pipeline from its builder: a channel that buffers
/// `out_buffer` results (0: each send waits for the consumer), and the open
/// consumer's end of it.
pub fn prepare<I, Out>(builder: PipelineBuilder<I>) -> (parts: UnorderedParts<I, Out>) where
    I: Iterator + Send + 'static,
    I::Item: Send + 'static,

    requires
        channel_fits::<Result<Out, ()>>(builder.buffer_size()),
    ensures
        parts.input == builder.input_iter(),
        parts.num_threads == builder.thread_count(),
        parts.num_threads >= 1,
        parts.output.is_open(),
        parts.output.capacity() == builder.buffer_size(),
        parts.output_tx.channel_id() == parts.output.channel_id(),
        parts.output_tx.capacity() == parts.output.capacity(),
{
    let (input, num_threads, out_buffer) = builder.into_parts();
    let (output_tx, output_rx) = channel::bounded(out_buffer);
    let id = Ghost(output_rx.channel_id());
    let capacity = Ghost(output_rx.capacity());
    let output = UnorderedOutput {
        output: Some(channel::into_messages(output_rx.into_receiver())),
        id,
        capacity,
        last_taken: Ghost(None),
    };
    UnorderedParts { input, num_threads, output_tx, output }
}

/// Reconstructs a panic message from what a panicking thread left: its
/// payload read as a `&'static str`, or else as a `String`; where it is
/// neither, a fixed placeholder.
pub fn panic_msg_from<'a>(as_static_str: Option<&'a str>, as_string: Option<&'a str>) -> (msg: &'a str)
    ensures
        as_static_str is Some ==> msg@ == as_static_str->0@,
        as_static_str is None && as_string is Some ==> msg@ == as_string->0@,
        as_static_str is None && as_string is None ==> msg@ == "<Unrecoverable panic message.>"@,
{
    if let Some(msg) = as_static_str {
        return msg;
    }
    if let Some(msg) = as_string {
        return msg;
    }
    "<Unrecoverable panic message.>"
}

/// The message with which the consumer panics when a worker thread panicked
/// with message `msg`.
pub fn panic_report(msg: &str) -> (report: String)
    ensures
        report@ == "Worker thread panicked with message: ["@ + msg@ + "]"@,
{
    let report = String::from_str("Worker thread panicked with message: [");
    let report = report.concat(msg);
    report.concat("]")
}

} // verus!
