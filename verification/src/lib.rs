//! A high-level framework for parallel processing: configure how many worker
//! threads a pipeline step uses and how much of its output is buffered.
//!
//! This crate holds the pipeline's configuration and the decisions of its
//! ordered and unordered output streams, each with a contract proved by Verus.
use vstd::prelude::*;
use vstd::std_specs::iter::IteratorSpec;

pub mod channel;
pub mod ordered;
pub mod unordered;

verus! {

/// Things which implement this can be used with the pipeline library.
pub trait Pipeline<I> where I: Iterator + Send + 'static, I::Item: Send + 'static {
    /// Returns a `PipelineBuilder` that will execute using this many threads (a
    /// value of 0 is interpreted as 1), and 0 buffering.
    fn with_threads(self, num_threads: usize) -> (builder: PipelineBuilder<I>)
        ensures
            builder.thread_count() == effective_threads(num_threads),
            num_threads >= 1 ==> builder.thread_count() == num_threads,
            num_threads == 0 ==> builder.thread_count() == 1,
            builder.buffer_size() == 0,
    ;
}

/// The number of worker threads that a request for `requested` threads gives:
/// 0 is interpreted as 1.
pub open spec fn effective_threads(requested: usize) -> usize {
    if requested == 0 {
        1
    } else {
        requested
    }
}

/// A pipeline runs on exactly the number of threads asked for, whatever that
/// number is; only a request for none gives one thread. The count is never
/// capped, and it is at least 1.
pub proof fn lemma_requested_threads_are_kept(requested: usize)
    ensures
        requested >= 1 ==> effective_threads(requested) == requested,
        requested == 0 ==> effective_threads(requested) == 1,
        effective_threads(requested) >= 1,
        effective_threads(requested) >= requested,
{
}

/// Iterators can be used as a Pipeline: their items are the pipeline's input.
impl<I> Pipeline<I> for I where I: Iterator + Send + 'static, I::Item: Send + 'static {
    fn with_threads(self, num_threads: usize) -> (builder: PipelineBuilder<I>)
        ensures
            builder.input_iter() == self,
    {
        PipelineBuilder::new(self).num_threads(num_threads)
    }
}

/// A `Vec` can be used as a Pipeline: its elements, in order, are the
/// pipeline's input.
impl<T> Pipeline<std::vec::IntoIter<T>> for Vec<T> where T: Send + 'static {
    fn with_threads(self, num_threads: usize) -> (builder: PipelineBuilder<std::vec::IntoIter<T>>)
        ensures
            builder.input_iter().obeys_prophetic_iter_laws(),
            builder.input_iter().remaining() == self@,
    {
        let input = self.into_iter();
        PipelineBuilder::new(input).num_threads(num_threads)
    }
}

#[verifier::external_type_specification]
#[verifier::external_body]
#[verifier::reject_recursive_types(T)]
pub struct ExArrayIntoIter<T, const N: usize>(std::array::IntoIter<T, N>);

/// Calls std's `IntoIterator::into_iter` on an array: per std's documentation,
/// the iterator moves each value out of the array, from start to end, and
/// then ends; stated as: it obeys the laws of `Iterator::next`, and what it
/// will yield is the array's elements in order.
#[verifier::external_body]
fn array_into_iter<T, const N: usize>(values: [T; N]) -> (iter: std::array::IntoIter<T, N>)
    ensures
        iter.obeys_prophetic_iter_laws(),
        iter.remaining() == values@,
{
    values.into_iter()
}

/// An array can be used as a Pipeline: its elements, in order, are the
/// pipeline's input.
impl<T, const N: usize> Pipeline<std::array::IntoIter<T, N>> for [T; N] where T: Send + 'static {
    fn with_threads(self, num_threads: usize) -> (builder: PipelineBuilder<std::array::IntoIter<T, N>>)
        ensures
            builder.input_iter().obeys_prophetic_iter_laws(),
            builder.input_iter().remaining() == self@,
    {
        PipelineBuilder::new(array_into_iter(self)).num_threads(num_threads)
    }
}

#[verifier::external_type_specification]
#[verifier::external_body]
#[verifier::reject_recursive_types(T)]
pub struct ExOptionIntoIter<T>(std::option::IntoIter<T>);

/// Calls std's `IntoIterator::into_iter` on an `Option`: per std's
/// documentation, a consuming iterator over the possibly contained value;
/// stated as: it obeys the laws of `Iterator::next`, and it will yield the
/// value if there is one, and nothing else.
#[verifier::external_body]
fn option_into_iter<T>(value: Option<T>) -> (iter: std::option::IntoIter<T>)
    ensures
        iter.obeys_prophetic_iter_laws(),
        iter.remaining() == option_items(value),
{
    value.into_iter()
}

/// The items of an `Option`: its value, if there is one.
pub open spec fn option_items<T>(value: Option<T>) -> Seq<T> {
    match value {
        Some(v) => seq![v],
        None => Seq::empty(),
    }
}

/// An `Option` can be used as a Pipeline: its value, if any, is the
/// pipeline's only input.
impl<T> Pipeline<std::option::IntoIter<T>> for Option<T> where T: Send + 'static {
    fn with_threads(self, num_threads: usize) -> (builder: PipelineBuilder<std::option::IntoIter<T>>)
        ensures
            builder.input_iter().obeys_prophetic_iter_laws(),
            builder.input_iter().remaining() == option_items(self),
    {
        PipelineBuilder::new(option_into_iter(self)).num_threads(num_threads)
    }
}

/// This is an intermediate data structure which allows you to configure how
/// your pipeline should run.
pub struct PipelineBuilder<I> where I: Iterator, I::Item: Send + 'static {
    // The inner iterator which yields the input values
    input: I,
    // Options:
    num_threads: usize,
    out_buffer: usize,
}

impl<I> PipelineBuilder<I> where I: Iterator, I::Item: Send + 'static {
    /// A pipeline always runs at least one worker thread.
    #[verifier::type_invariant]
    closed spec fn at_least_one_thread(self) -> bool {
        self.num_threads >= 1
    }

    /// How many worker threads the pipeline will use.
    pub closed spec fn thread_count(&self) -> usize {
        self.num_threads
    }

    /// How many output values the pipeline will buffer.
    pub closed spec fn buffer_size(&self) -> usize {
        self.out_buffer
    }

    /// The iterator that yields the pipeline's input values.
    pub closed spec fn input_iter(&self) -> I {
        self.input
    }
}

impl<I> PipelineBuilder<I> where I: Iterator + Send + 'static, I::Item: Send + 'static {
    /// How many worker threads the pipeline will use (always at least 1).
    pub fn threads(&self) -> (n: usize)
        ensures
            n == self.thread_count(),
            n >= 1,
    {
        proof {
            use_type_invariant(self);
        }
        self.num_threads
    }

    /// How many output values the pipeline will buffer.
    pub fn buffer(&self) -> (n: usize)
        ensures
            n == self.buffer_size(),
    {
        self.out_buffer
    }

    /// Takes the builder apart: the input iterator, the number of worker
    /// threads (always at least 1) and the output buffer size.
    pub fn into_parts(self) -> (parts: (I, usize, usize))
        ensures
            parts.0 == self.input_iter(),
            parts.1 == self.thread_count(),
            parts.2 == self.buffer_size(),
            parts.1 >= 1,
    {
        proof {
            use_type_invariant(&self);
        }
        (self.input, self.num_threads, self.out_buffer)
    }

    pub(crate) fn new(iterator: I) -> (builder: Self)
        ensures
            builder.thread_count() == 1,
            builder.buffer_size() == 0,
            builder.input_iter() == iterator,
    {
        PipelineBuilder { input: iterator, num_threads: 1, out_buffer: 0 }
    }

    /// Set how many worker threads should be used to perform this work.
    /// A value of 0 is interpreted as 1.
    pub fn num_threads(self, num_threads: usize) -> (builder: Self)
        ensures
            builder.thread_count() == effective_threads(num_threads),
            num_threads >= 1 ==> builder.thread_count() == num_threads,
            num_threads == 0 ==> builder.thread_count() == 1,
            builder.buffer_size() == self.buffer_size(),
            builder.input_iter() == self.input_iter(),
    {
        let threads: usize = if num_threads < 1 {
            1
        } else {
            num_threads
        };
        PipelineBuilder { input: self.input, num_threads: threads, out_buffer: self.out_buffer }
    }

    /// Set how many output values to cache. The default, 0, results in
    /// synchronous output. Note that in effect each thread caches its output
    /// as it waits to send it, so in many cases you may not need additional
    /// output buffering.
    pub fn out_buffer(self, size: usize) -> (builder: Self)
        ensures
            builder.buffer_size() == size,
            builder.thread_count() == self.thread_count(),
            builder.input_iter() == self.input_iter(),
    {
        proof {
            use_type_invariant(&self);
        }
        PipelineBuilder { input: self.input, num_threads: self.num_threads, out_buffer: size }
    }
}

/// What a pull on a pipeline's output stream gave.
pub enum Pulled<T> {
    /// The next output value.
    Item(T),
    /// The stream has ended: every worker is done and every value was taken.
    Finished,
    /// A worker failed before delivering a value (it panicked): the stream
    /// ends here.
    Failed,
}

/// What a pipeline's output iterator does with what a pull gave.
pub enum Step<T> {
    /// Hand the value to the caller.
    Yield(T),
    /// Join the worker threads, panicking if any of them panicked, then
    /// report the end of the output.
    JoinAndEnd,
    /// Join the worker threads: one of them must have panicked, and joining
    /// it propagates that panic; if none did, fail all the same.
    JoinAndFail,
}

/// What a pull makes of what it took from its channel: nothing (the channel
/// ended) ends the stream; a failure (a worker panicked, or left its promise
/// unkept) fails it; a value is the next output value.
pub open spec fn taken_outcome<T>(taken: Option<Result<T, ()>>) -> Pulled<T> {
    match taken {
        None => Pulled::Finished,
        Some(Err(())) => Pulled::Failed,
        Some(Ok(value)) => Pulled::Item(value),
    }
}

/// What a pull makes of what it took from its channel: a value that a
/// worker delivered is the next output value; the end of the channel ends
/// the stream; a worker's failure (it reported a panic, or left its promise
/// unkept) fails it. (A worker thread that panicked has died; we don't want
/// to continue operating in degraded mode for who knows how long, so the
/// stream stops there.)
pub fn classify<T>(taken: Option<Result<T, ()>>) -> (pulled: Pulled<T>)
    ensures
        pulled == taken_outcome(taken),
        taken matches Some(Ok(value)) ==> pulled == Pulled::Item(value),
        taken is None ==> pulled is Finished,
        taken matches Some(Err(())) ==> pulled is Failed,
{
    match taken {
        // We've reached the end of our output:
        None => Pulled::Finished,
        Some(Err(())) => Pulled::Failed,
        Some(Ok(value)) => Pulled::Item(value),
    }
}

/// A pull passes on every value that a worker delivered, of any type and
/// any value, unchanged: it gives a value exactly when it took that value
/// from its channel. It ends the stream only at the channel's end, and fails
/// it only at a worker's failure.
pub proof fn lemma_taken_values_are_passed_on<T>(taken: Option<Result<T, ()>>, value: T)
    ensures
        taken_outcome(Some(Ok::<T, ()>(value))) == Pulled::Item(value),
        taken_outcome(taken) == Pulled::Item(value) <==> taken == Some(Ok::<T, ()>(value)),
        taken_outcome(taken) is Finished <==> taken is None,
        taken_outcome(taken) is Failed <==> taken == Some(Err::<T, ()>(())),
{
    if let Some(Err(e)) = taken {
        assert(e == ());
    }
}

/// How a pull moves an output stream, given whether it was open before and
/// after the pull: a closed stream only ever reports `Finished`, and the
/// stream stays open exactly when the pull gave a value.
pub open spec fn pull_outcome<T>(open_before: bool, open_after: bool, pulled: Pulled<T>) -> bool {
    &&& !open_before ==> pulled is Finished
    &&& open_after == (pulled is Item)
}

/// Once a pull has not given a value (the stream ended or a worker failed),
/// every later pull reports `Finished` and the stream stays closed: a stream
/// never resumes after its end.
pub proof fn lemma_end_is_final<T>(
    open0: bool,
    open1: bool,
    open2: bool,
    first: Pulled<T>,
    second: Pulled<T>,
)
    requires
        pull_outcome(open0, open1, first),
        pull_outcome(open1, open2, second),
        !(first is Item),
    ensures
        second is Finished,
        !open2,
{
}

} // verus!
