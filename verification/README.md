# pipeliner

A library for multithreaded work pipelines: each step of a pipeline takes its
input lazily from an iterator, runs the work on a chosen number of worker
threads, and hands out the results through an iterator, either as they come
(`map`) or in the order of their inputs (`ordered_map`). A worker that panics
makes the consumer panic too, so that no result goes missing silently.

Layout:

- `src/` is the library, verified with Verus: the pipeline's configuration
  (`PipelineBuilder`, the `Pipeline` trait for iterators, `Vec`, arrays and
  `Option`), the setup of the ordered and
  unordered output channels, the promises through which ordered results
  travel, the consumer's decisions on what it pulls from its channel, and the
  panic report. `src/channel.rs` declares the `crossbeam_channel` items that
  it calls.
- `app/` starts and joins the worker threads, shares the input between them
  behind a mutex, and turns a worker's panic into a panic of the consumer; it
  offers `map` and `ordered_map` on a `PipelineBuilder` through the
  `ParallelMap` trait.
- `tests/` drives the library's channels on a single thread.
