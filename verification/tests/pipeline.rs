use pipeliner::ordered::promise;
use pipeliner::channel::{fits_in_channel, MAX_CHANNEL_CAPACITY};
use pipeliner::ordered::{hand_out, output_capacity, queued};
use pipeliner::unordered::{panic_msg_from, panic_report};
use pipeliner::{classify, ordered, unordered, Pipeline, Pulled, Step};

// The ordered pipeline, driven on the test's own thread: each batch of input
// values is handed out (queuing a promise per value, as many as the output
// channel holds), the promises are kept in reverse order, and the consumer
// still sees the results in input order.
#[test]
fn basic_test_ordered() {
    let input = vec![1, 2, 3, 4, 5, 6, 7, 8, 9, 10, 11, 12, 13, 14, 42];
    let parts = ordered::prepare::<_, i32>(input.with_threads(10));
    let capacity = output_capacity(0, parts.num_threads);
    let mut values = parts.input;
    let mut output = parts.output;
    let sink = parts.promise_sink.as_sender();
    let mut results: Vec<i32> = Vec::new();
    let mut done = false;
    while !done {
        let mut batch = Vec::new();
        while batch.len() < capacity {
            match values.next() {
                Some(x) => {
                    let (tx, rx) = promise::new();
                    batch.push(hand_out(x, tx, rx, sink).unwrap());
                }
                None => {
                    done = true;
                    break;
                }
            }
        }
        let taken = batch.len();
        while let Some((x, tx)) = batch.pop() {
            tx.send(x + 1);
        }
        for _ in 0..taken {
            match output.pull() {
                Pulled::Item(v) => results.push(v),
                _ => panic!("a kept promise must give its value"),
            }
        }
    }
    drop(parts.promise_sink);
    assert!(matches!(output.pull(), Pulled::Finished));

    // We shouldn't need to sort these:
    let expected = vec![2, 3, 4, 5, 6, 7, 8, 9, 10, 11, 12, 13, 14, 15, 43];
    assert_eq!(expected, results);
}

#[test]
fn zero_threads_means_one() {
    let (_, threads, buffer) = vec![1, 2, 3].with_threads(0).into_parts();
    assert_eq!(threads, 1);
    assert_eq!(buffer, 0);
}

#[test]
fn with_threads_keeps_the_count_and_no_buffer() {
    let (mut input, threads, buffer) = (0..100).with_threads(50).into_parts();
    assert_eq!(threads, 50);
    assert_eq!(buffer, 0);
    assert_eq!(input.next(), Some(0));
}

#[test]
fn vec_input_keeps_its_order() {
    let (input, _, _) = vec![5, 6, 7].with_threads(2).into_parts();
    assert_eq!(input.collect::<Vec<i32>>(), vec![5, 6, 7]);
}

#[test]
fn builder_settings_are_kept() {
    let (_, threads, buffer) = (0..100).with_threads(50).out_buffer(100).num_threads(4).into_parts();
    assert_eq!(threads, 4);
    assert_eq!(buffer, 100);
    let (_, threads, buffer) = (0..10).with_threads(3).num_threads(0).out_buffer(7).out_buffer(2).into_parts();
    assert_eq!(threads, 1);
    assert_eq!(buffer, 2);
}

#[test]
fn ordered_capacity_is_at_least_the_threads() {
    assert_eq!(output_capacity(0, 10), 10);
    assert_eq!(output_capacity(100, 4), 100);
    assert_eq!(output_capacity(6, 6), 6);
}

#[test]
fn panic_message_prefers_the_static_str() {
    assert_eq!(panic_msg_from(Some("boom"), Some("other")), "boom");
    assert_eq!(panic_msg_from(None, Some("I don't like the number 14")), "I don't like the number 14");
    assert_eq!(panic_msg_from(None, None), "<Unrecoverable panic message.>");
}

#[test]
fn panic_report_wraps_the_message() {
    assert_eq!(
        panic_report("I don't like the number 14"),
        "Worker thread panicked with message: [I don't like the number 14]"
    );
    assert_eq!(panic_report(""), "Worker thread panicked with message: []");
}

#[test]
fn promise_gives_its_value() {
    let (tx, rx) = promise::new();
    tx.send(7);
    assert_eq!(rx.receive(), Ok(7));
}

#[test]
fn broken_promise_gives_an_error() {
    let (tx, rx) = promise::new::<i32>();
    drop(tx);
    assert_eq!(rx.receive(), Err(()));
}

#[test]
fn promise_send_without_receiver_does_not_fail() {
    let (tx, rx) = promise::new::<i32>();
    drop(rx);
    tx.send(1);
}

#[test]
fn received_maps_the_channel_outcome() {
    assert_eq!(promise::received(Ok::<i32, crossbeam_channel::RecvError>(3)), Ok(3));
    assert_eq!(promise::received::<i32>(Err(crossbeam_channel::RecvError)), Err(()));
}

#[test]
fn classify_reads_what_workers_sent() {
    assert!(matches!(classify::<i32>(None), Pulled::Finished));
    assert!(matches!(classify::<i32>(Some(Err(()))), Pulled::Failed));
    assert!(matches!(classify(Some(Ok(9))), Pulled::Item(9)));
}

#[test]
fn unordered_output_stops_at_a_failed_worker() {
    let parts = unordered::prepare::<_, i32>((0..3).with_threads(2).out_buffer(5));
    assert_eq!(parts.num_threads, 2);
    let mut output = parts.output;
    parts.output_tx.as_sender().send(Ok(1)).unwrap();
    parts.output_tx.as_sender().send(Ok(2)).unwrap();
    parts.output_tx.as_sender().send(Err(())).unwrap();
    parts.output_tx.as_sender().send(Ok(3)).unwrap();
    assert!(matches!(output.pull(), Pulled::Item(1)));
    assert!(matches!(output.pull(), Pulled::Item(2)));
    assert!(matches!(output.pull(), Pulled::Failed));
    // The stream has ended: what is left in the channel is never read.
    assert!(matches!(output.pull(), Pulled::Finished));
    assert!(matches!(output.pull(), Pulled::Finished));
    // The consumer let go of its end, so workers see that nobody listens.
    assert!(parts.output_tx.as_sender().send(Ok(4)).is_err());
}

#[test]
fn unordered_output_finishes_when_workers_are_gone() {
    let parts = unordered::prepare::<_, i32>(vec![1].with_threads(1).out_buffer(1));
    let mut output = parts.output;
    parts.output_tx.as_sender().send(Ok(10)).unwrap();
    drop(parts.output_tx);
    assert!(matches!(output.pull(), Pulled::Item(10)));
    assert!(matches!(output.pull(), Pulled::Finished));
    assert!(matches!(output.pull(), Pulled::Finished));
}

#[test]
fn ordered_output_fails_on_a_broken_promise() {
    let parts = ordered::prepare::<_, i32>(vec![1, 2].with_threads(2));
    let mut output = parts.output;
    let sink = parts.promise_sink.as_sender();
    let (tx, rx) = promise::new();
    let (first, tx1) = hand_out(1, tx, rx, sink).unwrap();
    let (tx, rx) = promise::new();
    let (second, tx2) = hand_out(2, tx, rx, sink).unwrap();
    assert_eq!((first, second), (1, 2));
    tx1.send(100);
    drop(tx2);
    assert!(matches!(output.pull(), Pulled::Item(100)));
    assert!(matches!(output.pull(), Pulled::Failed));
    assert!(matches!(output.pull(), Pulled::Finished));
}

#[test]
fn hand_out_stops_when_nobody_listens() {
    let parts = ordered::prepare::<_, i32>(vec![1].with_threads(1));
    drop(parts.output);
    let (tx, rx) = promise::new::<i32>();
    assert!(hand_out(5, tx, rx, parts.promise_sink.as_sender()).is_none());
}

#[test]
fn unordered_step_joins_on_any_end() {
    assert!(matches!(unordered::next_step(Pulled::Item(3)), Step::Yield(3)));
    assert!(matches!(unordered::next_step::<i32>(Pulled::Finished), Step::JoinAndEnd));
    assert!(matches!(unordered::next_step::<i32>(Pulled::Failed), Step::JoinAndEnd));
}

#[test]
fn ordered_step_fails_on_a_broken_promise() {
    assert!(matches!(ordered::next_step(Pulled::Item(3)), Step::Yield(3)));
    assert!(matches!(ordered::next_step::<i32>(Pulled::Finished), Step::JoinAndEnd));
    assert!(matches!(ordered::next_step::<i32>(Pulled::Failed), Step::JoinAndFail));
}

#[test]
fn array_input_keeps_its_elements() {
    let (input, threads, buffer) = [4, 5, 6].with_threads(3).into_parts();
    assert_eq!((threads, buffer), (3, 0));
    assert_eq!(input.collect::<Vec<i32>>(), vec![4, 5, 6]);
}

#[test]
fn queued_hands_back_the_value_only_when_sent() {
    let (tx, _rx) = promise::new::<i32>();
    match queued(5, tx, Ok(())) {
        Some((value, _)) => assert_eq!(value, 5),
        None => panic!("a queued promise must give the value back"),
    }
    let (tx, rx) = promise::new::<i32>();
    assert!(queued(5, tx, Err(crossbeam_channel::SendError(rx))).is_none());
}

#[test]
fn channel_sizes_that_fit() {
    assert!(fits_in_channel::<u8>(0));
    assert!(fits_in_channel::<u8>(1000));
    assert!(fits_in_channel::<u8>(MAX_CHANNEL_CAPACITY));
    assert!(!fits_in_channel::<u8>(MAX_CHANNEL_CAPACITY + 1));
    assert!(fits_in_channel::<[u64; 1 << 30]>(1));
    assert!(!fits_in_channel::<[u64; 1 << 30]>(MAX_CHANNEL_CAPACITY));
}

#[test]
fn option_input_is_its_value() {
    let (input, threads, _) = Some(8).with_threads(2).into_parts();
    assert_eq!(threads, 2);
    assert_eq!(input.collect::<Vec<i32>>(), vec![8]);
    let (input, _, _) = None::<i32>.with_threads(2).into_parts();
    assert_eq!(input.count(), 0);
}
