//! End-to-end scenarios, driven as single-threaded simulations: the tests
//! play the cooperative scheduler, polling each suspendable computation with
//! an integer waker token and re-polling whichever waiters an admit wakes.

use whisk::channel::Channel;

enum Cmd {
    /// Tell the worker to add, replying on the carried channel.
    Add(u32, u32, Channel<u32, u32>),
}

#[test]
fn addition_actor() {
    // The worker's command stream carries optional commands; None is the
    // shutdown signal the dropped worker handle would send.
    let mut commands: Channel<Option<Cmd>, u32> = Channel::new();
    let reply: Channel<u32, u32> = Channel::new();

    // Tasker: send the command with its one-shot reply channel.
    let mut m = commands.send(Some(Cmd::Add(43, 400, reply)));
    let (done, _) = m.poll(&mut commands, 1, 11);
    assert!(done);

    // Worker: receive the command and serve it.
    let (got, _) = commands.poll_internal(2, 22);
    let cmd = match got {
        Some(Some(cmd)) => cmd,
        _ => panic!("worker expected a command"),
    };
    match cmd {
        Cmd::Add(a, b, mut r) => {
            let mut mr = r.send(a + b);
            let (done, _) = mr.poll(&mut r, 3, 33);
            assert!(done);
            // Tasker: receive the response.
            let (resp, _) = r.poll_internal(4, 44);
            assert_eq!(resp, Some(443));
        }
    }

    // Tasker: shut the worker down.
    let mut m = commands.send(None);
    let (done, _) = m.poll(&mut commands, 1, 11);
    assert!(done);
    let (got, _) = commands.poll_internal(2, 22);
    assert!(matches!(got, Some(None)));
}

#[test]
fn sequential_round_trip() {
    let mut ch: Channel<i32, u32> = Channel::new();
    let mut received: Vec<i32> = Vec::new();
    for v in [1, 2, 3] {
        let mut m = ch.send(v);
        let (done, _) = m.poll(&mut ch, 1, 11);
        assert!(done);
        let (got, _) = ch.poll_internal(2, 22);
        received.push(got.expect("a value was in transit"));
    }
    assert_eq!(received, vec![1, 2, 3]);
}

#[test]
fn round_trip_with_parked_consumer() {
    let mut ch: Channel<i32, u32> = Channel::new();
    let mut received: Vec<i32> = Vec::new();
    for v in [1, 2, 3] {
        // The consumer arrives first and parks.
        let (got, _) = ch.poll_internal(2, 22);
        assert_eq!(got, None);
        // The producer's admit wakes it.
        let mut m = ch.send(v);
        let (done, woken) = m.poll(&mut ch, 1, 11);
        assert!(done);
        assert_eq!(woken, vec![22]);
        let (got, _) = ch.poll_internal(2, 22);
        received.push(got.expect("a value was in transit"));
    }
    assert_eq!(received, vec![1, 2, 3]);
}

#[test]
fn parallel_rendezvous() {
    // Two tasks share one channel: A's send is admitted into the empty slot
    // and completes; B's receive then yields the value.
    let mut ch: Channel<u32, u32> = Channel::new();
    let mut a = ch.send(7);
    let (done, _) = a.poll(&mut ch, 1, 11);
    assert!(done);
    let (got, _) = ch.poll_internal(2, 22);
    assert_eq!(got, Some(7));
}

#[test]
fn cancellation_before_admit() {
    let mut ch: Channel<u32, u32> = Channel::new();
    // Task A starts a send and drops it before any receiver exists.
    let a = ch.send(9);
    drop(a);
    // Task B sends, task C receives: C sees 10 and never sees 9.
    let mut b = ch.send(10);
    let (done, _) = b.poll(&mut ch, 1, 11);
    assert!(done);
    let (got, _) = ch.poll_internal(2, 22);
    assert_eq!(got, Some(10));
    // Nothing else is ever in transit.
    let (got, _) = ch.poll_internal(2, 22);
    assert_eq!(got, None);
}

#[test]
fn stream_termination() {
    // A channel of optional payload viewed as a stream: Some(x) is the next
    // element, None is end-of-stream.
    let mut ch: Channel<Option<i32>, u32> = Channel::new();
    let mut elements: Vec<i32> = Vec::new();
    let mut terminated = false;
    for item in [Some(1), Some(2), None] {
        let mut m = ch.send(item);
        let (done, _) = m.poll(&mut ch, 1, 11);
        assert!(done);
        let (got, _) = ch.poll_internal(2, 22);
        match got.expect("a value was in transit") {
            Some(x) => elements.push(x),
            None => {
                terminated = true;
                break;
            }
        }
    }
    assert_eq!(elements, vec![1, 2]);
    assert!(terminated);
}

#[test]
fn multi_waiter_fan_in() {
    let mut ch: Channel<u32, u32> = Channel::new();
    // Ten receivers park, each under its own waiter identifier.
    let mut received: [Option<u32>; 11] = [None; 11];
    for id in 1..=10usize {
        let (got, _) = ch.poll_internal(id, 100 + id as u32);
        assert_eq!(got, None);
    }
    // A producer sends ten values; after each admit the scheduler re-polls
    // every woken receiver once, in wake order.
    for v in 0..10u32 {
        let mut m = ch.send(v);
        let (done, woken) = m.poll(&mut ch, 99, 999);
        assert!(done);
        assert!(!woken.is_empty());
        let mut delivered = false;
        for tok in woken {
            let id = (tok - 100) as usize;
            let (got, senders) = ch.poll_internal(id, tok);
            assert!(senders.is_empty());
            if let Some(x) = got {
                // Only the first re-polled receiver finds the value.
                assert!(!delivered);
                assert!(received[id].is_none());
                delivered = true;
                received[id] = Some(x);
            }
        }
        assert!(delivered);
    }
    // Every receiver observed exactly one value, every value exactly once.
    let mut values: Vec<u32> = (1..=10usize).map(|id| received[id].expect("one each")).collect();
    values.sort();
    assert_eq!(values, (0..10).collect::<Vec<u32>>());
}
