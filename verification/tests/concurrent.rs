use crossbeam::thread::scope;
use mpsc::unbounded;
use mpsc::ChannelError;

#[test]
fn multi_channel_should_work() {
    let (mut s, mut r) = unbounded();
    let mut s1 = s.clone();
    let mut s2 = s.clone();

    scope(|threads| {
        let t1 = threads.spawn(move |_| {
            s.send(1).unwrap();
        });
        let t2 = threads.spawn(move |_| {
            s1.send(2).unwrap();
        });
        let t3 = threads.spawn(move |_| {
            s2.send(3).unwrap();
        });

        for handle in [t1, t2, t3] {
            handle.join().unwrap()
        }
    })
    .unwrap();

    let mut result = [r.recv().unwrap(), r.recv().unwrap(), r.recv().unwrap()];

    result.sort();
    assert_eq!(result, [1, 2, 3])
}

#[test]
fn last_sender_drop_should_error_when_receive() {
    let (s, mut r) = unbounded();
    let s1 = s.clone();

    let senders = [s, s1];
    let total = senders.len();

    for mut sender in senders {
        scope(|threads| {
            threads
                .spawn(move |_| {
                    sender.send("hello").unwrap();
                })
                .join()
                .unwrap();
        })
        .unwrap();
    }

    for _ in 0..total {
        r.recv().unwrap();
    }

    assert!(r.recv().is_err());
}

#[test]
fn receiver_in_another_thread_gets_every_item_in_order() {
    let (mut s, mut r) = unbounded();
    let s1 = s.clone();

    scope(|threads| {
        threads.spawn(|_| {
            for expected in 0..100usize {
                assert_eq!(r.recv(), Ok(expected));
            }
        });
        threads.spawn(|_| {
            for i in 0..100usize {
                s.send(i).unwrap();
            }
        });
    })
    .unwrap();

    assert_eq!(s1.total_queued_items(), 0);
    assert_eq!(r.cached_items(), 0);
}

#[test]
fn receiver_that_came_first_is_woken_by_each_send() {
    let (mut s, mut r) = unbounded();

    scope(|threads| {
        let (mut ack, mut acks) = unbounded();
        threads.spawn(move |_| {
            for expected in 0..50u32 {
                assert_eq!(r.recv(), Ok(expected));
                ack.send(expected).unwrap();
            }
        });
        // the next item is sent only after the last one was received, so the
        // receiver finds the queue empty each time it comes back
        for i in 0..50u32 {
            s.send(i).unwrap();
            assert_eq!(acks.recv(), Ok(i));
            assert_eq!(s.total_queued_items(), 0);
        }
    })
    .unwrap();
}

#[test]
fn concurrent_senders_keep_their_own_order() {
    let (s, mut r) = unbounded();
    let per_sender = 250usize;
    let senders: Vec<_> = (0..4usize).map(|id| (id, s.clone())).collect();
    drop(s);

    let mut got = Vec::new();
    scope(|threads| {
        for (id, mut sender) in senders {
            threads.spawn(move |_| {
                for seq in 0..per_sender {
                    sender.send((id, seq)).unwrap();
                }
            });
        }
        for _ in 0..4 * per_sender {
            got.push(r.recv().unwrap());
        }
    })
    .unwrap();

    assert_eq!(got.len(), 4 * per_sender);
    for id in 0..4usize {
        let mine: Vec<usize> = got.iter().filter(|item| item.0 == id).map(|item| item.1).collect();
        let sent: Vec<usize> = (0..per_sender).collect();
        assert_eq!(mine, sent);
    }
    assert_eq!(r.total_senders(), 0);
    assert_eq!(r.recv(), Err(ChannelError::NoSender));
}
