use mpsc::unbounded;
use mpsc::ChannelError;

#[test]
fn channel_should_work() {
    let (mut s, mut r) = unbounded();
    s.send("hello world".to_string()).unwrap();
    let msg = r.recv().unwrap();
    assert_eq!(msg, "hello world");
}

#[test]
fn receiver_drop_should_error_when_send() {
    let (mut s1, mut s2) = {
        let (s, _) = unbounded();
        let s1 = s.clone();
        let s2 = s.clone();

        (s1, s2)
    };

    assert!(s1.send(1).is_err());
    assert!(s2.send(2).is_err());
}

#[test]
fn channel_fast_path_should_work() {
    let (mut s, mut r) = unbounded();
    for i in 0..10usize {
        s.send(i).unwrap();
    }

    assert!(r.cached_items() == 0);
    // the first receive moves what is left of the queue into the cache
    assert_eq!(0, r.recv().unwrap());
    assert_eq!(r.cached_items(), 9);
    assert_eq!(s.total_queued_items(), 0);

    // the other nine come out of the cache
    let mut idx = 0usize;
    while idx < 9 {
        let i = r.next().unwrap();
        assert_eq!(idx + 1, i);
        idx += 1;
    }
    assert_eq!(idx, 9);
}

#[test]
fn new_channel_has_one_handle_at_each_end() {
    let (s, r) = unbounded::<u8>();
    assert_eq!(s.total_senders(), 1);
    assert_eq!(s.total_receivers(), 1);
    assert_eq!(s.total_queued_items(), 0);
    assert_eq!(r.total_senders(), 1);
    assert_eq!(r.cached_items(), 0);
}

#[test]
fn items_of_one_sender_arrive_in_sending_order() {
    let (mut s, mut r) = unbounded();
    let items = vec![7u32, 3, 9, 3, 0, 42];
    for item in items.iter() {
        s.send(*item).unwrap();
    }
    let mut got = Vec::new();
    for _ in 0..items.len() {
        got.push(r.recv().unwrap());
    }
    assert_eq!(got, items);
    assert_eq!(s.total_queued_items(), 0);
    assert_eq!(r.cached_items(), 0);
}

#[test]
fn sends_between_receives_keep_their_order() {
    let (mut s, mut r) = unbounded();
    s.send(1).unwrap();
    s.send(2).unwrap();
    assert_eq!(r.recv(), Ok(1));
    s.send(3).unwrap();
    assert_eq!(r.recv(), Ok(2));
    s.send(4).unwrap();
    assert_eq!(r.recv(), Ok(3));
    assert_eq!(r.recv(), Ok(4));
}

#[test]
fn every_sender_delivers() {
    let (mut s, mut r) = unbounded();
    let mut s1 = s.clone();
    let mut s2 = s.clone();

    s2.send(3).unwrap();
    s.send(1).unwrap();
    s1.send(2).unwrap();

    let mut result = [r.recv().unwrap(), r.recv().unwrap(), r.recv().unwrap()];
    assert_eq!(result, [3, 1, 2]);
    result.sort();
    assert_eq!(result, [1, 2, 3]);
}

#[test]
fn last_sender_drop_closes_the_channel() {
    let (s, mut r) = unbounded();
    let s1 = s.clone();

    for mut sender in [s, s1] {
        sender.send("hello").unwrap();
    }

    assert_eq!(r.total_senders(), 0);
    assert_eq!(r.recv(), Ok("hello"));
    assert_eq!(r.recv(), Ok("hello"));
    assert_eq!(r.recv(), Err(ChannelError::NoSender));
    assert_eq!(r.recv(), Err(ChannelError::NoSender));
    assert_eq!(r.next(), None);
}

#[test]
fn receiver_of_an_unused_channel_sees_closure() {
    let (s, mut r) = unbounded::<u64>();
    drop(s);
    assert_eq!(r.recv(), Err(ChannelError::NoSender));
    assert_eq!(r.cached_items(), 0);
}

#[test]
fn send_without_receiver_is_refused_and_queues_nothing() {
    let (mut s, r) = unbounded();
    s.send(1).unwrap();
    assert_eq!(s.total_queued_items(), 1);
    drop(r);
    assert_eq!(s.total_receivers(), 0);
    let mut other = s.clone();
    assert_eq!(s.send(2), Err(ChannelError::NoReceiver));
    assert_eq!(other.send(3), Err(ChannelError::NoReceiver));
    assert_eq!(s.total_queued_items(), 1);
}

#[test]
fn sender_count_follows_clones_and_drops() {
    let (s, r) = unbounded::<i32>();
    assert_eq!(s.total_senders(), 1);
    let a = s.clone();
    assert_eq!(s.total_senders(), 2);
    let b = a.clone();
    let c = s.clone();
    assert_eq!(r.total_senders(), 4);
    assert_eq!(b.total_senders(), 4);
    drop(a);
    assert_eq!(r.total_senders(), 3);
    drop(c);
    drop(s);
    assert_eq!(b.total_senders(), 1);
    assert_eq!(b.total_receivers(), 1);
    drop(b);
    assert_eq!(r.total_senders(), 0);
}

#[test]
fn clones_send_into_the_same_queue() {
    let (mut s, mut r) = unbounded();
    let mut twin = s.clone();
    twin.send('a').unwrap();
    assert_eq!(s.total_queued_items(), 1);
    s.send('b').unwrap();
    assert_eq!(twin.total_queued_items(), 2);
    assert_eq!(r.recv(), Ok('a'));
    assert_eq!(r.recv(), Ok('b'));
}

#[test]
fn two_channels_do_not_mix() {
    let (mut s, mut r) = unbounded();
    let (mut sender, mut receiver) = unbounded();
    s.send(1).unwrap();
    sender.send(2).unwrap();
    assert_eq!(s.total_queued_items(), 1);
    assert_eq!(sender.total_queued_items(), 1);
    assert_eq!(receiver.recv(), Ok(2));
    assert_eq!(r.recv(), Ok(1));
    drop(s);
    assert_eq!(receiver.total_senders(), 1);
    assert_eq!(r.total_senders(), 0);
}

#[test]
fn cache_is_used_up_before_the_queue_is_looked_at() {
    let (mut s, mut r) = unbounded();
    for i in 0..3 {
        s.send(i).unwrap();
    }
    assert_eq!(s.total_queued_items(), 3);
    assert_eq!(r.recv(), Ok(0));
    assert_eq!(r.cached_items(), 2);
    assert_eq!(s.total_queued_items(), 0);

    s.send(3).unwrap();
    s.send(4).unwrap();
    assert_eq!(s.total_queued_items(), 2);

    assert_eq!(r.recv(), Ok(1));
    assert_eq!(r.cached_items(), 1);
    assert_eq!(s.total_queued_items(), 2);
    assert_eq!(r.recv(), Ok(2));
    assert_eq!(r.cached_items(), 0);
    assert_eq!(s.total_queued_items(), 2);

    assert_eq!(r.recv(), Ok(3));
    assert_eq!(r.cached_items(), 1);
    assert_eq!(s.total_queued_items(), 0);
    assert_eq!(r.recv(), Ok(4));
    assert_eq!(r.cached_items(), 0);
}

#[test]
fn single_item_leaves_the_cache_empty() {
    let (mut s, mut r) = unbounded();
    s.send(5u8).unwrap();
    assert_eq!(r.recv(), Ok(5));
    assert_eq!(r.cached_items(), 0);
    assert_eq!(s.total_queued_items(), 0);
}

#[test]
fn queue_grows_past_its_first_size() {
    let (mut s, mut r) = unbounded();
    for i in 0..1000usize {
        s.send(i).unwrap();
    }
    assert_eq!(s.total_queued_items(), 1000);
    for i in 0..1000usize {
        assert_eq!(r.recv(), Ok(i));
    }
    assert_eq!(s.total_queued_items(), 0);
}

#[test]
fn next_ends_when_no_sender_is_left() {
    let (mut s, mut r) = unbounded();
    s.send(10).unwrap();
    s.send(20).unwrap();
    drop(s);
    assert_eq!(r.next(), Some(10));
    assert_eq!(r.next(), Some(20));
    assert_eq!(r.next(), None);
}

#[test]
fn items_left_behind_are_dropped_with_the_channel() {
    let (mut s, mut r) = unbounded();
    s.send(String::from("a")).unwrap();
    s.send(String::from("b")).unwrap();
    s.send(String::from("c")).unwrap();
    assert_eq!(r.recv(), Ok(String::from("a")));
    assert_eq!(r.cached_items(), 2);
    drop(r);
    assert_eq!(s.total_receivers(), 0);
    assert_eq!(s.send(String::from("d")), Err(ChannelError::NoReceiver));
}
