use mpsc::queue::accept;
use mpsc::queue::dequeue;
use mpsc::queue::enqueue;
use mpsc::queue::starved;
use mpsc::queue::take_cached;
use mpsc::ChannelError;
use std::collections::VecDeque;

#[test]
fn accept_refuses_only_without_receiver() {
    assert_eq!(accept(0), Err(ChannelError::NoReceiver));
    assert_eq!(accept(1), Ok(()));
    assert_eq!(accept(usize::MAX), Ok(()));
}

#[test]
fn enqueue_appends_and_reports_empty_queue() {
    let mut queue = VecDeque::new();
    assert!(enqueue(&mut queue, 'x'));
    assert!(!enqueue(&mut queue, 'y'));
    assert!(!enqueue(&mut queue, 'z'));
    assert_eq!(queue, VecDeque::from(vec!['x', 'y', 'z']));
}

#[test]
fn starved_needs_empty_queue_and_live_sender() {
    assert!(starved(0, 1));
    assert!(starved(0, usize::MAX));
    assert!(!starved(0, 0));
    assert!(!starved(1, 0));
    assert!(!starved(1, 1));
}

#[test]
fn dequeue_of_empty_queue_changes_nothing() {
    let mut queue: VecDeque<i32> = VecDeque::new();
    let mut cache: VecDeque<i32> = VecDeque::from(vec![8]);
    assert_eq!(dequeue(&mut queue, &mut cache), Err(ChannelError::NoSender));
    assert!(queue.is_empty());
    assert_eq!(cache, VecDeque::from(vec![8]));
}

#[test]
fn dequeue_of_single_item_keeps_the_buffers_in_place() {
    let mut queue = VecDeque::from(vec![1]);
    let mut cache = VecDeque::from(vec![8, 9]);
    assert_eq!(dequeue(&mut queue, &mut cache), Ok(1));
    assert!(queue.is_empty());
    assert_eq!(cache, VecDeque::from(vec![8, 9]));
}

#[test]
fn dequeue_moves_the_rest_into_the_cache() {
    let mut queue = VecDeque::from(vec![1, 2, 3]);
    let mut cache = VecDeque::new();
    assert_eq!(dequeue(&mut queue, &mut cache), Ok(1));
    assert!(queue.is_empty());
    assert_eq!(cache, VecDeque::from(vec![2, 3]));
}

#[test]
fn dequeue_swaps_the_two_buffers() {
    let mut queue = VecDeque::from(vec![1, 2, 3]);
    let mut cache = VecDeque::from(vec![8, 9]);
    assert_eq!(dequeue(&mut queue, &mut cache), Ok(1));
    assert_eq!(queue, VecDeque::from(vec![8, 9]));
    assert_eq!(cache, VecDeque::from(vec![2, 3]));
}

#[test]
fn take_cached_takes_the_head() {
    let mut cache = VecDeque::from(vec![4, 5]);
    assert_eq!(take_cached(&mut cache), Some(4));
    assert_eq!(cache, VecDeque::from(vec![5]));
    assert_eq!(take_cached(&mut cache), Some(5));
    assert!(cache.is_empty());
    assert_eq!(take_cached(&mut cache), None);
    assert!(cache.is_empty());
}

#[test]
fn errors_say_what_went_wrong() {
    assert_eq!(ChannelError::NoReceiver.message(), "no receiver left");
    assert_eq!(ChannelError::NoSender.message(), "no sender left");
    assert_eq!(ChannelError::LockPoisoned.message(), "lock poisoned");
}
