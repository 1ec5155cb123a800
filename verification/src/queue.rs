//! The steps that a handle takes on the queue while it holds the lock.
//!
//! Everything here works on plain values: the locked queue, the receiver's
//! private cache and the counts read from the two counters. The handles
//! obtain these values from the synchronisation primitives and leave every
//! decision to the functions of this module.
use crate::error::ChannelError;
use std::collections::VecDeque;
use vstd::prelude::*;

verus! {

/// Whether a send is accepted when `receivers` receivers are alive.
pub open spec fn admission(receivers: nat) -> Result<(), ChannelError> {
    if receivers == 0 {
        Err(ChannelError::NoReceiver)
    } else {
        Ok(())
    }
}

/// Whether a receiver that finds `queued` items in the shared queue must
/// wait: nothing is there to take, and a sender may still bring something.
pub open spec fn starves(queued: nat, senders: nat) -> bool {
    queued == 0 && senders > 0
}

/// The item at the head of `queue`, if there is one.
pub open spec fn front<T>(queue: Seq<T>) -> Option<T> {
    if queue.len() > 0 {
        Some(queue[0])
    } else {
        None
    }
}

/// What the receiver gets from a queue on which it does not have to wait:
/// the head, or the news that no sender is left to fill the empty queue.
pub open spec fn received<T>(queue: Seq<T>) -> Result<T, ChannelError> {
    match front(queue) {
        Some(item) => Ok(item),
        None => Err(ChannelError::NoSender),
    }
}

/// What follows the head of `queue`.
pub open spec fn rest<T>(queue: Seq<T>) -> Seq<T> {
    if queue.len() > 0 {
        queue.skip(1)
    } else {
        queue
    }
}

/// The shared queue after its head was taken: where more than the head was
/// queued, the rest has moved to the cache and the queue holds what the cache
/// held before.
pub open spec fn queue_after_take<T>(queue: Seq<T>, cache: Seq<T>) -> Seq<T> {
    if queue.len() > 1 {
        cache
    } else {
        Seq::empty()
    }
}

/// The cache after the head of the shared queue was taken: the rest of the
/// queue, where there is a rest.
pub open spec fn cache_after_take<T>(queue: Seq<T>, cache: Seq<T>) -> Seq<T> {
    if queue.len() > 1 {
        rest(queue)
    } else {
        cache
    }
}

/// Decides a send from the number of receivers that the counter showed.
pub fn accept(receivers: usize) -> (res: Result<(), ChannelError>)
    ensures
        res == admission(receivers as nat),
{
    if receivers == 0 {
        Err(ChannelError::NoReceiver)
    } else {
        Ok(())
    }
}

/// Appends `item` to the locked queue and reports whether the queue was empty
/// before, which is when a waiting receiver has to be woken.
pub fn enqueue<T>(queue: &mut VecDeque<T>, item: T) -> (was_empty: bool)
    ensures
        final(queue)@ == old(queue)@.push(item),
        was_empty == (old(queue)@.len() == 0),
{
    let was_empty = queue.len() == 0;
    queue.push_back(item);
    was_empty
}

/// Decides whether the receiver goes on waiting, from the length of the
/// locked queue and the number of senders that the counter showed.
pub fn starved(queued: usize, senders: usize) -> (wait: bool)
    ensures
        wait == starves(queued as nat, senders as nat),
{
    queued == 0 && senders != 0
}

/// Takes the head of the locked queue once the wait is over. Where more
/// items are queued behind it, the two buffers change places, so that the
/// receiver finds the rest in its cache without taking the lock again. An
/// empty queue means that the wait ended because no sender is left.
pub fn dequeue<T>(queue: &mut VecDeque<T>, cache: &mut VecDeque<T>) -> (res: Result<
    T,
    ChannelError,
>)
    ensures
        res == received(old(queue)@),
        final(queue)@ == queue_after_take(old(queue)@, old(cache)@),
        final(cache)@ == cache_after_take(old(queue)@, old(cache)@),
{
    match queue.pop_front() {
        Some(item) => {
            if queue.len() != 0 {
                std::mem::swap(cache, queue);
            }
            Ok(item)
        },
        None => Err(ChannelError::NoSender),
    }
}

/// Takes the head of the receiver's cache.
pub fn take_cached<T>(cache: &mut VecDeque<T>) -> (item: Option<T>)
    ensures
        item == front(old(cache)@),
        final(cache)@ == rest(old(cache)@),
{
    cache.pop_front()
}

} // verus!
