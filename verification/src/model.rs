//! The channel as one value: what is queued, what the receiver has cached,
//! and how many handles are alive.
//!
//! An operation of a handle is a step from one such state to the next. The
//! lock makes the steps on the queue happen one after another, so a run of the
//! channel is a sequence of steps, whatever the threads are that take them.
//! The steps are written with the spec functions of [`crate::queue`], in which
//! the contracts of the executable steps are written too.
//!
//! A poisoned lock has no place in this picture: it takes a panic under the
//! lock, and no step of the channel panics there.
use crate::error::ChannelError;
use crate::queue::admission;
use crate::queue::cache_after_take;
use crate::queue::queue_after_take;
use crate::queue::received;
use crate::queue::rest;
use crate::queue::starves;
use vstd::prelude::*;

verus! {

/// The state of one channel.
#[verifier::ext_equal]
pub struct ChannelState<T> {
    /// The shared queue, oldest item first.
    pub queue: Seq<T>,
    /// The receiver's private cache, oldest item first. Every item in it was
    /// queued before every item of `queue`.
    pub cache: Seq<T>,
    /// The number of senders alive.
    pub senders: nat,
    /// The number of receivers alive.
    pub receivers: nat,
}

/// One completed operation of a handle.
pub enum Event<T> {
    /// A sender sends an item.
    Send(T),
    /// The receiver receives, and the call returns.
    Recv,
    /// A sender is cloned.
    CloneSender,
    /// A sender is dropped.
    DropSender,
    /// The receiver is dropped.
    DropReceiver,
}

impl<T> ChannelState<T> {
    /// The state of a channel that was just made: nothing queued, one sender,
    /// one receiver.
    pub open spec fn fresh() -> Self {
        ChannelState { queue: Seq::empty(), cache: Seq::empty(), senders: 1, receivers: 1 }
    }

    /// The items that were accepted and not yet handed out, in the order in
    /// which the receiver will get them.
    pub open spec fn pending(self) -> Seq<T> {
        self.cache + self.queue
    }

    /// What `send` returns in this state.
    pub open spec fn send_result(self) -> Result<(), ChannelError> {
        admission(self.receivers)
    }

    /// The state after a send of `item`: the item is queued behind all others,
    /// unless the send is refused.
    pub open spec fn send(self, item: T) -> Self {
        if self.send_result() is Ok {
            ChannelState { queue: self.queue.push(item), ..self }
        } else {
            self
        }
    }

    /// Whether a send in this state signals the condition variable.
    pub open spec fn send_wakes(self) -> bool {
        self.send_result() is Ok && self.queue.len() == 0
    }

    /// Whether `recv` waits in this state instead of returning.
    pub open spec fn recv_blocks(self) -> bool {
        self.cache.len() == 0 && starves(self.queue.len(), self.senders)
    }

    /// What `recv` returns in a state in which it does not wait.
    pub open spec fn recv_result(self) -> Result<T, ChannelError>
        recommends
            !self.recv_blocks(),
    {
        received(self.pending())
    }

    /// The state after `recv` returned. An item of the cache is taken without
    /// a look at the queue; with an empty cache the head of the queue is taken
    /// and the rest of the queue becomes the cache.
    pub open spec fn recv(self) -> Self
        recommends
            !self.recv_blocks(),
    {
        if self.cache.len() > 0 {
            ChannelState { cache: rest(self.cache), ..self }
        } else {
            ChannelState {
                queue: queue_after_take(self.queue, self.cache),
                cache: cache_after_take(self.queue, self.cache),
                ..self
            }
        }
    }

    /// The state after a sender was cloned.
    pub open spec fn clone_sender(self) -> Self {
        ChannelState { senders: self.senders + 1, ..self }
    }

    /// The state after a sender was dropped.
    pub open spec fn drop_sender(self) -> Self
        recommends
            self.senders > 0,
    {
        ChannelState { senders: (self.senders - 1) as nat, ..self }
    }

    /// The state after the receiver was dropped: what it had cached is gone
    /// with it.
    pub open spec fn drop_receiver(self) -> Self
        recommends
            self.receivers > 0,
    {
        ChannelState { cache: Seq::empty(), receivers: (self.receivers - 1) as nat, ..self }
    }

    /// Whether `event` can happen in this state: the handle that acts is
    /// alive, and a `recv` that returns did not have to wait.
    pub open spec fn enabled(self, event: Event<T>) -> bool {
        match event {
            Event::Send(_) => self.senders > 0,
            Event::Recv => self.receivers > 0 && !self.recv_blocks(),
            Event::CloneSender => self.senders > 0,
            Event::DropSender => self.senders > 0,
            Event::DropReceiver => self.receivers > 0,
        }
    }

    /// The state after `event`.
    pub open spec fn step(self, event: Event<T>) -> Self {
        match event {
            Event::Send(item) => self.send(item),
            Event::Recv => self.recv(),
            Event::CloneSender => self.clone_sender(),
            Event::DropSender => self.drop_sender(),
            Event::DropReceiver => self.drop_receiver(),
        }
    }

    /// The state after the events of `events`, first to last.
    pub open spec fn run(self, events: Seq<Event<T>>) -> Self
        decreases events.len(),
    {
        if events.len() == 0 {
            self
        } else {
            self.run(events.drop_last()).step(events.last())
        }
    }

    /// Whether the events of `events` can happen one after another, starting
    /// in this state.
    pub open spec fn admits(self, events: Seq<Event<T>>) -> bool
        decreases events.len(),
    {
        events.len() == 0 || (self.admits(events.drop_last()) && self.run(
            events.drop_last(),
        ).enabled(events.last()))
    }

    /// The state after the items of `items` were sent, first to last.
    pub open spec fn send_all(self, items: Seq<T>) -> Self
        decreases items.len(),
    {
        if items.len() == 0 {
            self
        } else {
            self.send_all(items.drop_last()).send(items.last())
        }
    }

    /// The state after `n` calls of `recv` that returned.
    pub open spec fn recv_n(self, n: nat) -> Self
        decreases n,
    {
        if n == 0 {
            self
        } else {
            self.recv_n((n - 1) as nat).recv()
        }
    }

    /// What the first `n` calls of `recv` return, in the order of the calls.
    pub open spec fn received(self, n: nat) -> Seq<Result<T, ChannelError>> {
        Seq::new(n, |k: int| self.recv_n(k as nat).recv_result())
    }
}

/// What the events of `events` hand to the receiver, in the order in which
/// it gets them, when they start in state `start`.
pub open spec fn handed_out<T>(start: ChannelState<T>, events: Seq<Event<T>>) -> Seq<T>
    decreases events.len(),
{
    if events.len() == 0 {
        Seq::empty()
    } else {
        let before = start.run(events.drop_last());
        let earlier = handed_out(start, events.drop_last());
        match (events.last(), before.recv_result()) {
            (Event::Recv, Ok(item)) => earlier.push(item),
            _ => earlier,
        }
    }
}

/// The items that the sends among `events` put into the queue, in the order
/// of the sends, when they start in state `start`.
pub open spec fn taken_in<T>(start: ChannelState<T>, events: Seq<Event<T>>) -> Seq<T>
    decreases events.len(),
{
    if events.len() == 0 {
        Seq::empty()
    } else {
        let before = start.run(events.drop_last());
        let earlier = taken_in(start, events.drop_last());
        match (events.last(), before.send_result()) {
            (Event::Send(item), Ok(_)) => earlier.push(item),
            _ => earlier,
        }
    }
}

/// How many of `events` clone a sender.
pub open spec fn senders_made<T>(events: Seq<Event<T>>) -> nat
    decreases events.len(),
{
    if events.len() == 0 {
        0
    } else {
        senders_made(events.drop_last()) + if events.last() is CloneSender {
            1nat
        } else {
            0nat
        }
    }
}

/// How many of `events` drop a sender.
pub open spec fn senders_dropped<T>(events: Seq<Event<T>>) -> nat
    decreases events.len(),
{
    if events.len() == 0 {
        0
    } else {
        senders_dropped(events.drop_last()) + if events.last() is DropSender {
            1nat
        } else {
            0nat
        }
    }
}

/// Whether the receiver lives through `events`.
pub open spec fn keeps_receiver<T>(events: Seq<Event<T>>) -> bool {
    forall|i: int| 0 <= i < events.len() ==> !(#[trigger] events[i] is DropReceiver)
}

} // verus!
