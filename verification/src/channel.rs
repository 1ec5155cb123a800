//! The two ends of a channel and the state that they share.
use crate::error::ChannelError;
use crate::queue::accept;
use crate::queue::dequeue;
use crate::queue::enqueue;
use crate::queue::front;
use crate::queue::received;
use crate::queue::rest;
use crate::queue::starved;
use crate::queue::take_cached;
use crate::sync::count_down;
use crate::sync::locked_queue;
use crate::sync::share;
use crate::sync::wait_while_starved;
use std::collections::VecDeque;
use std::sync::atomic::AtomicUsize;
use std::sync::atomic::Ordering;
use std::sync::Arc;
use std::sync::Condvar;
use std::sync::Mutex;
use vstd::prelude::*;

verus! {

/// The room that the queue and the cache of a new channel have before they
/// grow.
const INITIAL_SIZE: usize = 12;

/// What the handles of one channel own together.
#[verifier::reject_recursive_types(T)]
pub struct Shared<T> {
    /// The items that were sent and not yet taken, oldest first.
    queue: Mutex<VecDeque<T>>,
    /// Signalled when an item is put into the empty queue.
    available: Condvar,
    /// The number of senders alive.
    senders: AtomicUsize,
    /// The number of receivers alive.
    receivers: AtomicUsize,
}

/// The sending end of a channel. It can be cloned; every clone sends into the
/// same queue.
#[verifier::reject_recursive_types(T)]
pub struct Sender<T> {
    shared: Arc<Shared<T>>,
}

/// The receiving end of a channel. There is one for each channel.
#[verifier::reject_recursive_types(T)]
pub struct Receiver<T> {
    shared: Arc<Shared<T>>,
    /// Items that were taken out of the shared queue and not yet handed out.
    /// No other handle sees them.
    cache: VecDeque<T>,
}

impl<T> Default for Shared<T> {
    /// The shared state of a new channel: nothing queued, one sender and one
    /// receiver.
    fn default() -> Self {
        Shared {
            queue: Mutex::new(VecDeque::with_capacity(INITIAL_SIZE)),
            available: Condvar::new(),
            senders: AtomicUsize::new(1),
            receivers: AtomicUsize::new(1),
        }
    }
}

/// Makes a channel and returns its two ends.
pub fn unbounded<T>() -> (ends: (Sender<T>, Receiver<T>))
    ensures
        ends.0.channel() == ends.1.channel(),
        ends.1.cached() == Seq::<T>::empty(),
{
    let shared = Arc::new(Shared::default());
    let sender = Sender { shared: share(&shared) };
    let receiver = Receiver { shared, cache: VecDeque::with_capacity(INITIAL_SIZE) };
    (sender, receiver)
}

/// Tests, with the lock held, whether the receiver has to go on waiting: the
/// queue is empty and the sender counter is not zero.
pub(crate) fn keeps_waiting<T>(queue: &VecDeque<T>, senders: &AtomicUsize) -> (wait: bool)
    ensures
        wait ==> queue@.len() == 0,
{
    let alive: usize = senders.load(Ordering::SeqCst);
    starved(queue.len(), alive)
}

impl<T> Sender<T> {
    /// The state that this sender shares with the other handles of its
    /// channel.
    pub closed spec fn channel(&self) -> Shared<T> {
        *self.shared
    }

    /// Queues `item` for the receiver and wakes the receiver if the queue was
    /// empty. It never waits for the receiver.
    ///
    /// The send is refused with `NoReceiver`, and the lock is not taken, if
    /// the receiver counter is zero when it is read. It fails with
    /// `LockPoisoned` if a thread panicked while it held the lock. In both
    /// cases the item is dropped.
    pub fn send(&mut self, item: T) -> (res: Result<(), ChannelError>)
        ensures
            final(self).channel() == old(self).channel(),
            res != Err::<(), ChannelError>(ChannelError::NoSender),
    {
        let receivers = self.total_receivers();
        match accept(receivers) {
            Ok(_) => {},
            Err(refused) => {
                return Err(refused);
            },
        }
        let was_empty = {
            let mut guard = match self.shared.queue.lock() {
                Ok(guard) => guard,
                Err(_) => {
                    return Err(ChannelError::LockPoisoned);
                },
            };
            enqueue(locked_queue(&mut guard), item)
        };
        if was_empty {
            self.shared.available.notify_one();
        }
        Ok(())
    }

    /// The receiver counter as it is now.
    pub fn total_receivers(&self) -> usize {
        self.shared.receivers.load(Ordering::SeqCst)
    }

    /// The sender counter as it is now.
    pub fn total_senders(&self) -> usize {
        self.shared.senders.load(Ordering::SeqCst)
    }

    /// The length of the shared queue as it is now. What the receiver holds
    /// in its cache is not counted. The lock is taken for the look, also
    /// when it is poisoned.
    pub fn total_queued_items(&self) -> usize {
        let mut guard = match self.shared.queue.lock() {
            Ok(guard) => guard,
            Err(poisoned) => poisoned.into_inner(),
        };
        locked_queue(&mut guard).len()
    }
}

impl<T> Clone for Sender<T> {
    /// One more sender for the same channel. The sender counter goes up by
    /// one.
    fn clone(&self) -> (res: Self)
        ensures
            res.channel() == self.channel(),
    {
        self.shared.senders.fetch_add(1, Ordering::SeqCst);
        Sender { shared: share(&self.shared) }
    }
}

impl<T> Drop for Sender<T> {
    /// The sender counter goes down by one. This is how the receiver learns
    /// that no sender is left: it reads the counter when it finds the queue
    /// empty. The condition variable is not signalled, so a receiver that is
    /// already waiting sleeps on until something wakes it.
    fn drop(&mut self)
        opens_invariants none
        no_unwind
    {
        count_down(&self.shared.senders, 1, Ordering::AcqRel);
    }
}

impl<T> Receiver<T> {
    /// The state that this receiver shares with the senders of its channel.
    pub closed spec fn channel(&self) -> Shared<T> {
        *self.shared
    }

    /// The items in the private cache, oldest first.
    pub closed spec fn cached(&self) -> Seq<T> {
        self.cache@
    }

    /// Hands out the oldest item that was sent and not yet received.
    ///
    /// An item of the cache is handed out without a look at the shared state.
    /// With an empty cache the lock is taken, and the call waits while the
    /// queue is empty and the sender counter is not zero. Then the head of
    /// the queue is handed out and the rest of the queue becomes the cache,
    /// or, if the queue is empty, the call fails with `NoSender`. It fails
    /// with `LockPoisoned` if a thread panicked while it held the lock.
    pub fn recv(&mut self) -> (res: Result<T, ChannelError>)
        ensures
            final(self).channel() == old(self).channel(),
            old(self).cached().len() > 0 ==> res == received(old(self).cached()) && final(
                self
            ).cached() == rest(old(self).cached()),
            res is Err ==> final(self).cached() == old(self).cached(),
            res != Err::<T, ChannelError>(ChannelError::NoReceiver),
    {
        match take_cached(&mut self.cache) {
            Some(item) => {
                return Ok(item);
            },
            None => {},
        }
        let guard = match self.shared.queue.lock() {
            Ok(guard) => guard,
            Err(_) => {
                return Err(ChannelError::LockPoisoned);
            },
        };
        let mut guard = match wait_while_starved(
            &self.shared.available,
            guard,
            &self.shared.senders,
        ) {
            Ok(guard) => guard,
            Err(_) => {
                return Err(ChannelError::LockPoisoned);
            },
        };
        dequeue(locked_queue(&mut guard), &mut self.cache)
    }

    /// The next item, or `None` when `recv` fails: the receiver as a
    /// sequence that ends when no sender is left.
    pub fn next(&mut self) -> (item: Option<T>)
        ensures
            final(self).channel() == old(self).channel(),
            old(self).cached().len() > 0 ==> item == front(old(self).cached()) && final(
                self
            ).cached() == rest(old(self).cached()),
            item is None ==> final(self).cached() == old(self).cached(),
    {
        match self.recv() {
            Ok(item) => Some(item),
            Err(_) => None,
        }
    }

    /// The sender counter as it is now.
    pub fn total_senders(&self) -> usize {
        self.shared.senders.load(Ordering::SeqCst)
    }

    /// The number of items in the private cache.
    pub fn cached_items(&self) -> (count: usize)
        ensures
            count == self.cached().len(),
    {
        self.cache.len()
    }
}

impl<T> Drop for Receiver<T> {
    /// The receiver counter goes down by one. What is left in the cache and
    /// in the queue is never received.
    fn drop(&mut self)
        opens_invariants none
        no_unwind
    {
        count_down(&self.shared.receivers, 1, Ordering::AcqRel);
    }
}

} // verus!
