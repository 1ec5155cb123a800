//! What holds of every run of a channel.
//!
//! The laws speak of [`ChannelState`] and its steps. The first of them says
//! how these steps are made of what the executable steps of [`crate::queue`]
//! are proved to do; the others follow the channel through whole runs.
use crate::error::ChannelError;
use crate::model::handed_out;
use crate::model::keeps_receiver;
use crate::model::senders_dropped;
use crate::model::senders_made;
use crate::model::taken_in;
use crate::model::ChannelState;
use crate::model::Event;
use crate::queue::admission;
use crate::queue::cache_after_take;
use crate::queue::queue_after_take;
use crate::queue::received;
use crate::queue::rest;
use crate::queue::starves;
use vstd::prelude::*;

verus! {

/// The steps of the state are the steps that the handles take on the queue.
/// A send is decided as `accept` decides it and queues as `enqueue` does; a
/// receive with a filled cache does what `take_cached` does; with an empty
/// cache it waits as long as `starved` says and then does what `dequeue`
/// does.
pub proof fn law_state_follows_steps<T>(state: ChannelState<T>, item: T)
    ensures
        state.send_result() == admission(state.receivers),
        state.send_result() is Ok ==> state.send(item) == (ChannelState {
            queue: state.queue.push(item),
            ..state
        }),
        state.send_result() is Err ==> state.send(item) == state,
        state.send_wakes() <==> state.send_result() is Ok && state.queue.len() == 0,
        state.cache.len() > 0 ==> !state.recv_blocks(),
        state.cache.len() > 0 ==> state.recv_result() == received(state.cache),
        state.cache.len() > 0 ==> state.recv() == (ChannelState { cache: rest(state.cache), ..state }),
        state.cache.len() == 0 ==> state.recv_blocks() == starves(state.queue.len(), state.senders),
        state.cache.len() == 0 ==> state.recv_result() == received(state.queue),
        state.cache.len() == 0 ==> state.recv() == (ChannelState {
            queue: queue_after_take(state.queue, state.cache),
            cache: cache_after_take(state.queue, state.cache),
            ..state
        }),
{
    if state.cache.len() > 0 {
        assert(state.pending()[0] == state.cache[0]);
    } else {
        assert(state.pending() =~= state.queue);
    }
}

/// Sends are queued in the order in which they are made: after the items of
/// `items` were sent, the queue holds them behind what it held before, and
/// nothing else has changed.
pub proof fn law_sends_queue_in_order<T>(state: ChannelState<T>, items: Seq<T>)
    requires
        state.receivers > 0,
    ensures
        state.send_all(items) == (ChannelState { queue: state.queue + items, ..state }),
        state.send_all(items).pending() == state.pending() + items,
    decreases items.len(),
{
    if items.len() == 0 {
        assert(state.queue + items =~= state.queue);
    } else {
        law_sends_queue_in_order(state, items.drop_last());
        assert(state.queue + items =~= (state.queue + items.drop_last()).push(items.last()));
    }
    assert(state.send_all(items).pending() =~= state.pending() + items);
}

/// While items are pending, `recv` returns at once with the oldest of them:
/// the call number `k` (counted from 0) hands out item `k` of what was
/// pending, and after `k` calls the items from `k` on are still pending.
pub proof fn law_recvs_follow_pending<T>(state: ChannelState<T>, k: nat)
    requires
        k <= state.pending().len(),
    ensures
        state.recv_n(k).pending() == state.pending().skip(k as int),
        state.recv_n(k).senders == state.senders,
        state.recv_n(k).receivers == state.receivers,
        k < state.pending().len() ==> !state.recv_n(k).recv_blocks(),
        k < state.pending().len() ==> state.recv_n(k).recv_result() == Ok::<T, ChannelError>(
            state.pending()[k as int],
        ),
    decreases k,
{
    if k == 0 {
        assert(state.pending().skip(0) =~= state.pending());
    } else {
        let j = (k - 1) as nat;
        law_recvs_follow_pending(state, j);
        let before = state.recv_n(j);
        assert(before.pending().len() > 0);
        assert(before.recv().pending() =~= before.pending().skip(1));
        assert(state.pending().skip(j as int).skip(1) =~= state.pending().skip(k as int));
    }
}

/// First in, first out: where a receiver is alive and the items of `items`
/// are sent one after another, the calls of `recv` that follow return what
/// was pending before and then the items of `items`, each once and in the
/// order of the sends, and none of these calls waits.
pub proof fn law_fifo<T>(state: ChannelState<T>, items: Seq<T>)
    requires
        state.receivers > 0,
    ensures
        state.send_all(items).received((state.pending() + items).len()) == (state.pending()
            + items).map_values(|item: T| Ok::<T, ChannelError>(item)),
        forall|k: nat|
            k < (state.pending() + items).len() ==> !(#[trigger] state.send_all(items).recv_n(
                k,
            )).recv_blocks(),
{
    let sent = state.send_all(items);
    let all = state.pending() + items;
    law_sends_queue_in_order(state, items);
    assert forall|k: nat| k < all.len() implies !(#[trigger] sent.recv_n(k)).recv_blocks()
        && sent.recv_n(k).recv_result() == Ok::<T, ChannelError>(all[k as int]) by {
        law_recvs_follow_pending(sent, k);
    }
    assert(sent.received(all.len()) =~= all.map_values(|item: T| Ok::<T, ChannelError>(item)));
}

/// A receiver waits exactly when nothing is pending and a sender is alive.
/// The next accepted send then signals the condition variable, and the
/// receiver gets the item that was sent.
pub proof fn law_recv_waits_for_send<T>(state: ChannelState<T>, item: T)
    ensures
        state.recv_blocks() <==> state.pending().len() == 0 && state.senders > 0,
        state.recv_blocks() && state.receivers > 0 ==> state.send_wakes(),
        state.recv_blocks() && state.receivers > 0 ==> !state.send(item).recv_blocks(),
        state.recv_blocks() && state.receivers > 0 ==> state.send(item).recv_result() == Ok::<
            T,
            ChannelError,
        >(item),
{
}

/// Once the last sender is gone, the receiver still gets every item that is
/// pending, in order, and the call after the last of them returns `NoSender`.
/// None of these calls waits.
pub proof fn law_closed_when_drained<T>(state: ChannelState<T>)
    requires
        state.senders == 0,
    ensures
        state.received(state.pending().len() + 1) == state.pending().map_values(
            |item: T| Ok::<T, ChannelError>(item),
        ).push(Err(ChannelError::NoSender)),
        forall|k: nat|
            k <= state.pending().len() ==> !(#[trigger] state.recv_n(k)).recv_blocks(),
{
    let n = state.pending().len();
    assert forall|k: nat| k <= n implies !(#[trigger] state.recv_n(k)).recv_blocks() && (k < n
        ==> state.recv_n(k).recv_result() == Ok::<T, ChannelError>(state.pending()[k as int]))
        by {
        law_recvs_follow_pending(state, k);
    }
    law_recvs_follow_pending(state, n);
    assert(state.recv_n(n).recv_result() == Err::<T, ChannelError>(ChannelError::NoSender));
    assert(state.received(n + 1) =~= state.pending().map_values(
        |item: T| Ok::<T, ChannelError>(item),
    ).push(Err(ChannelError::NoSender)));
}

/// Closure costs no item: a `recv` that returns fails only if nothing is
/// pending and no sender is alive, and the failure is `NoSender`.
pub proof fn law_closure_loses_nothing<T>(state: ChannelState<T>)
    requires
        !state.recv_blocks(),
    ensures
        state.recv_result() is Err <==> state.pending().len() == 0 && state.senders == 0,
        state.recv_result() is Err ==> state.recv_result() == Err::<T, ChannelError>(
            ChannelError::NoSender,
        ),
        state.recv_result() is Err ==> state.recv() == state,
{
}

/// Without a receiver every send is refused with `NoReceiver`, and the item
/// is not queued. This stays so whatever happens to the channel afterwards,
/// since no receiver can be made for it.
pub proof fn law_no_receiver_rejects<T>(start: ChannelState<T>, events: Seq<Event<T>>, item: T)
    requires
        start.receivers == 0,
        start.admits(events),
    ensures
        start.run(events).send_result() == Err::<(), ChannelError>(ChannelError::NoReceiver),
        start.run(events).send(item) == start.run(events),
        start.run(events).queue == start.queue,
    decreases events.len(),
{
    law_handles_never_return(start, events);
    if events.len() > 0 {
        law_no_receiver_rejects(start, events.drop_last(), item);
        law_handles_never_return(start, events.drop_last());
    }
}

/// The first `recv` after `items` were sent into an empty channel returns the
/// first of them, empties the shared queue and leaves all the others in the
/// cache. The calls that follow hand these out in the order of the sends.
pub proof fn law_fast_path<T>(state: ChannelState<T>, items: Seq<T>, k: nat)
    requires
        state.receivers > 0,
        state.pending().len() == 0,
        1 <= k <= items.len(),
    ensures
        state.send_all(items).recv_result() == Ok::<T, ChannelError>(items[0]),
        state.send_all(items).recv().queue == Seq::<T>::empty(),
        state.send_all(items).recv().cache == items.skip(1),
        state.send_all(items).recv_n(k).queue == Seq::<T>::empty(),
        state.send_all(items).recv_n(k).cache == items.skip(k as int),
        k < items.len() ==> state.send_all(items).recv_n(k).recv_result() == Ok::<T, ChannelError>(
            items[k as int],
        ),
    decreases k,
{
    let sent = state.send_all(items);
    law_sends_queue_in_order(state, items);
    assert(sent.queue =~= items);
    assert(sent.cache =~= Seq::<T>::empty());
    assert(sent.pending() =~= items);
    assert(sent.recv().queue =~= Seq::<T>::empty());
    assert(sent.recv().cache =~= items.skip(1));
    if k == 1 {
        assert(sent.recv_n(1) == sent.recv_n(0).recv());
    } else {
        law_fast_path(state, items, (k - 1) as nat);
        let before = sent.recv_n((k - 1) as nat);
        assert(before.cache.len() > 0);
        assert(before.recv().cache =~= items.skip(k as int));
    }
    law_recvs_follow_pending(sent, k);
}

/// A receiver that has items in its cache takes the next one from there:
/// the shared queue is not touched, whatever was sent in the meantime.
pub proof fn law_cache_comes_first<T>(state: ChannelState<T>)
    requires
        state.cache.len() > 0,
    ensures
        !state.recv_blocks(),
        state.recv_result() == Ok::<T, ChannelError>(state.cache[0]),
        state.recv().queue == state.queue,
        state.recv().cache == state.cache.skip(1),
{
}

/// The sender counter is the number of senders alive: in every run of a new
/// channel it is one, for the sender that was made with the channel, plus the
/// clones made, minus the senders dropped.
pub proof fn law_clone_accounting<T>(events: Seq<Event<T>>)
    requires
        ChannelState::<T>::fresh().admits(events),
    ensures
        ChannelState::<T>::fresh().run(events).senders + senders_dropped(events) == 1
            + senders_made(events),
{
    law_senders_counted(ChannelState::<T>::fresh(), events);
}

/// In every run the sender counter changes by one with each clone and each
/// drop of a sender, and with nothing else.
pub proof fn law_senders_counted<T>(start: ChannelState<T>, events: Seq<Event<T>>)
    requires
        start.admits(events),
    ensures
        start.run(events).senders + senders_dropped(events) == start.senders + senders_made(
            events,
        ),
    decreases events.len(),
{
    if events.len() > 0 {
        law_senders_counted(start, events.drop_last());
    }
}

/// No handle comes back: the receiver counter never goes up and stays as it
/// is while the receiver lives, and a channel whose senders are all gone
/// stays without any.
pub proof fn law_handles_never_return<T>(start: ChannelState<T>, events: Seq<Event<T>>)
    requires
        start.admits(events),
    ensures
        start.run(events).receivers <= start.receivers,
        start.senders == 0 ==> start.run(events).senders == 0,
        keeps_receiver(events) ==> start.run(events).receivers == start.receivers,
    decreases events.len(),
{
    if events.len() > 0 {
        let earlier = events.drop_last();
        law_handles_never_return(start, earlier);
        if keeps_receiver(events) {
            assert(!(events[events.len() - 1] is DropReceiver));
            assert forall|i: int| 0 <= i < earlier.len() implies !(#[trigger] earlier[i]
                is DropReceiver) by {
                assert(earlier[i] == events[i]);
            }
        }
    }
}

/// A channel has one receiver until that receiver is dropped, and none from
/// then on.
pub proof fn law_single_receiver<T>(events: Seq<Event<T>>)
    requires
        ChannelState::<T>::fresh().admits(events),
    ensures
        ChannelState::<T>::fresh().run(events).receivers == if keeps_receiver(events) {
            1nat
        } else {
            0nat
        },
    decreases events.len(),
{
    let start = ChannelState::<T>::fresh();
    law_handles_never_return(start, events);
    if events.len() > 0 {
        let earlier = events.drop_last();
        law_single_receiver(earlier);
        law_handles_never_return(start, earlier);
        if !keeps_receiver(earlier) {
            let i = choose|i: int| 0 <= i < earlier.len() && (#[trigger] earlier[i] is DropReceiver);
            assert(events[i] == earlier[i]);
        } else if !keeps_receiver(events) {
            let i = choose|i: int| 0 <= i < events.len() && (#[trigger] events[i] is DropReceiver);
            if i < earlier.len() {
                assert(earlier[i] == events[i]);
            }
        }
    }
}

/// Nothing is lost, doubled or reordered while the receiver lives: at every
/// point of a run, what was pending at the start followed by what the sends
/// put in is what the receiver was handed followed by what is pending now.
pub proof fn law_nothing_lost_or_reordered<T>(start: ChannelState<T>, events: Seq<Event<T>>)
    requires
        start.receivers > 0,
        start.admits(events),
        keeps_receiver(events),
    ensures
        start.pending() + taken_in(start, events) == handed_out(start, events) + start.run(
            events,
        ).pending(),
    decreases events.len(),
{
    if events.len() == 0 {
        assert(start.pending() + taken_in(start, events) =~= handed_out(start, events)
            + start.run(events).pending());
    } else {
        let earlier = events.drop_last();
        let before = start.run(earlier);
        assert(!(events[events.len() - 1] is DropReceiver));
        assert forall|i: int| 0 <= i < earlier.len() implies !(#[trigger] earlier[i]
            is DropReceiver) by {
            assert(earlier[i] == events[i]);
        }
        law_nothing_lost_or_reordered(start, earlier);
        law_handles_never_return(start, earlier);
        let after = before.step(events.last());
        match events.last() {
            Event::Send(item) => {
                assert(after.pending() =~= before.pending().push(item));
                assert(start.pending() + taken_in(start, earlier).push(item) =~= (start.pending()
                    + taken_in(start, earlier)).push(item));
                assert(handed_out(start, earlier) + before.pending().push(item) =~= (handed_out(
                    start,
                    earlier,
                ) + before.pending()).push(item));
            },
            Event::Recv => {
                if before.pending().len() > 0 {
                    let item = before.pending()[0];
                    assert(after.pending() =~= before.pending().skip(1));
                    assert(handed_out(start, earlier).push(item) + before.pending().skip(1)
                        =~= handed_out(start, earlier) + before.pending());
                } else {
                    assert(after.pending() =~= before.pending());
                }
            },
            Event::CloneSender => {
                assert(after.pending() =~= before.pending());
            },
            Event::DropSender => {
                assert(after.pending() =~= before.pending());
            },
            Event::DropReceiver => {},
        }
    }
}

/// Every item that was sent arrives: once a run has left nothing pending,
/// the receiver has been handed exactly the items that the sends put in,
/// whichever senders they came from and however their sends fell between the
/// receives. As multisets the two are then equal too.
pub proof fn law_delivery_complete<T>(start: ChannelState<T>, events: Seq<Event<T>>)
    requires
        start.receivers > 0,
        start.pending().len() == 0,
        start.admits(events),
        keeps_receiver(events),
        start.run(events).pending().len() == 0,
    ensures
        handed_out(start, events) == taken_in(start, events),
        handed_out(start, events).to_multiset() == taken_in(start, events).to_multiset(),
{
    law_nothing_lost_or_reordered(start, events);
    assert(start.pending() + taken_in(start, events) =~= taken_in(start, events));
    assert(handed_out(start, events) + start.run(events).pending() =~= handed_out(start, events));
}

/// First in, first out for each sender: take any kind of item, such as the
/// items of one sender. However the sends of the other senders and the
/// receives fall in between, the items of that kind are handed out in the
/// order in which they were sent, and those not yet handed out are pending in
/// that order.
pub proof fn law_fifo_per_sender<T>(
    start: ChannelState<T>,
    events: Seq<Event<T>>,
    mine: spec_fn(T) -> bool,
)
    requires
        start.receivers > 0,
        start.admits(events),
        keeps_receiver(events),
    ensures
        (start.pending() + taken_in(start, events)).filter(mine) == handed_out(
            start,
            events,
        ).filter(mine) + start.run(events).pending().filter(mine),
{
    law_nothing_lost_or_reordered(start, events);
    Seq::filter_distributes_over_add(handed_out(start, events), start.run(events).pending(), mine);
}

} // verus!
