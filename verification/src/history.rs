//! Histories: what holds of a channel after any sequence of events.
//!
//! An [`Event`] is one completed operation of a handle. The functions here replay a
//! sequence of events on a [`ChannelState`], and the proof functions state what every
//! such replay obeys: messages come out in the order in which they went in, none is
//! lost or handed out twice, and the channel closes exactly when the last producer
//! handle is gone.
use crate::state::ChannelState;
use vstd::prelude::*;

verus! {

/// One completed operation on a channel.
pub enum Event<T> {
    /// A producer handle sent the message.
    Sent(T),
    /// A producer handle was cloned.
    Cloned,
    /// A producer handle was destroyed.
    Dropped,
    /// The consumer asked for a message and was answered: with the head of the
    /// queue, or with nothing where the queue was empty.
    Received,
}

impl<T> ChannelState<T> {
    /// Whether `event` can happen in this state. Sending, cloning and destroying
    /// take a producer handle that is alive, so one is counted.
    pub open spec fn admits(self, event: Event<T>) -> bool {
        event is Received || self.senders > 0
    }

    /// The state after `event`.
    pub open spec fn after(self, event: Event<T>) -> Self {
        match event {
            Event::Sent(msg) => self.send(msg),
            Event::Cloned => self.attach(),
            Event::Dropped => self.detach(),
            Event::Received => self.dequeue(),
        }
    }

    /// The state after all of `events`, first to last.
    pub open spec fn after_all(self, events: Seq<Event<T>>) -> Self
        decreases events.len(),
    {
        if events.len() == 0 {
            self
        } else {
            self.after_all(events.drop_last()).after(events.last())
        }
    }

    /// Whether each of `events` can happen in the state that the ones before it
    /// lead to.
    pub open spec fn admits_all(self, events: Seq<Event<T>>) -> bool
        decreases events.len(),
    {
        events.len() == 0 || (self.admits_all(events.drop_last()) && self.after_all(
            events.drop_last(),
        ).admits(events.last()))
    }

    /// The messages that the receives among `events` handed out, in that order.
    pub open spec fn delivered(self, events: Seq<Event<T>>) -> Seq<T>
        decreases events.len(),
    {
        if events.len() == 0 {
            Seq::empty()
        } else {
            let before = self.after_all(events.drop_last());
            let earlier = self.delivered(events.drop_last());
            if events.last() is Received && before.queue.len() > 0 {
                earlier.push(before.queue[0])
            } else {
                earlier
            }
        }
    }
}

/// The messages that the sends among `events` put in, in that order.
pub open spec fn sent<T>(events: Seq<Event<T>>) -> Seq<T>
    decreases events.len(),
{
    if events.len() == 0 {
        Seq::empty()
    } else {
        match events.last() {
            Event::Sent(msg) => sent(events.drop_last()).push(msg),
            _ => sent(events.drop_last()),
        }
    }
}

/// How many of `events` clone a producer handle.
pub open spec fn cloned<T>(events: Seq<Event<T>>) -> nat
    decreases events.len(),
{
    if events.len() == 0 {
        0
    } else if events.last() is Cloned {
        cloned(events.drop_last()) + 1
    } else {
        cloned(events.drop_last())
    }
}

/// How many of `events` destroy a producer handle.
pub open spec fn dropped<T>(events: Seq<Event<T>>) -> nat
    decreases events.len(),
{
    if events.len() == 0 {
        0
    } else if events.last() is Dropped {
        dropped(events.drop_last()) + 1
    } else {
        dropped(events.drop_last())
    }
}

/// One send for each of `msgs`, in that order.
pub open spec fn sends<T>(msgs: Seq<T>) -> Seq<Event<T>> {
    Seq::new(msgs.len(), |i: int| Event::Sent(msgs[i]))
}

/// `n` receives.
pub open spec fn receives<T>(n: nat) -> Seq<Event<T>> {
    Seq::new(n, |i: int| Event::Received)
}

/// No loss and no duplication: whatever the events and their order, the messages
/// handed out so far, followed by those still queued, are the messages that were
/// queued at the start followed by those sent since, each once and in that order.
pub proof fn lemma_nothing_lost_or_doubled<T>(start: ChannelState<T>, events: Seq<Event<T>>)
    ensures
        start.delivered(events) + start.after_all(events).queue == start.queue + sent(events),
    decreases events.len(),
{
    if events.len() == 0 {
        assert(start.delivered(events) + start.after_all(events).queue =~= start.queue + sent(
            events,
        ));
    } else {
        let earlier = events.drop_last();
        lemma_nothing_lost_or_doubled(start, earlier);
        let before = start.after_all(earlier);
        assert(start.delivered(events) + start.after_all(events).queue =~= start.delivered(earlier)
            + before.queue + match events.last() {
            Event::Sent(msg) => seq![msg],
            _ => Seq::empty(),
        });
        assert(start.queue + sent(events) =~= start.queue + sent(earlier) + match events.last() {
            Event::Sent(msg) => seq![msg],
            _ => Seq::empty(),
        });
    }
}

/// Replaying `first` and then `second` is replaying `first + second`.
pub proof fn lemma_replay_in_two_parts<T>(
    start: ChannelState<T>,
    first: Seq<Event<T>>,
    second: Seq<Event<T>>,
)
    ensures
        start.after_all(first + second) == start.after_all(first).after_all(second),
        start.delivered(first + second) == start.delivered(first) + start.after_all(
            first,
        ).delivered(second),
    decreases second.len(),
{
    if second.len() == 0 {
        assert(first + second =~= first);
        assert(start.delivered(first) + start.after_all(first).delivered(second)
            =~= start.delivered(first));
    } else {
        assert((first + second).drop_last() =~= first + second.drop_last());
        assert((first + second).last() == second.last());
        lemma_replay_in_two_parts(start, first, second.drop_last());
        assert(start.delivered(first + second) =~= start.delivered(first) + start.after_all(
            first,
        ).delivered(second));
    }
}

/// Sends alone hand nothing out: they leave the messages queued behind those that
/// were there, in the order of the sends.
pub proof fn lemma_sends_queue_up<T>(start: ChannelState<T>, msgs: Seq<T>)
    ensures
        start.after_all(sends(msgs)).queue == start.queue + msgs,
        start.after_all(sends(msgs)).senders == start.senders,
        start.delivered(sends(msgs)) == Seq::<T>::empty(),
    decreases msgs.len(),
{
    if msgs.len() == 0 {
        assert(start.queue + msgs =~= start.queue);
    } else {
        assert(sends(msgs).drop_last() =~= sends(msgs.drop_last()));
        assert(sends(msgs).last() == Event::Sent(msgs.last()));
        lemma_sends_queue_up(start, msgs.drop_last());
        assert(start.after_all(sends(msgs)).queue =~= start.queue + msgs);
    }
}

/// Receives alone hand out the head of the queue, message by message.
pub proof fn lemma_receives_drain<T>(start: ChannelState<T>, n: nat)
    requires
        n <= start.queue.len(),
    ensures
        start.delivered(receives(n)) == start.queue.take(n as int),
        start.after_all(receives(n)).queue == start.queue.skip(n as int),
        start.after_all(receives(n)).senders == start.senders,
    decreases n,
{
    if n == 0 {
        assert(start.queue.take(0) =~= Seq::<T>::empty());
        assert(start.queue.skip(0) =~= start.queue);
    } else {
        let fewer = (n - 1) as nat;
        assert(receives::<T>(n).drop_last() =~= receives::<T>(fewer));
        assert(receives::<T>(n).last() == Event::<T>::Received);
        lemma_receives_drain(start, fewer);
        assert(start.delivered(receives(n)) =~= start.queue.take(n as int));
        assert(start.after_all(receives(n)).queue =~= start.queue.skip(n as int));
    }
}

/// First in, first out: messages that are sent one after another, with no other send
/// between them, are received in the order in which they were sent, after the
/// messages that were queued before them.
pub proof fn lemma_fifo<T>(start: ChannelState<T>, msgs: Seq<T>)
    ensures
        start.delivered(sends(msgs) + receives(start.queue.len() + msgs.len())) == start.queue
            + msgs,
        start.after_all(sends(msgs) + receives(start.queue.len() + msgs.len())).queue
            == Seq::<T>::empty(),
{
    let n = start.queue.len() + msgs.len();
    let filled = start.after_all(sends(msgs));
    lemma_sends_queue_up(start, msgs);
    lemma_receives_drain(filled, n);
    lemma_replay_in_two_parts(start, sends(msgs), receives(n));
    assert(filled.queue.take(n as int) =~= start.queue + msgs);
    assert(filled.queue.skip(n as int) =~= Seq::<T>::empty());
    assert(Seq::<T>::empty() + (start.queue + msgs) =~= start.queue + msgs);
}

/// The count follows the handles: after events that can happen one after another,
/// the producers counted are those of the start, plus the clones, less the handles
/// destroyed.
pub proof fn lemma_count_follows_handles<T>(start: ChannelState<T>, events: Seq<Event<T>>)
    requires
        start.admits_all(events),
    ensures
        start.after_all(events).senders + dropped(events) == start.senders + cloned(events),
    decreases events.len(),
{
    if events.len() > 0 {
        lemma_count_follows_handles(start, events.drop_last());
    }
}

/// A channel stays open as long as one producer handle derived from it is alive,
/// and no longer: after any events on a fresh channel, no producer is counted
/// exactly when every clone and the first handle have been destroyed.
pub proof fn lemma_open_until_last_drop<T>(events: Seq<Event<T>>)
    requires
        ChannelState::<T>::new().admits_all(events),
    ensures
        dropped(events) <= cloned(events) + 1,
        ChannelState::<T>::new().after_all(events).senders == cloned(events) + 1 - dropped(
            events,
        ),
        ChannelState::<T>::new().after_all(events).senders == 0 <==> dropped(events) == cloned(
            events,
        ) + 1,
{
    lemma_count_follows_handles(ChannelState::<T>::new(), events);
}

/// Cloning a producer handle and then destroying one leaves the state as it was,
/// with a producer still counted.
pub proof fn lemma_clone_then_drop<T>(state: ChannelState<T>)
    requires
        state.senders > 0,
    ensures
        state.attach().detach() == state,
        state.attach().detach().senders > 0,
        !state.attach().detach().is_closed(),
{
}

/// Closure is detected: once every producer handle of a channel has been destroyed
/// and the queue is empty, a receive does not wait, and it is answered with nothing.
pub proof fn lemma_closure_detected<T>(events: Seq<Event<T>>)
    requires
        ChannelState::<T>::new().admits_all(events),
        dropped(events) == cloned(events) + 1,
        ChannelState::<T>::new().after_all(events).queue.len() == 0,
    ensures
        ChannelState::<T>::new().after_all(events).is_closed(),
        !ChannelState::<T>::new().after_all(events).must_wait(),
        ChannelState::<T>::new().after_all(events).head() is None,
        ChannelState::<T>::new().after_all(events).dequeue() == ChannelState::<T>::new().after_all(
            events,
        ),
{
    lemma_open_until_last_drop(events);
}

/// A send ends the wait: in the state that a send leaves, a receive need not wait,
/// and where the queue was empty it is answered with the message just sent.
pub proof fn lemma_send_ends_wait<T>(state: ChannelState<T>, msg: T)
    ensures
        !state.send(msg).must_wait(),
        state.queue.len() == 0 ==> state.send(msg).head() == Some(msg),
        state.queue.len() == 0 ==> state.send(msg).dequeue() == state,
{
    if state.queue.len() == 0 {
        assert(state.send(msg).dequeue().queue =~= state.queue);
    }
}

} // verus!
