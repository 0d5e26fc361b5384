//! The state that the handles of a channel share, and the steps that change it.
//!
//! [`ChannelState`] is the mathematical model: a sequence of pending messages and a
//! count of live producers. [`Inner`] is the value that lives behind the lock; every
//! step on it is stated as the matching step of the model.
use crate::text::debug_text;
use crate::text::describe;
use crate::text::description;
use crate::text::DebugError;
use std::collections::VecDeque;
use std::fmt::Debug;
use vstd::prelude::*;

verus! {

/// What a channel holds at one moment: the messages that were sent and not yet
/// received, oldest first, and the number of producer handles that are alive.
pub struct ChannelState<T> {
    pub queue: Seq<T>,
    pub senders: nat,
}

impl<T> ChannelState<T> {
    /// A fresh channel: nothing is queued and one producer handle exists.
    pub open spec fn new() -> Self {
        ChannelState { queue: Seq::empty(), senders: 1 }
    }

    /// A producer appends `msg` behind everything that is already queued.
    pub open spec fn send(self, msg: T) -> Self {
        ChannelState { queue: self.queue.push(msg), senders: self.senders }
    }

    /// A producer handle is cloned: one more is alive.
    pub open spec fn attach(self) -> Self {
        ChannelState { queue: self.queue, senders: self.senders + 1 }
    }

    /// A producer handle is destroyed: one fewer is alive.
    pub open spec fn detach(self) -> Self
        recommends
            self.senders > 0,
    {
        ChannelState {
            queue: self.queue,
            senders: if self.senders > 0 {
                (self.senders - 1) as nat
            } else {
                0
            },
        }
    }

    /// The message that the next receive hands out, if one is queued.
    pub open spec fn head(self) -> Option<T> {
        if self.queue.len() > 0 {
            Some(self.queue[0])
        } else {
            None
        }
    }

    /// The state after a receive took the head; an empty queue stays as it is.
    pub open spec fn dequeue(self) -> Self {
        ChannelState {
            queue: if self.queue.len() > 0 {
                self.queue.drop_first()
            } else {
                self.queue
            },
            senders: self.senders,
        }
    }

    /// A receive has to wait: nothing is queued, and a producer that could still
    /// send is alive.
    pub open spec fn must_wait(self) -> bool {
        self.queue.len() == 0 && self.senders > 0
    }

    /// The channel is closed: nothing is queued and no producer is left to send.
    pub open spec fn is_closed(self) -> bool {
        self.queue.len() == 0 && self.senders == 0
    }
}

/// The queue and the producer count that the handles of one channel share.
pub struct Inner<T> {
    queue: VecDeque<T>,
    senders: usize,
}

impl<T> View for Inner<T> {
    type V = ChannelState<T>;

    closed spec fn view(&self) -> ChannelState<T> {
        ChannelState { queue: self.queue@, senders: self.senders as nat }
    }
}

impl<T> Inner<T> {
    /// The state of a fresh channel.
    pub fn new() -> (inner: Self)
        ensures
            inner@ == ChannelState::<T>::new(),
    {
        Inner { queue: VecDeque::new(), senders: 1 }
    }

    /// The number of live producer handles.
    pub fn senders(&self) -> (n: usize)
        ensures
            n == self@.senders,
        opens_invariants none
        no_unwind
    {
        self.senders
    }

    /// The number of queued messages.
    pub fn len(&self) -> (n: usize)
        ensures
            n == self@.queue.len(),
    {
        self.queue.len()
    }

    /// Appends `msg` to the tail of the queue.
    pub fn enqueue(&mut self, msg: T)
        ensures
            final(self)@ == old(self)@.send(msg),
    {
        self.queue.push_back(msg);
    }

    /// Counts one more producer handle.
    pub fn attach(&mut self)
        requires
            old(self)@.senders < usize::MAX,
        ensures
            final(self)@ == old(self)@.attach(),
    {
        self.senders = self.senders + 1;
    }

    /// Counts one producer handle fewer, and says whether it was the last: only then
    /// can a receive that waits report the channel closed, so only then is the
    /// consumer woken.
    pub fn detach(&mut self) -> (last: bool)
        requires
            old(self)@.senders > 0,
        ensures
            final(self)@ == old(self)@.detach(),
            last == (final(self)@.senders == 0),
        opens_invariants none
        no_unwind
    {
        self.senders = self.senders - 1;
        self.senders == 0
    }

    /// Whether a receive has to wait for a producer.
    pub fn must_wait(&self) -> (wait: bool)
        ensures
            wait == self@.must_wait(),
    {
        self.queue.len() == 0 && self.senders > 0
    }

    /// Takes the oldest message out of the queue. `None` says that nothing is
    /// queued; the state is then unchanged.
    pub fn dequeue(&mut self) -> (msg: Option<T>)
        ensures
            msg == old(self)@.head(),
            final(self)@ == old(self)@.dequeue(),
    {
        self.queue.pop_front()
    }
}

impl<T: Debug> Inner<T> {
    /// Describes the state: the producer count, then the queued messages as their
    /// `Debug` impl shows them. The call fails where that impl reports an error,
    /// and only there.
    pub fn to_string(&self) -> (result: Result<String, DebugError>)
        ensures
            result matches Ok(text) ==> exists|queue_text: Seq<char>|
                text@ == description(self@.senders, queue_text),
    {
        match debug_text(&self.queue) {
            Ok(queue_text) => {
                let text = describe(self.senders, queue_text.as_str());
                assert(text@ == description(self@.senders, queue_text@));
                Ok(text)
            },
            Err(_) => Err(DebugError),
        }
    }
}

} // verus!
