//! The handles of a channel: many producers, one consumer.
//!
//! A lock that a panicking holder left poisoned is used as it is. Every change
//! that this crate makes under the lock is one step that cannot panic, so what the
//! lock guards is whole; the mark of poison is taken off and the call goes on.
use crate::state::Inner;
use crate::sync::clear_poison;
use crate::sync::guarded;
use crate::sync::into_inner;
use crate::sync::lock;
use crate::sync::notify_one;
use crate::sync::share;
use crate::text::description;
use crate::text::DebugError;
use std::fmt::Debug;
use std::sync::Arc;
use std::sync::Condvar;
use std::sync::Mutex;
use std::sync::MutexGuard;
use std::sync::PoisonError;
use vstd::prelude::*;

verus! {

/// What the handles of one channel own together: the state behind its lock, and the
/// signal on which the consumer waits. It is freed with the last handle.
///
/// The fields are private and only [`channel`] makes a value, so `available` is
/// never used with another mutex than `inner`.
#[verifier::reject_recursive_types(T)]
pub struct Shared<T> {
    inner: Mutex<Inner<T>>,
    available: Condvar,
}

impl<T> Shared<T> {
    /// The guard out of the result of a call that takes the lock, with the mark of
    /// poison taken off the lock where the result reports it.
    fn settle<'a>(
        &'a self,
        result: Result<MutexGuard<'a, Inner<T>>, PoisonError<MutexGuard<'a, Inner<T>>>>,
    ) -> (guard: MutexGuard<'a, Inner<T>>)
        opens_invariants none
        no_unwind
    {
        match result {
            Ok(guard) => guard,
            Err(error) => {
                clear_poison(&self.inner);
                into_inner(error)
            },
        }
    }

    fn acquire(&self) -> (guard: MutexGuard<'_, Inner<T>>)
        opens_invariants none
        no_unwind
    {
        self.settle(lock(&self.inner))
    }
}

impl<T: Debug> Shared<T> {
    fn to_string(&self) -> (result: Result<String, DebugError>)
        ensures
            result matches Ok(text) ==> exists|senders: nat, queue_text: Seq<char>|
                text@ == description(senders, queue_text),
    {
        let mut guard = self.acquire();
        guarded(&mut guard).to_string()
    }
}

/// A producer handle. It can be cloned; the channel stays open for as long as one
/// of its producer handles is alive.
#[verifier::reject_recursive_types(T)]
pub struct Sender<T> {
    shared: Arc<Shared<T>>,
}

/// The consumer handle: one for each channel.
#[verifier::reject_recursive_types(T)]
pub struct Receiver<T> {
    shared: Arc<Shared<T>>,
}

impl<T> Sender<T> {
    /// The shared state that this handle is bound to.
    pub closed spec fn shared(&self) -> Shared<T> {
        *self.shared
    }

    /// Appends `msg` to the queue of the channel and wakes the consumer if it
    /// waits. The caller is held up only while another thread has the lock. A
    /// poisoned lock is used as it is: the message is queued all the same.
    pub fn send(&self, msg: T) {
        {
            let mut guard = self.shared.acquire();
            guarded(&mut guard).enqueue(msg);
        }
        notify_one(&self.shared.available);
    }
}

impl<T: Debug> Sender<T> {
    /// Describes the channel as it is now: the number of live producers and the
    /// queued messages. The call fails where the `Debug` impl of a message reports
    /// an error.
    ///
    /// The `Debug` impl of the messages runs while the lock is held. An impl that
    /// uses a handle of the same channel takes the lock a second time on one
    /// thread, which blocks for ever or panics; an impl that panics leaves the
    /// lock poisoned. A poisoned lock is used as it is.
    pub fn to_string(&self) -> (result: Result<String, DebugError>)
        ensures
            result matches Ok(text) ==> exists|senders: nat, queue_text: Seq<char>|
                text@ == description(senders, queue_text),
    {
        self.shared.to_string()
    }
}

impl<T> Clone for Sender<T> {
    /// Another producer handle of the same channel, counted with the others. A
    /// poisoned lock is used as it is.
    fn clone(&self) -> (other: Self)
        ensures
            other.shared() == self.shared(),
    {
        {
            let mut guard = self.shared.acquire();
            let inner = guarded(&mut guard);
            // As many handles as `usize` can count do not fit in memory.
            if inner.senders() < usize::MAX {
                inner.attach();
            }
        }
        Sender { shared: share(&self.shared) }
    }
}

impl<T> Drop for Sender<T> {
    /// Takes this handle out of the count. The consumer is woken when the last
    /// producer goes, so that a receive that waits returns and reports the channel
    /// closed. A poisoned lock is used as it is.
    fn drop(&mut self)
        ensures
            final(self).shared() == old(self).shared(),
        opens_invariants none
        no_unwind
    {
        let mut guard = self.shared.acquire();
        let inner = guarded(&mut guard);
        // A handle that is alive is counted.
        if inner.senders() > 0 {
            let last = inner.detach();
            if last {
                notify_one(&self.shared.available);
            }
        }
    }
}

impl<T> Receiver<T> {
    /// The shared state that this handle is bound to.
    pub closed spec fn shared(&self) -> Shared<T> {
        *self.shared
    }

    /// Takes the oldest message out of the queue. Where the queue is empty the
    /// call blocks until a producer sends or the last producer is destroyed.
    /// `None` says that the channel is closed: nothing is queued and no producer
    /// is left.
    ///
    /// A poisoned lock is used as it is. There is one case in which `None` may
    /// come from a channel that is still open: the lock is poisoned while this call
    /// waits on an empty queue. The wait then ends early, and the queue is
    /// answered from as it stands.
    pub fn receive(&mut self) -> (msg: Option<T>)
        ensures
            final(self).shared() == old(self).shared(),
    {
        let guard = self.shared.acquire();
        let waited = self.shared.available.wait_while(
            guard,
            |inner: &mut Inner<T>| inner.must_wait(),
        );
        let mut guard = self.shared.settle(waited);
        guarded(&mut guard).dequeue()
    }
}

impl<T: Debug> Receiver<T> {
    /// Describes the channel as it is now: the number of live producers and the
    /// queued messages. The call fails where the `Debug` impl of a message reports
    /// an error.
    ///
    /// The `Debug` impl of the messages runs while the lock is held. An impl that
    /// uses a handle of the same channel takes the lock a second time on one
    /// thread, which blocks for ever or panics; an impl that panics leaves the
    /// lock poisoned. A poisoned lock is used as it is.
    pub fn to_string(&self) -> (result: Result<String, DebugError>)
        ensures
            result matches Ok(text) ==> exists|senders: nat, queue_text: Seq<char>|
                text@ == description(senders, queue_text),
    {
        self.shared.to_string()
    }
}

/// Makes a channel: an empty queue and one producer, and the two handles bound to
/// them.
pub fn channel<T>() -> (handles: (Sender<T>, Receiver<T>))
    ensures
        handles.0.shared() == handles.1.shared(),
{
    let shared = Arc::new(Shared { inner: Mutex::new(Inner::new()), available: Condvar::new() });
    (Sender { shared: share(&shared) }, Receiver { shared })
}

} // verus!
