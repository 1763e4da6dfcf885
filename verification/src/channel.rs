//! The shared channel state and its two kinds of handles.

use crate::protocol::{
    absorb, batch_target, closes, nonempty, settle, wake_after_drop, wake_after_push, Attempt,
    Wake,
};
use crate::queue::{queue_len, queue_new, queue_pop, queue_push};
use crate::signal::{fetch_add, fetch_sub, load, wait_while, wake_all, wake_one};
use crossbeam::queue::SegQueue;
use std::sync::atomic::AtomicU32;
use std::sync::atomic::Ordering;
use std::sync::Arc;
use vstd::prelude::*;

verus! {

/// `Arc::clone`: another pointer to the same allocation.
#[verifier::external_body]
fn share<V>(shared: &Arc<V>) -> (other: Arc<V>)
    ensures
        other == *shared,
{
    Arc::clone(shared)
}

/// What every handle of one channel points at.
#[verifier::reject_recursive_types(T)]
pub struct ChannelInner<T> {
    /// Bumped after every push and at the close; consumers sleep on it.
    generation: AtomicU32,
    /// The messages.
    data: SegQueue<T>,
    /// The number of live `Sender` handles; the channel is closed at zero.
    senders: AtomicU32,
    /// The number of consumers that are about to sleep or asleep.
    waiting: AtomicU32,
}

impl<T> ChannelInner<T> {
    fn new() -> Self {
        ChannelInner {
            generation: AtomicU32::new(0),
            data: queue_new(),
            senders: AtomicU32::new(1),
            waiting: AtomicU32::new(0),
        }
    }

    /// Publishes a change and wakes whom `wake` names.
    fn signal(&self, wake: Wake)
        opens_invariants none
        no_unwind
    {
        match wake {
            Wake::Nobody => {},
            Wake::One => wake_one(&self.generation),
            Wake::All => wake_all(&self.generation),
        }
    }

    /// Pops until the batch holds `num` items or the queue answers that it
    /// is empty.
    fn gather(&self, num: usize) -> (batch: Vec<T>)
        requires
            num >= 1,
        ensures
            batch@.len() <= num,
    {
        let mut batch: Vec<T> = Vec::new();
        let mut more = true;
        while more
            invariant
                batch@.len() <= num,
                more ==> batch@.len() < num,
            decreases num - batch@.len() + if more { 1int } else { 0int },
        {
            let popped = queue_pop(&self.data);
            more = absorb(&mut batch, popped, num);
        }
        batch
    }
}

/// The producer's handle. The channel closes when the last one is dropped.
#[verifier::reject_recursive_types(T)]
pub struct Sender<T> {
    inner: Arc<ChannelInner<T>>,
}

impl<T> Sender<T> {
    /// The channel that this handle feeds.
    pub closed spec fn shared(self) -> ChannelInner<T> {
        *self.inner
    }

    /// Queues `item` and wakes one sleeping consumer, if any sleeps. It
    /// never blocks and cannot fail.
    pub fn send(&self, item: T) {
        queue_push(&self.inner.data, item);
        let _ = fetch_add(&self.inner.generation, 1, Ordering::SeqCst);
        let waiting: u32 = load(&self.inner.waiting, Ordering::SeqCst);
        self.inner.signal(wake_after_push(1, waiting));
    }

    /// Queues `items` in their order and signals once for the whole batch:
    /// one consumer for a single item, every sleeper otherwise.
    pub fn send_many(&self, items: Vec<T>) {
        let count: usize = items.len();
        for item in items {
            queue_push(&self.inner.data, item);
        }
        let _ = fetch_add(&self.inner.generation, 1, Ordering::SeqCst);
        let waiting: u32 = load(&self.inner.waiting, Ordering::SeqCst);
        self.inner.signal(wake_after_push(count, waiting));
    }
}

impl<T> Clone for Sender<T> {
    /// One more live sender on the same channel.
    fn clone(&self) -> (other: Self)
        ensures
            other.shared() == self.shared(),
    {
        let _ = fetch_add(&self.inner.senders, 1, Ordering::Relaxed);
        Sender { inner: share(&self.inner) }
    }
}

impl<T> Drop for Sender<T> {
    /// One live sender less. The last one to go closes the channel and
    /// wakes every sleeping consumer.
    fn drop(&mut self)
        opens_invariants none
        no_unwind
    {
        let before: u32 = fetch_sub(&self.inner.senders, 1, Ordering::AcqRel);
        if closes(before) {
            let _ = fetch_add(&self.inner.generation, 1, Ordering::SeqCst);
            let waiting: u32 = load(&self.inner.waiting, Ordering::SeqCst);
            self.inner.signal(wake_after_drop(before, waiting));
        }
    }
}

/// The consumer's handle.
#[verifier::reject_recursive_types(T)]
pub struct Receiver<T> {
    inner: Arc<ChannelInner<T>>,
}

impl<T> Clone for Receiver<T> {
    /// One more consumer on the same channel. Receivers are not counted.
    fn clone(&self) -> (other: Self)
        ensures
            other.shared() == self.shared(),
    {
        Receiver { inner: share(&self.inner) }
    }
}

impl<T> Receiver<T> {
    /// The channel that this handle drains.
    pub closed spec fn shared(self) -> ChannelInner<T> {
        *self.inner
    }

    /// One round of receiving a single item, without blocking: the oldest
    /// item if the queue hands one out; else `Closed` if no sender was
    /// alive before the queue was asked, and `Idle` otherwise. A caller
    /// that wants to wait sleeps on the generation that `Idle` carries and
    /// asks again.
    pub fn recv(&self) -> (attempt: Attempt<T>) {
        let seen: u32 = load(&self.inner.generation, Ordering::SeqCst);
        let senders: u32 = load(&self.inner.senders, Ordering::Acquire);
        let popped = queue_pop(&self.inner.data);
        settle(popped, senders, seen)
    }

    /// One round of receiving up to `num` items, without blocking. Items
    /// are popped until there are `num` of them or the queue runs dry; a
    /// batch that the queue cannot fill is delivered short rather than
    /// waited for. With nothing collected the round ends as `recv` does.
    pub fn recv_exact(&self, num: usize) -> (attempt: Attempt<Vec<T>>)
        requires
            num >= 1,
        ensures
            attempt matches Attempt::Ready(batch) ==> 1 <= batch@.len() <= num,
    {
        let seen: u32 = load(&self.inner.generation, Ordering::SeqCst);
        let senders: u32 = load(&self.inner.senders, Ordering::Acquire);
        let batch = self.inner.gather(num);
        settle(nonempty(batch), senders, seen)
    }

    /// One round of receiving everything that is queued, without blocking:
    /// as many items as the queue reports at the start of the round. With
    /// nothing collected the round ends as `recv` does.
    pub fn recv_all(&self) -> (attempt: Attempt<Vec<T>>)
        ensures
            attempt matches Attempt::Ready(batch) ==> 1 <= batch@.len(),
    {
        let seen: u32 = load(&self.inner.generation, Ordering::SeqCst);
        let senders: u32 = load(&self.inner.senders, Ordering::Acquire);
        let num: usize = batch_target(queue_len(&self.inner.data));
        let batch = self.inner.gather(num);
        settle(nonempty(batch), senders, seen)
    }

    /// Sleeps until a producer or the close wakes this thread. It returns
    /// at once if the generation is no longer `seen`, and it may return
    /// early; the caller asks the channel again either way.
    pub fn sleep(&self, seen: u32) {
        let _ = fetch_add(&self.inner.waiting, 1, Ordering::SeqCst);
        wait_while(&self.inner.generation, seen);
        let _ = fetch_sub(&self.inner.waiting, 1, Ordering::SeqCst);
    }
}

/// A fresh, empty channel with its first sender and a receiver.
pub fn channel<T>() -> (pair: (Sender<T>, Receiver<T>))
    ensures
        pair.0.shared() == pair.1.shared(),
{
    let inner = Arc::new(ChannelInner::new());
    let sender = Sender { inner: share(&inner) };
    let receiver = Receiver { inner };
    (sender, receiver)
}

} // verus!
