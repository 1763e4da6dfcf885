//! The decisions of the channel protocol, as functions of what a handle has
//! observed: whom a producer wakes, how a batch grows, and how one round of
//! a receive ends.

use vstd::prelude::*;

verus! {

/// Whom a producer wakes after it has published a change.
#[derive(Clone, Copy, Debug, PartialEq, Eq, Structural)]
pub enum Wake {
    /// No consumer sleeps: nothing to do.
    Nobody,
    /// One sleeping consumer suffices.
    One,
    /// Every sleeping consumer is woken.
    All,
}

/// How one round of a receive ended.
#[derive(Debug)]
pub enum Attempt<V> {
    /// The request was served with this value.
    Ready(V),
    /// The queue was empty and no sender is left: nothing will ever arrive.
    Closed,
    /// The queue was empty while senders were alive. The number is the
    /// generation that was read before the queue was looked at, so a sleep
    /// on it cannot miss a push that came later.
    Idle(u32),
}

impl<V> Attempt<V> {
    /// The value that the round delivered, if it delivered one.
    pub open spec fn delivered(self) -> Option<V> {
        match self {
            Attempt::Ready(value) => Some(value),
            _ => None,
        }
    }

    /// The delivered value, or `None` where the round ended `Closed` or
    /// `Idle`.
    pub fn ready(self) -> (value: Option<V>)
        ensures
            value == self.delivered(),
    {
        match self {
            Attempt::Ready(value) => Some(value),
            _ => None,
        }
    }

    /// Whether the round delivered.
    pub fn is_ready(&self) -> (yes: bool)
        ensures
            yes == (self is Ready),
    {
        match self {
            Attempt::Ready(_) => true,
            _ => false,
        }
    }

    /// Whether the round found the channel closed and empty.
    pub fn is_closed(&self) -> (yes: bool)
        ensures
            yes == (self is Closed),
    {
        match self {
            Attempt::Closed => true,
            _ => false,
        }
    }

    /// Whether the round found the channel open and empty.
    pub fn is_idle(&self) -> (yes: bool)
        ensures
            yes == (self is Idle),
    {
        match self {
            Attempt::Idle(_) => true,
            _ => false,
        }
    }
}

/// Whom to wake after `batch` items were pushed while `waiting` consumers
/// were asleep: nobody if none sleeps, one consumer for a single item, all
/// of them otherwise.
pub open spec fn wake_for(batch: nat, waiting: nat) -> Wake {
    if waiting == 0 {
        Wake::Nobody
    } else if batch == 1 {
        Wake::One
    } else {
        Wake::All
    }
}

/// Whether the sender that goes away as one of `before` live senders is the
/// last one, so that its going closes the channel.
pub open spec fn is_last(before: nat) -> bool {
    before == 1
}

/// Whom to wake after a sender went away as one of `before` live senders:
/// every sleeper if it was the last one, else nobody.
pub open spec fn wake_at_drop(before: nat, waiting: nat) -> Wake {
    if is_last(before) && waiting != 0 {
        Wake::All
    } else {
        Wake::Nobody
    }
}

/// The batch after one more answer of the queue.
pub open spec fn absorbed<T>(batch: Seq<T>, popped: Option<T>) -> Seq<T> {
    match popped {
        Some(item) => batch.push(item),
        None => batch,
    }
}

/// Whether a batch that aims at `num` items asks the queue again after the
/// answer `popped`: only if that answer was an item and the batch is still
/// short.
pub open spec fn wants_more<T>(batch: Seq<T>, popped: Option<T>, num: nat) -> bool {
    popped is Some && batch.len() + 1 < num
}

/// How a round ends that took `taken` from the queue, having read `senders`
/// live senders and the generation `seen` before.
pub open spec fn settled<V>(taken: Option<V>, senders: nat, seen: u32) -> Attempt<V> {
    match taken {
        Some(value) => Attempt::Ready(value),
        None => if senders == 0 {
            Attempt::Closed
        } else {
            Attempt::Idle(seen)
        },
    }
}

/// A drained batch as what a round took: nothing where it holds no item.
pub open spec fn kept<B>(batch: B, len: nat) -> Option<B> {
    if len == 0 {
        None
    } else {
        Some(batch)
    }
}

/// The number of items that a round of `recv_all` aims at when the queue
/// reports `len` items: all of them, and one if it reports none.
pub open spec fn target_of(len: nat) -> nat {
    if len == 0 {
        1
    } else {
        len
    }
}

/// Whom a producer wakes after it pushed `batch` items and then read
/// `waiting` as the number of consumers asleep.
pub fn wake_after_push(batch: usize, waiting: u32) -> (wake: Wake)
    ensures
        wake == wake_for(batch as nat, waiting as nat),
    opens_invariants none
    no_unwind
{
    if waiting == 0 {
        Wake::Nobody
    } else if batch == 1 {
        Wake::One
    } else {
        Wake::All
    }
}

/// Whether a sender that was counted down from `before` closed the channel.
pub fn closes(before: u32) -> (last: bool)
    ensures
        last == is_last(before as nat),
    opens_invariants none
    no_unwind
{
    before == 1
}

/// Whom a sender wakes at its drop, counted down from `before`, after it
/// read `waiting` as the number of consumers asleep.
pub fn wake_after_drop(before: u32, waiting: u32) -> (wake: Wake)
    ensures
        wake == wake_at_drop(before as nat, waiting as nat),
    opens_invariants none
    no_unwind
{
    if closes(before) && waiting != 0 {
        Wake::All
    } else {
        Wake::Nobody
    }
}

/// Adds the queue's answer to the batch and says whether to ask again.
pub fn absorb<T>(batch: &mut Vec<T>, popped: Option<T>, num: usize) -> (more: bool)
    ensures
        final(batch)@ == absorbed(old(batch)@, popped),
        more == wants_more(old(batch)@, popped, num as nat),
{
    match popped {
        Some(item) => {
            batch.push(item);
            batch.len() < num
        },
        None => false,
    }
}

/// A batch as the result of a drain: `None` where nothing was collected.
pub fn nonempty<T>(batch: Vec<T>) -> (taken: Option<Vec<T>>)
    ensures
        taken == kept(batch, batch@.len()),
{
    if batch.len() == 0 {
        None
    } else {
        Some(batch)
    }
}

/// Ends a round: an item or batch that was taken is delivered; with nothing
/// taken the round is `Closed` if no sender was left, and `Idle` otherwise.
pub fn settle<V>(taken: Option<V>, senders: u32, seen: u32) -> (attempt: Attempt<V>)
    ensures
        attempt == settled(taken, senders as nat, seen),
{
    match taken {
        Some(value) => Attempt::Ready(value),
        None => if senders == 0 {
            Attempt::Closed
        } else {
            Attempt::Idle(seen)
        },
    }
}

/// The number of items that a round aims at which takes all that the queue
/// reports.
pub fn batch_target(len: usize) -> (num: usize)
    ensures
        num == target_of(len as nat),
{
    if len == 0 {
        1
    } else {
        len
    }
}

} // verus!
