//! The FIFO storage of the channel: `crossbeam`'s segmented queue.
//!
//! The queue is shared between threads, so between two calls made by one
//! thread any number of calls by other threads may take effect. None of the
//! functions here therefore promises anything about what it returns.

use crossbeam::queue::SegQueue;
use vstd::prelude::*;

verus! {

/// `crossbeam::queue::SegQueue`, carried as an opaque value.
#[verifier::external_type_specification]
#[verifier::external_body]
#[verifier::reject_recursive_types(T)]
pub struct ExSegQueue<T>(SegQueue<T>);

/// `SegQueue::new`: a queue that holds nothing yet. The contract claims
/// nothing of it.
#[verifier::external_body]
pub(crate) fn queue_new<T>() -> SegQueue<T> {
    SegQueue::new()
}

/// `SegQueue::push`: appends `item` at the tail. The contract claims
/// nothing of the queue afterwards.
#[verifier::external_body]
pub(crate) fn queue_push<T>(queue: &SegQueue<T>, item: T)
{
    queue.push(item)
}

/// `SegQueue::pop`: takes the head item if the queue holds one, and
/// answers `None` if it is empty. The contract claims nothing of the
/// result: other threads push and pop at the same time.
#[verifier::external_body]
pub(crate) fn queue_pop<T>(queue: &SegQueue<T>) -> Option<T> {
    queue.pop()
}

/// `SegQueue::len`: the number of items at some moment during the call.
/// The contract claims nothing of the result.
#[verifier::external_body]
pub(crate) fn queue_len<T>(queue: &SegQueue<T>) -> usize {
    queue.len()
}

} // verus!
