//! Sleeping on, and waking from, a 32-bit generation counter.

use std::sync::atomic::AtomicU32;
use std::sync::atomic::Ordering;
use vstd::prelude::*;

verus! {

/// `atomic_wait::wait`: blocks the calling thread while the counter still
/// holds `seen`, until a wake call on the same counter; it may also return
/// without one. Nothing is claimed on return.
#[verifier::external_body]
pub(crate) fn wait_while(generation: &AtomicU32, seen: u32) {
    atomic_wait::wait(generation, seen)
}

/// `atomic_wait::wake_one`: wakes at most one thread that sleeps on the
/// counter. It returns nothing and never unwinds.
#[verifier::external_body]
pub(crate) fn wake_one(generation: &AtomicU32)
    opens_invariants none
    no_unwind
{
    atomic_wait::wake_one(generation)
}

/// `atomic_wait::wake_all`: wakes every thread that sleeps on the counter.
/// It returns nothing and never unwinds.
#[verifier::external_body]
pub(crate) fn wake_all(generation: &AtomicU32)
    opens_invariants none
    no_unwind
{
    atomic_wait::wake_all(generation)
}

/// `AtomicU32::load`: the counter's value at some moment during the call.
/// Other threads change it, so nothing is claimed of the result. The call
/// panics for the orderings `Release` and `AcqRel`, which are left out;
/// for the others it never unwinds.
#[verifier::external_body]
pub(crate) fn load(counter: &AtomicU32, order: Ordering) -> u32
    requires
        order != Ordering::Release,
        order != Ordering::AcqRel,
    opens_invariants none
    no_unwind
{
    counter.load(order)
}

/// `AtomicU32::fetch_add`: adds `amount` to the counter, wrapping round,
/// and returns the value it replaced. Nothing is claimed of the result. It
/// never unwinds.
#[verifier::external_body]
pub(crate) fn fetch_add(counter: &AtomicU32, amount: u32, order: Ordering) -> u32
    opens_invariants none
    no_unwind
{
    counter.fetch_add(amount, order)
}

/// `AtomicU32::fetch_sub`: takes `amount` from the counter, wrapping round,
/// and returns the value it replaced. Nothing is claimed of the result. It
/// never unwinds.
#[verifier::external_body]
pub(crate) fn fetch_sub(counter: &AtomicU32, amount: u32, order: Ordering) -> u32
    opens_invariants none
    no_unwind
{
    counter.fetch_sub(amount, order)
}

} // verus!
