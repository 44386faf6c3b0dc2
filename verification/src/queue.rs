//! Capacity housekeeping for the event queues: an empty queue whose
//! allocation has grown past a threshold gives the memory back. None of this
//! changes what a queue holds.

use std::collections::VecDeque;
use vstd::prelude::*;

verus! {

/// Capacity above which an empty queue releases its memory.
pub const EMPTY_QUEUE_SHRINK_THRESHOLD: usize = 100;

/// `VecDeque::capacity`: how many items the queue can hold without
/// reallocating. The allocator decides this, so nothing is stated of it.
#[verifier::external_body]
fn queue_capacity<T>(queue: &VecDeque<T>) -> usize {
    queue.capacity()
}

/// `VecDeque::shrink_to_fit`: releases unused memory; the items and their
/// order stay as they were.
#[verifier::external_body]
fn shrink_queue<T>(queue: &mut VecDeque<T>)
    ensures
        final(queue)@ == old(queue)@,
{
    queue.shrink_to_fit()
}

/// Shrinks `queue` when its capacity exceeds the threshold; its contents
/// stay the same either way.
pub(crate) fn release_spare_capacity<T>(queue: &mut VecDeque<T>)
    ensures
        final(queue)@ == old(queue)@,
{
    if queue_capacity(queue) > EMPTY_QUEUE_SHRINK_THRESHOLD {
        shrink_queue(queue);
    }
}

} // verus!
