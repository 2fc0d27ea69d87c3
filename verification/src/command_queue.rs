//! The fence values of a command queue.
//!
//! A queue is synchronized through one fence. Each signal put into the
//! queue carries a value one higher than the signal before it, so that
//! waiting for a value waits for all the work queued before that signal.

use vstd::prelude::*;

verus! {

/// The value that the first signal of a queue carries.
pub const FIRST_FENCE_VALUE: u64 = 1;

/// Counts the signals of one command queue.
pub struct SynchronizedCommandQueue {
    fence_value: u64,
}

impl SynchronizedCommandQueue {
    /// The value that the next signal will carry.
    pub closed spec fn next_value(&self) -> u64 {
        self.fence_value
    }

    /// The count for a new queue: its fence starts at zero, and the first
    /// signal carries `FIRST_FENCE_VALUE`.
    pub fn new() -> (queue: Self)
        ensures
            queue.next_value() == FIRST_FENCE_VALUE,
    {
        SynchronizedCommandQueue { fence_value: FIRST_FENCE_VALUE }
    }

    /// The value to signal the fence with next.
    pub fn fence_value(&self) -> (value: u64)
        ensures
            value == self.next_value(),
    {
        self.fence_value
    }

    /// Whether the fence has a value left for another signal.
    pub fn can_enqueue_signal(&self) -> (can: bool)
        ensures
            can == (self.next_value() < u64::MAX),
    {
        self.fence_value < u64::MAX
    }

    /// Records that a signal with the value `fence_value()` was put into
    /// the queue, and returns that value: the one to wait for.
    pub fn enqueue_signal(&mut self) -> (signaled_value: u64)
        requires
            old(self).next_value() < u64::MAX,
        ensures
            signaled_value == old(self).next_value(),
            final(self).next_value() == signaled_value + 1,
    {
        let signaled_value = self.fence_value;
        self.fence_value = self.fence_value + 1;
        signaled_value
    }
}

} // verus!
