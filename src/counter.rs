//! The diagnostic sequence counter.
use vstd::prelude::*;

verus! {

/// The largest value the counter holds before it wraps back to zero.
pub const COUNTER_MAX: u64 = 0xffff_ffff_ffff_ffff;

/// A sequence counter that stamps diagnostic records: it hands out its value and
/// then moves on by one, wrapping to zero after `COUNTER_MAX`.
///
/// Whoever owns the counter has exclusive access to it, so its read-modify-write
/// needs no atomic operation.
pub struct SequenceCounter {
    count: u64,
}

/// The value that follows `n`: one more, or zero after `COUNTER_MAX`.
pub open spec fn successor(n: u64) -> u64 {
    if n == COUNTER_MAX {
        0
    } else {
        (n + 1) as u64
    }
}

impl SequenceCounter {
    /// The value that the next call of `timestamp` hands out.
    pub closed spec fn view(&self) -> u64 {
        self.count
    }

    /// A counter that starts at zero, as at process start.
    pub fn new() -> (r: SequenceCounter)
        ensures
            r@ == 0,
    {
        SequenceCounter { count: 0 }
    }

    /// A counter whose next value is `start`.
    pub fn starting_at(start: u64) -> (r: SequenceCounter)
        ensures
            r@ == start,
    {
        SequenceCounter { count: start }
    }

    /// The value that the next call of `timestamp` hands out, without advancing.
    pub fn peek(&self) -> (r: u64)
        ensures
            r == self@,
    {
        self.count
    }

    /// Hands out the current value and advances the counter by one, wrapping to
    /// zero after `COUNTER_MAX`.
    pub fn timestamp(&mut self) -> (r: u64)
        ensures
            r == old(self)@,
            final(self)@ == successor(old(self)@),
    {
        let n = self.count;
        self.count = n.wrapping_add(1);
        n
    }
}

} // verus!
