//! Per-stream RTP sequence numbers.

use vstd::prelude::*;

verus! {

/// The number of distinct sequence values: a counter returns to its start
/// after this many calls.
pub open spec fn sequence_modulus() -> int {
    65536
}

/// The sequence number that follows `value`: one more, and 0 after the
/// largest 16-bit value.
pub open spec fn successor(value: u16) -> u16 {
    if value == u16::MAX {
        0
    } else {
        (value + 1) as u16
    }
}

/// The value returned by the call that comes `n` calls after the one that
/// returned `start`.
pub open spec fn nth_after(start: u16, n: nat) -> u16 {
    ((start + n) % sequence_modulus()) as u16
}

/// A 16-bit sequence counter owned by one media stream.
///
/// The counter hands out consecutive values and wraps from 65535 to 0. A
/// stream that is fed from several threads keeps its counter behind a lock:
/// `next` takes the counter exclusively, so each call sees the value left by
/// the one before it.
#[derive(Clone, Copy, Debug)]
pub struct SequenceCounter {
    value: u16,
}

impl SequenceCounter {
    /// The value that the next call of `next` returns.
    pub closed spec fn current(&self) -> u16 {
        self.value
    }

    /// The counter as one call of `next` leaves it.
    pub closed spec fn advanced(&self) -> SequenceCounter {
        SequenceCounter { value: successor(self.value) }
    }

    /// The counter as `n` calls of `next` leave it.
    pub open spec fn advanced_by(&self, n: nat) -> SequenceCounter
        decreases n,
    {
        if n == 0 {
            *self
        } else {
            self.advanced_by((n - 1) as nat).advanced()
        }
    }

    /// A counter whose first value is 0.
    pub fn new() -> (counter: SequenceCounter)
        ensures
            counter.current() == 0,
    {
        SequenceCounter { value: 0 }
    }

    /// A counter whose first value is `value`.
    pub fn starting_at(value: u16) -> (counter: SequenceCounter)
        ensures
            counter.current() == value,
    {
        SequenceCounter { value }
    }

    /// The value that the next call of `next` returns, without consuming it.
    pub fn peek(&self) -> (value: u16)
        ensures
            value == self.current(),
    {
        self.value
    }

    /// Returns the current value and moves the counter to its successor.
    pub fn next(&mut self) -> (sequence: u16)
        ensures
            sequence == old(self).current(),
            *final(self) == old(self).advanced(),
            final(self).current() == successor(old(self).current()),
    {
        let sequence: u16 = self.value;
        if sequence == u16::MAX {
            self.value = 0;
        } else {
            self.value = sequence + 1;
        }
        sequence
    }
}

/// One call moves the counter to the successor of its value.
pub proof fn lemma_advanced_current(counter: SequenceCounter)
    ensures
        counter.advanced().current() == successor(counter.current()),
{
}

/// The call that comes `n` calls after the first returns the first value
/// plus `n`, reduced modulo 65536: a fresh counter returns 0, 1, 2, ... in
/// call order.
pub proof fn lemma_nth_call(counter: SequenceCounter, n: nat)
    ensures
        counter.advanced_by(n).current() == nth_after(counter.current(), n),
        counter.current() == 0 ==> counter.advanced_by(n).current() == n % (sequence_modulus() as nat),
    decreases n,
{
    if n > 0 {
        lemma_nth_call(counter, (n - 1) as nat);
    }
}

/// Two calls less than 65536 calls apart never return the same value.
pub proof fn lemma_no_duplicates(counter: SequenceCounter, i: nat, j: nat)
    requires
        i < j < i + sequence_modulus(),
    ensures
        counter.advanced_by(i).current() != counter.advanced_by(j).current(),
{
    lemma_nth_call(counter, i);
    lemma_nth_call(counter, j);
}

} // verus!
