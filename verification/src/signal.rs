//! Single-slot, overwrite-on-write mailbox: the notification primitive that
//! decouples the monitors from their consumers.
//!
//! A write replaces any unread value, so a late reader observes only the most
//! recent value, never history; a read consumes the slot. The writer never
//! blocks. Waiting for a value is the caller's concern: a task that needs to
//! block polls `try_take` at its own suspension points.

use vstd::prelude::*;

verus! {

/// What one write leaves in a slot: the new value, whatever was pending.
pub open spec fn slot_after_write<T>(slot: Option<T>, value: T) -> Option<T> {
    Some(value)
}

/// What one read observes and leaves: the pending value, and an empty slot.
pub open spec fn slot_after_take<T>(slot: Option<T>) -> (Option<T>, Option<T>) {
    (slot, None)
}

/// Single-slot mailbox holding at most one pending value.
pub struct Signal<T> {
    value: Option<T>,
}

impl<T> Signal<T> {
    /// The pending value: written and not yet taken.
    pub closed spec fn pending(self) -> Option<T> {
        self.value
    }

    /// An empty signal.
    pub fn new() -> (s: Self)
        ensures
            s.pending() is None,
    {
        Signal { value: None }
    }

    /// Write a value, replacing any pending one. Never blocks.
    pub fn signal(&mut self, value: T)
        ensures
            final(self).pending() == slot_after_write(old(self).pending(), value),
    {
        self.value = Some(value);
    }

    /// Take the pending value, if any, leaving the slot empty.
    pub fn try_take(&mut self) -> (r: Option<T>)
        ensures
            (r, final(self).pending()) == slot_after_take(old(self).pending()),
    {
        self.value.take()
    }

    /// Whether a value is pending.
    pub fn is_signaled(&self) -> (r: bool)
        ensures
            r == (self.pending() is Some),
    {
        self.value.is_some()
    }
}

/// Law: the slot is last-value-wins. After two writes with no read between
/// them, only the second value is observable: the first read returns it, and
/// a second read finds the slot empty, whatever was pending at the start.
pub proof fn lemma_last_value_wins<T>(slot: Option<T>, first: T, second: T)
    ensures
        ({
            let after_writes = slot_after_write(slot_after_write(slot, first), second);
            let (read1, rest1) = slot_after_take(after_writes);
            let (read2, rest2) = slot_after_take(rest1);
            &&& after_writes == Some(second)
            &&& read1 == Some(second)
            &&& read2 is None
            &&& rest2 is None
        }),
{
}

} // verus!
