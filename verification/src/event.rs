//! Completion counters as the work queue sees them.

use vstd::prelude::*;

verus! {

/// A value of a completion counter. Firmware advances the counter; a batch
/// is complete once the counter has reached the batch's value.
#[derive(Clone, Copy, Debug, PartialEq, Eq, Structural)]
pub struct EventValue(pub u64);

/// Names a subscription to a completion counter, so that the next
/// subscription can be asked to follow it.
#[derive(Clone, Copy, Debug, PartialEq, Eq, Structural)]
pub struct Token(pub u64);

/// A subscription to a completion counter.
#[derive(Clone, Copy, Debug, PartialEq, Eq, Structural)]
pub struct Event {
    /// The slot of the counter that firmware advances.
    pub slot: u32,
    /// The subscription's name.
    pub token: Token,
}

/// What the notifier answers to a request for a subscription: the
/// subscription and the counter's value at that moment.
#[derive(Clone, Copy, Debug, PartialEq, Eq, Structural)]
pub struct Subscription {
    pub event: Event,
    pub current: EventValue,
}

impl EventValue {
    /// The value that follows this one.
    pub fn increment(&mut self)
        requires
            old(self).0 < u64::MAX,
        ensures
            final(self).0 == old(self).0 + 1,
    {
        self.0 = self.0 + 1;
    }
}

impl Event {
    /// The slot of the counter.
    pub fn slot(&self) -> (r: u32)
        ensures
            r == self.slot,
    {
        self.slot
    }

    /// The subscription's name.
    pub fn token(&self) -> (r: Token)
        ensures
            r == self.token,
    {
        self.token
    }
}

} // verus!
