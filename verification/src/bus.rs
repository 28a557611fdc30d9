//! The event bus: one bounded multi-producer, single-consumer queue of
//! [`SystemMessage`] values.
//!
//! Delivery order equals send-completion order, so the single consumer
//! sees a total order across all producers. A send against a full bus
//! hands the message back instead of dropping it; the producer's execution
//! context suspends and retries, which gives the backpressure the design
//! asks for.

use crate::common::SystemMessage;
use vstd::prelude::*;

verus! {

/// The default bus capacity.
pub const DEFAULT_BUS_CAPACITY: usize = 10;

/// Bounded FIFO queue of system messages.
pub struct EventBus {
    capacity: usize,
    queue: Vec<SystemMessage>,
}

impl EventBus {
    /// The pending messages, oldest first.
    pub closed spec fn pending(&self) -> Seq<SystemMessage> {
        self.queue@
    }

    /// The fixed capacity chosen at construction.
    pub closed spec fn capacity(&self) -> int {
        self.capacity as int
    }

    /// The queue never holds more than its capacity.
    pub open spec fn wf(&self) -> bool {
        self.pending().len() <= self.capacity()
    }

    /// Creates an empty bus with the given capacity.
    pub fn new(capacity: usize) -> (bus: EventBus)
        ensures
            bus.wf(),
            bus.pending() =~= Seq::<SystemMessage>::empty(),
            bus.capacity() == capacity,
    {
        EventBus { capacity, queue: Vec::new() }
    }

    /// Creates an empty bus with the default capacity.
    pub fn new_default() -> (bus: EventBus)
        ensures
            bus.wf(),
            bus.pending() =~= Seq::<SystemMessage>::empty(),
            bus.capacity() == DEFAULT_BUS_CAPACITY,
    {
        EventBus::new(DEFAULT_BUS_CAPACITY)
    }

    /// Number of pending messages.
    pub fn len(&self) -> (n: usize)
        ensures
            n == self.pending().len(),
    {
        self.queue.len()
    }

    /// Whether a send would be accepted right now.
    pub fn has_room(&self) -> (b: bool)
        ensures
            b == (self.pending().len() < self.capacity()),
    {
        self.queue.len() < self.capacity
    }

    /// Appends a message behind all pending messages. A full bus returns
    /// the message to the sender unchanged, so no event is ever dropped:
    /// the producer suspends and offers it again.
    pub fn send(&mut self, msg: SystemMessage) -> (r: Result<(), SystemMessage>)
        requires
            old(self).wf(),
        ensures
            final(self).wf(),
            final(self).capacity() == old(self).capacity(),
            old(self).pending().len() < old(self).capacity() ==> r is Ok
                && final(self).pending() =~= old(self).pending().push(msg),
            old(self).pending().len() >= old(self).capacity() ==> (r matches Err(back)
                && back == msg && *final(self) == *old(self)),
    {
        if self.queue.len() < self.capacity {
            self.queue.push(msg);
            Ok(())
        } else {
            Err(msg)
        }
    }

    /// Takes the oldest pending message, or `None` when the bus is idle.
    pub fn recv(&mut self) -> (r: Option<SystemMessage>)
        requires
            old(self).wf(),
        ensures
            final(self).wf(),
            final(self).capacity() == old(self).capacity(),
            old(self).pending().len() == 0 ==> r is None && *final(self) == *old(self),
            old(self).pending().len() > 0 ==> {
                &&& r matches Some(msg) && msg == old(self).pending()[0]
                &&& final(self).pending() =~= old(self).pending().drop_first()
            },
    {
        if self.queue.len() == 0 {
            None
        } else {
            Some(self.queue.remove(0))
        }
    }
}

} // verus!
