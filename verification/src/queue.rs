//! The bounded, in-process dispatch channel feeding the delivery worker.
//!
//! A first-in-first-out queue with a fixed capacity. Enqueueing on a full
//! queue is refused rather than dropping anything: with the asynchronous
//! channel the broker runs on, a producer would suspend instead.

use vstd::prelude::*;
use crate::types::VentrixEvent;

verus! {

/// The bounded FIFO handoff from the publish call site to the delivery
/// worker.
pub struct DispatchQueue {
    items: Vec<VentrixEvent>,
    capacity: usize,
}

impl View for DispatchQueue {
    type V = Seq<VentrixEvent>;

    closed spec fn view(&self) -> Seq<VentrixEvent> {
        self.items@
    }
}

impl DispatchQueue {
    /// The fixed capacity the queue was created with.
    pub closed spec fn spec_capacity(&self) -> usize {
        self.capacity
    }

    /// The queue never holds more events than its capacity.
    pub open spec fn wf(&self) -> bool {
        self@.len() <= self.spec_capacity()
    }

    /// An empty queue of the given capacity.
    pub fn new(capacity: usize) -> (r: Self)
        ensures
            r.wf(),
            r@ == Seq::<VentrixEvent>::empty(),
            r.spec_capacity() == capacity,
    {
        Self { items: Vec::new(), capacity }
    }

    /// How many events are waiting.
    pub fn len(&self) -> (n: usize)
        ensures
            n == self@.len(),
    {
        self.items.len()
    }

    /// The capacity the queue was created with.
    pub fn capacity(&self) -> (n: usize)
        ensures
            n == self.spec_capacity(),
    {
        self.capacity
    }

    /// Appends the event when a slot is free; a full queue refuses it and
    /// stays as it was.
    pub fn try_enqueue(&mut self, event: VentrixEvent) -> (ok: bool)
        requires
            old(self).wf(),
        ensures
            final(self).wf(),
            final(self).spec_capacity() == old(self).spec_capacity(),
            ok == (old(self)@.len() < old(self).spec_capacity()),
            ok ==> final(self)@ == old(self)@.push(event),
            !ok ==> final(self)@ == old(self)@,
    {
        if self.items.len() < self.capacity {
            self.items.push(event);
            true
        } else {
            false
        }
    }

    /// Removes and hands back the oldest event, if any.
    pub fn dequeue(&mut self) -> (r: Option<VentrixEvent>)
        requires
            old(self).wf(),
        ensures
            final(self).wf(),
            final(self).spec_capacity() == old(self).spec_capacity(),
            old(self)@.len() == 0 ==> r is None && final(self)@ == old(self)@,
            old(self)@.len() > 0 ==> r == Some(old(self)@[0]) && final(self)@ == old(
                self,
            )@.drop_first(),
    {
        if self.items.len() == 0 {
            None
        } else {
            let event = self.items.remove(0);
            proof {
                assert(self@ =~= old(self)@.drop_first());
            }
            Some(event)
        }
    }
}

} // verus!
