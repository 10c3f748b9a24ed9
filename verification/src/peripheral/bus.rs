//! The event bus: one ordered, capacity-bounded stream of peripheral
//! events from the native adapters to the single application consumer.
//!
//! Producers that find the bus full are handed their event back so they
//! can suspend and retry; events are never dropped, because losing a
//! read or write request would leave a remote client hanging.

use crate::gatt::peripheral_event::PeripheralEvent;
use vstd::prelude::*;

verus! {

/// The default capacity of the bus.
pub const DEFAULT_EVENT_BUS_CAPACITY: usize = 256;

/// A bounded first-in first-out event stream.
///
/// The ghost history records every event the bus ever accepted, in
/// acceptance order; `delivered` counts how many of them the consumer
/// has already taken. What is still pending is exactly the undelivered
/// suffix of the history.
pub struct EventBus {
    queue: Vec<PeripheralEvent>,
    capacity: usize,
    history: Ghost<Seq<PeripheralEvent>>,
    delivered: Ghost<nat>,
}

impl EventBus {
    /// Every event the bus has accepted, in acceptance order.
    pub closed spec fn history(&self) -> Seq<PeripheralEvent> {
        self.history@
    }

    /// How many accepted events the consumer has already taken.
    pub closed spec fn delivered(&self) -> nat {
        self.delivered@
    }

    /// The bound on how many events may be pending at once.
    pub closed spec fn capacity(&self) -> usize {
        self.capacity
    }

    /// The events accepted and not yet consumed, oldest first.
    pub closed spec fn pending(&self) -> Seq<PeripheralEvent> {
        self.queue@
    }

    /// Well-formedness: the pending events are exactly the undelivered
    /// suffix of the history, and never more than the capacity.
    pub closed spec fn wf(&self) -> bool {
        &&& self.capacity > 0
        &&& self.queue@.len() <= self.capacity
        &&& self.delivered@ + self.queue@.len() == self.history@.len()
        &&& self.queue@ =~= self.history@.subrange(
            self.delivered@ as int,
            self.history@.len() as int,
        )
    }

    /// An empty bus with the given capacity.
    pub fn new(capacity: usize) -> (r: EventBus)
        requires
            capacity > 0,
        ensures
            r.wf(),
            r.capacity() == capacity,
            r.history() == Seq::<PeripheralEvent>::empty(),
            r.pending() == Seq::<PeripheralEvent>::empty(),
            r.delivered() == 0,
    {
        let r = EventBus {
            queue: Vec::new(),
            capacity,
            history: Ghost(Seq::empty()),
            delivered: Ghost(0),
        };
        proof {
            assert(r.queue@ =~= r.history@.subrange(0, 0));
            assert(r.history@ =~= Seq::<PeripheralEvent>::empty());
        }
        r
    }

    /// An empty bus with the default capacity.
    pub fn with_default_capacity() -> (r: EventBus)
        ensures
            r.wf(),
            r.capacity() == DEFAULT_EVENT_BUS_CAPACITY,
            r.history() == Seq::<PeripheralEvent>::empty(),
            r.pending() == Seq::<PeripheralEvent>::empty(),
            r.delivered() == 0,
    {
        EventBus::new(DEFAULT_EVENT_BUS_CAPACITY)
    }

    /// Publishes `event`. It is accepted exactly when there is room;
    /// a full bus hands the event back so the producer can suspend and
    /// retry, rather than drop it.
    pub fn publish(&mut self, event: PeripheralEvent) -> (r: Result<(), PeripheralEvent>)
        requires
            old(self).wf(),
        ensures
            final(self).wf(),
            final(self).capacity() == old(self).capacity(),
            final(self).delivered() == old(self).delivered(),
            r is Ok <==> old(self).pending().len() < old(self).capacity(),
            r is Ok ==> final(self).history() == old(self).history().push(event)
                && final(self).pending() == old(self).pending().push(event),
            r matches Err(e) ==> e == event && final(self).history() == old(self).history()
                && final(self).pending() == old(self).pending(),
    {
        if self.queue.len() < self.capacity {
            self.queue.push(event);
            proof {
                self.history@ = self.history@.push(event);
                assert(self.queue@ =~= self.history@.subrange(
                    self.delivered@ as int,
                    self.history@.len() as int,
                ));
            }
            Ok(())
        } else {
            Err(event)
        }
    }

    /// Takes the next event, if any: always the oldest pending one, the
    /// `delivered`-th ever accepted.
    pub fn consume(&mut self) -> (r: Option<PeripheralEvent>)
        requires
            old(self).wf(),
        ensures
            final(self).wf(),
            final(self).capacity() == old(self).capacity(),
            final(self).history() == old(self).history(),
            old(self).pending().len() == 0 ==> r is None
                && final(self).delivered() == old(self).delivered()
                && final(self).pending() == old(self).pending(),
            old(self).pending().len() > 0 ==> (r matches Some(e)
                && e == old(self).history()[old(self).delivered() as int]
                && e == old(self).pending()[0]
                && final(self).delivered() == old(self).delivered() + 1
                && final(self).pending() == old(self).pending().drop_first()),
    {
        if self.queue.len() == 0 {
            None
        } else {
            let e = self.queue.remove(0);
            proof {
                self.delivered@ = self.delivered@ + 1;
                assert(self.queue@ =~= self.history@.subrange(
                    self.delivered@ as int,
                    self.history@.len() as int,
                ));
            }
            Some(e)
        }
    }

    /// How many events are pending.
    pub fn len(&self) -> (r: usize)
        ensures
            r == self.pending().len(),
    {
        self.queue.len()
    }
}

/// Ordering within a source: the pending events stand in acceptance
/// order — the k-th event the consumer will take next is the
/// (delivered + k)-th ever accepted. Together with the contract of
/// `consume`, two events published one after the other by the same
/// producer are observed by the consumer in exactly that order.
pub proof fn lemma_ordering_within_source(b: EventBus)
    requires
        b.wf(),
    ensures
        b.pending().len() == b.history().len() - b.delivered(),
        forall|k: int|
            0 <= k < b.pending().len() ==> b.pending()[k] == b.history()[b.delivered() + k],
{
}

} // verus!
