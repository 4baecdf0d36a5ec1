//! The event conduit between the generation task and the response stream.
//!
//! A bounded, ordered, single-producer/single-consumer queue of progress
//! events. Sending suspends (here: is refused) when the queue is full;
//! closing it is the sole end-of-stream signal, after which nothing more
//! is accepted. The queue carries ghost logs of everything ever emitted
//! and everything ever handed out, so that order preservation is a stated
//! property and not a convention.

use vstd::prelude::*;
use crate::event::{EventView, GenerationEvent};

verus! {

/// Pending-event headroom the gateway gives each request's conduit.
pub const EVENT_CHANNEL_CAPACITY: usize = 100;

/// A bounded FIFO queue of progress events.
pub struct EventQueue {
    /// Pending events, oldest first.
    pub items: Vec<GenerationEvent>,
    /// Bound on the number of pending events.
    pub capacity: usize,
    /// The producer closed the queue; nothing more is accepted.
    pub closed: bool,
    /// Everything ever accepted, in emission order.
    pub sent: Ghost<Seq<EventView>>,
    /// Everything ever handed out, in delivery order.
    pub received: Ghost<Seq<EventView>>,
}

impl EventQueue {
    /// The pending events, as their mathematical images, oldest first.
    pub open spec fn contents(self) -> Seq<EventView> {
        self.items@.map_values(|e: GenerationEvent| e@)
    }

    /// The queue invariant: what was emitted is what was delivered
    /// followed by what is still pending, and the pending part respects
    /// the bound.
    pub open spec fn wf(self) -> bool {
        &&& self.sent@ == self.received@ + self.contents()
        &&& self.contents().len() <= self.capacity
    }

    /// An empty, open queue with the given headroom.
    pub fn new(capacity: usize) -> (q: EventQueue)
        ensures
            q.wf(),
            q.capacity == capacity,
            !q.closed,
            q.contents().len() == 0,
            q.sent@.len() == 0,
            q.received@.len() == 0,
    {
        let q = EventQueue {
            items: Vec::new(),
            capacity,
            closed: false,
            sent: Ghost(Seq::empty()),
            received: Ghost(Seq::empty()),
        };
        proof {
            assert(q.sent@ =~= q.received@ + q.contents());
        }
        q
    }

    /// Emit one event. Accepted exactly when the queue is open and not
    /// full; a refused event leaves the queue untouched.
    pub fn try_send(&mut self, e: GenerationEvent) -> (ok: bool)
        requires
            old(self).wf(),
        ensures
            final(self).wf(),
            final(self).capacity == old(self).capacity,
            final(self).closed == old(self).closed,
            final(self).received == old(self).received,
            ok == (!old(self).closed && old(self).contents().len() < old(self).capacity),
            ok ==> final(self).contents() == old(self).contents().push(e@) && final(self).sent@
                == old(self).sent@.push(e@),
            !ok ==> *final(self) == *old(self),
    {
        if self.closed || self.items.len() >= self.capacity {
            false
        } else {
            let ghost ev = e@;
            self.items.push(e);
            self.sent = Ghost(self.sent@.push(ev));
            proof {
                assert(self.contents() =~= old(self).contents().push(ev));
                assert(self.sent@ =~= self.received@ + self.contents());
            }
            true
        }
    }

    /// Hand out the oldest pending event, if any.
    pub fn recv(&mut self) -> (r: Option<GenerationEvent>)
        requires
            old(self).wf(),
        ensures
            final(self).wf(),
            final(self).capacity == old(self).capacity,
            final(self).closed == old(self).closed,
            final(self).sent == old(self).sent,
            r is Some <==> old(self).contents().len() > 0,
            r matches Some(e) ==> e@ == old(self).contents()[0] && final(self).contents()
                == old(self).contents().drop_first() && final(self).received@ == old(
                self,
            ).received@.push(e@),
            r is None ==> *final(self) == *old(self),
    {
        if self.items.len() == 0 {
            None
        } else {
            let e = self.items.remove(0);
            let ghost ev = e@;
            self.received = Ghost(self.received@.push(ev));
            proof {
                assert(self.contents() =~= old(self).contents().drop_first());
                assert(self.sent@ =~= self.received@ + self.contents());
            }
            Some(e)
        }
    }

    /// Close the queue: the end-of-stream signal. Pending events stay
    /// deliverable; nothing more is accepted.
    pub fn close(&mut self)
        requires
            old(self).wf(),
        ensures
            final(self).wf(),
            final(self).closed,
            final(self).capacity == old(self).capacity,
            final(self).items == old(self).items,
            final(self).sent == old(self).sent,
            final(self).received == old(self).received,
    {
        self.closed = true;
    }

    /// How many events are pending.
    pub fn len(&self) -> (n: usize)
        ensures
            n == self.contents().len(),
    {
        self.items.len()
    }
}

/// Delivery preserves emission order: at every instant, what the consumer
/// has received is exactly a prefix of what the producer emitted — the
/// conduit neither reorders, drops, nor duplicates events.
pub proof fn lemma_fifo(q: EventQueue)
    requires
        q.wf(),
    ensures
        q.received@.len() <= q.sent@.len(),
        q.received@ == q.sent@.subrange(0, q.received@.len() as int),
{
    assert(q.received@ =~= q.sent@.subrange(0, q.received@.len() as int));
}

} // verus!
