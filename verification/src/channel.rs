//! The event channel: a first-in-first-out queue from the input
//! producer to the interaction core.
//!
//! Its contracts carry the delivery guarantee the core depends on:
//! sending appends at the tail, receiving takes the head, so every
//! event sent is delivered exactly once, in generation order, and none
//! is coalesced or dropped however long it waits.

use vstd::prelude::*;

use crate::events::Event;

verus! {

/// The pending events, oldest first.
pub struct EventQueue {
    items: Vec<Event>,
}

impl View for EventQueue {
    type V = Seq<Event>;

    closed spec fn view(&self) -> Seq<Event> {
        self.items@
    }
}

impl EventQueue {
    pub fn new() -> (q: EventQueue)
        ensures
            q@ == Seq::<Event>::empty(),
    {
        EventQueue { items: Vec::new() }
    }

    pub fn len(&self) -> (n: usize)
        ensures
            n == self@.len(),
    {
        self.items.len()
    }

    pub fn is_empty(&self) -> (b: bool)
        ensures
            b <==> self@.len() == 0,
    {
        self.items.is_empty()
    }

    /// Enqueue one event behind everything already pending.
    pub fn send(&mut self, ev: Event)
        ensures
            final(self)@ == old(self)@.push(ev),
    {
        self.items.push(ev);
    }

    /// Dequeue the oldest pending event, if any.
    pub fn recv(&mut self) -> (r: Option<Event>)
        ensures
            old(self)@.len() == 0 ==> r is None && final(self)@ == old(self)@,
            old(self)@.len() > 0 ==> r == Some(old(self)@[0]) && final(self)@ == old(
                self,
            )@.drop_first(),
    {
        if self.items.is_empty() {
            None
        } else {
            let ev = self.items.remove(0);
            proof {
                assert(self@ =~= old(self)@.drop_first());
            }
            Some(ev)
        }
    }

    /// Receive until the queue is empty: exactly the pending events
    /// come out, oldest first, none dropped, none reordered.
    pub fn drain(&mut self) -> (evs: Vec<Event>)
        ensures
            evs@ == old(self)@,
            final(self)@ == Seq::<Event>::empty(),
    {
        let mut evs: Vec<Event> = Vec::new();
        proof {
            assert(evs@ + self@ =~= old(self)@);
        }
        while self.items.len() > 0
            invariant
                evs@ + self@ == old(self)@,
            decreases self@.len(),
        {
            let ev = self.items.remove(0);
            evs.push(ev);
            proof {
                assert(evs@ + self@ =~= old(self)@);
            }
        }
        proof {
            assert(evs@ =~= old(self)@);
        }
        evs
    }
}

/// Delivery order is a history invariant: if the events received so
/// far, followed by the events still pending, are exactly the events
/// sent so far in order, then a send keeps it that way.
pub proof fn lemma_send_keeps_order(received: Seq<Event>, pending: Seq<Event>, ev: Event)
    ensures
        received + pending.push(ev) == (received + pending).push(ev),
{
    assert(received + pending.push(ev) =~= (received + pending).push(ev));
}

/// ... and so does a receive: taking the head of the pending events
/// onto the received ones delivers the next sent event, no other.
pub proof fn lemma_recv_keeps_order(received: Seq<Event>, pending: Seq<Event>)
    requires
        pending.len() > 0,
    ensures
        received.push(pending[0]) + pending.drop_first() == received + pending,
{
    assert(received.push(pending[0]) + pending.drop_first() =~= received + pending);
}

} // verus!
