//! Bounded FIFO event queue between the interrupt context and the
//! blocking reader.
//!
//! The producing (interrupt) side must never block or suspend: a send to
//! a full queue drops the offered event and reports the drop, favouring
//! forward progress of the interrupt context over completeness of
//! history. The consuming side observes events in exactly the order they
//! were produced.

use vstd::prelude::*;

use crate::uart::UartEvent;

verus! {

/// Fixed capacity of the event queue; the queue never holds more events
/// than this.
pub const QUEUE_CAPACITY: usize = 16;

/// Bounded single-producer/single-consumer FIFO of driver events. Its
/// view is the sequence of queued events, oldest first.
pub struct EventQueue {
    items: Vec<UartEvent>,
}

impl View for EventQueue {
    type V = Seq<UartEvent>;

    closed spec fn view(&self) -> Seq<UartEvent> {
        self.items@
    }
}

impl EventQueue {
    /// Capacity invariant: the queue never exceeds [`QUEUE_CAPACITY`].
    pub open spec fn wf(&self) -> bool {
        self@.len() <= QUEUE_CAPACITY
    }

    /// Creates an empty queue.
    pub fn new() -> (q: EventQueue)
        ensures
            q@ == Seq::<UartEvent>::empty(),
    {
        EventQueue { items: Vec::new() }
    }

    /// Number of queued events.
    pub fn len(&self) -> (n: usize)
        ensures
            n == self@.len(),
    {
        self.items.len()
    }

    /// Non-blocking send from the producing context. When there is room
    /// the event is appended behind all earlier ones and accepted; when
    /// the queue is full the offered (newest) event is dropped, the queue
    /// is left unchanged, and the drop is reported. The producer is never
    /// made to wait.
    pub fn try_send(&mut self, evt: UartEvent) -> (accepted: bool)
        ensures
            accepted <==> old(self)@.len() < QUEUE_CAPACITY,
            accepted ==> final(self)@ == old(self)@.push(evt),
            !accepted ==> final(self)@ == old(self)@,
            old(self).wf() ==> final(self).wf(),
    {
        if self.items.len() < QUEUE_CAPACITY {
            self.items.push(evt);
            true
        } else {
            false
        }
    }

    /// Polling receive for the consuming side: removes and returns the
    /// oldest queued event, or `None` when the queue is empty. Repeated
    /// calls therefore observe events in production order.
    pub fn try_recv(&mut self) -> (r: Option<UartEvent>)
        ensures
            old(self)@.len() == 0 ==> r is None && final(self)@ == old(self)@,
            old(self)@.len() > 0 ==> r == Some(old(self)@[0]) && final(self)@
                == old(self)@.drop_first(),
            old(self).wf() ==> final(self).wf(),
    {
        if self.items.len() == 0 {
            None
        } else {
            let ghost pre = self.items@;
            let evt = self.items.remove(0);
            proof {
                assert(self.items@ =~= pre.drop_first());
            }
            Some(evt)
        }
    }
}

/// FIFO law: the consumer observes events exactly in production order.
/// [`EventQueue::try_send`] appends each accepted event behind all
/// earlier ones and [`EventQueue::try_recv`] takes the front, leaving
/// `drop_first`; so once `k` events have been received from a queue that
/// held `s`, the queue holds `s.skip(k)`, and the next event observed is
/// `s[k]` — the `k`-th produced.
pub proof fn lemma_fifo_order(s: Seq<UartEvent>, k: int)
    requires
        0 <= k < s.len(),
    ensures
        s.skip(k)[0] == s[k],
        s.skip(k).drop_first() == s.skip(k + 1),
{
    assert(s.skip(k).drop_first() =~= s.skip(k + 1));
}

} // verus!
