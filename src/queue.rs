//! The ordered, append-only buffer of domain events of one frame.
use vstd::prelude::*;

use crate::event::DomainEvent;

verus! {

/// A domain event together with the priority it was registered with.
#[derive(Clone, Copy, Debug, PartialEq, Eq, Structural)]
pub struct QueuedEvent {
    pub event: DomainEvent,
    pub priority: i32,
}

/// Events awaiting dispatch, in the order they were registered.
pub struct EventQueue {
    entries: Vec<QueuedEvent>,
}

/// The events of a sequence of queue entries, in order.
pub open spec fn events_of(entries: Seq<QueuedEvent>) -> Seq<DomainEvent> {
    entries.map_values(|q: QueuedEvent| q.event)
}

/// Domain events as queue entries of priority zero, in the same order.
pub open spec fn at_priority_zero(ds: Seq<DomainEvent>) -> Seq<QueuedEvent> {
    ds.map_values(|d: DomainEvent| QueuedEvent { event: d, priority: 0 })
}

impl View for EventQueue {
    type V = Seq<QueuedEvent>;

    closed spec fn view(&self) -> Seq<QueuedEvent> {
        self.entries@
    }
}

impl EventQueue {
    /// The events held, oldest first.
    pub open spec fn events(&self) -> Seq<DomainEvent> {
        events_of(self@)
    }

    /// An empty queue.
    pub fn new() -> (r: EventQueue)
        ensures
            r@ == Seq::<QueuedEvent>::empty(),
    {
        EventQueue { entries: Vec::new() }
    }

    /// Appends `event` with `priority` behind everything already queued.
    pub fn register_event(&mut self, event: DomainEvent, priority: i32)
        ensures
            final(self)@ == old(self)@.push(QueuedEvent { event, priority }),
    {
        self.entries.push(QueuedEvent { event, priority });
    }

    /// The number of events waiting.
    pub fn len(&self) -> (r: usize)
        ensures
            r == self@.len(),
    {
        self.entries.len()
    }

    /// Whether no event is waiting.
    pub fn is_empty(&self) -> (r: bool)
        ensures
            r == (self@.len() == 0),
    {
        self.entries.len() == 0
    }

    /// The entry at `index`, counted from the oldest.
    pub fn get(&self, index: usize) -> (r: QueuedEvent)
        requires
            index < self@.len(),
        ensures
            r == self@[index as int],
    {
        self.entries[index]
    }

    /// Hands out every waiting event, oldest first, and leaves the queue empty,
    /// so that no event is delivered twice and none is lost.
    pub fn drain(&mut self) -> (r: Vec<DomainEvent>)
        ensures
            r@ == old(self).events(),
            final(self)@ == Seq::<QueuedEvent>::empty(),
    {
        let mut taken: Vec<QueuedEvent> = Vec::new();
        std::mem::swap(&mut self.entries, &mut taken);
        let mut out: Vec<DomainEvent> = Vec::new();
        let mut i: usize = 0;
        while i < taken.len()
            invariant
                i <= taken@.len(),
                out@ == events_of(taken@.take(i as int)),
            decreases taken@.len() - i,
        {
            out.push(taken[i].event);
            i = i + 1;
            assert(taken@.take(i as int) == taken@.take(i - 1).push(taken@[i - 1]));
        }
        assert(taken@.take(i as int) == taken@);
        out
    }
}

} // verus!
