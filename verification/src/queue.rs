//! The event queue: events wait here, in the order in which they arrived,
//! until the consumer takes them.

use vstd::prelude::*;
use std::collections::VecDeque;
use crate::event::Event;

verus! {

/// A first-in, first-out buffer of events.
pub struct EventQueue {
    events: VecDeque<Event>,
}

impl View for EventQueue {
    type V = Seq<Event>;

    /// The waiting events, oldest first.
    closed spec fn view(&self) -> Seq<Event> {
        self.events@
    }
}

impl EventQueue {
    /// An empty queue.
    pub fn new() -> (q: EventQueue)
        ensures
            q@ == Seq::<Event>::empty(),
    {
        EventQueue { events: VecDeque::new() }
    }

    /// How many events wait.
    pub fn len(&self) -> (n: usize)
        ensures
            n == self@.len(),
    {
        self.events.len()
    }

    /// Whether no event waits.
    pub fn is_empty(&self) -> (b: bool)
        ensures
            b == (self@.len() == 0),
    {
        self.events.len() == 0
    }

    /// Appends an event behind those that wait already.
    pub fn push(&mut self, event: Event)
        ensures
            final(self)@ == old(self)@.push(event),
    {
        self.events.push_back(event);
    }

    /// Takes every waiting event out, oldest first, and leaves the queue
    /// empty.
    pub fn drain(&mut self) -> (events: Vec<Event>)
        ensures
            events@ == old(self)@,
            final(self)@ == Seq::<Event>::empty(),
    {
        let mut out: Vec<Event> = Vec::new();
        while self.events.len() > 0
            invariant
                out@ + self.events@ == old(self).events@,
            decreases self.events@.len(),
        {
            let ghost before = self.events@;
            let front = self.events.pop_front();
            match front {
                Some(event) => {
                    out.push(event);
                    assert(out@ + self.events@ =~= (out@.drop_last() + before));
                },
                None => {},
            }
        }
        assert(out@ =~= out@ + self.events@);
        out
    }
}

/// Event ordering: events pushed one after another are drained in the order
/// of their arrival, behind those that waited before, with none dropped,
/// merged or moved.
pub proof fn lemma_queue_is_fifo(waiting: Seq<Event>, arrivals: Seq<Event>)
    ensures
        pushed_all(waiting, arrivals) == waiting + arrivals,
    decreases arrivals.len(),
{
    if arrivals.len() > 0 {
        lemma_queue_is_fifo(waiting, arrivals.drop_last());
        assert(waiting + arrivals =~= (waiting + arrivals.drop_last()).push(arrivals.last()));
    } else {
        assert(waiting + arrivals =~= waiting);
    }
}

/// The queue's contents after the arrivals were pushed one by one.
pub open spec fn pushed_all(waiting: Seq<Event>, arrivals: Seq<Event>) -> Seq<Event>
    decreases arrivals.len(),
{
    if arrivals.len() == 0 {
        waiting
    } else {
        pushed_all(waiting, arrivals.drop_last()).push(arrivals.last())
    }
}

} // verus!
