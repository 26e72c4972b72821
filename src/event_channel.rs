use vstd::prelude::*;

verus! {

/// The backend-to-core queue of display events, drained by the core in one go.
pub struct EventQueue<E> {
    events: Vec<E>,
}

impl<E> EventQueue<E> {
    pub closed spec fn view(&self) -> Seq<E> {
        self.events@
    }

    pub fn new() -> (r: EventQueue<E>)
        ensures
            r@.len() == 0,
    {
        EventQueue { events: Vec::new() }
    }

    /// Enqueues an event behind those already waiting.
    pub fn push(&mut self, e: E)
        ensures
            final(self)@ == old(self)@.push(e),
    {
        self.events.push(e);
    }

    /// Whether a reader waiting for events can proceed.
    pub fn is_readable(&self) -> (r: bool)
        ensures
            r == (self@.len() > 0),
    {
        self.events.len() > 0
    }

    /// Takes every queued event, oldest first, and leaves the queue empty.
    pub fn collect_events(&mut self) -> (r: Vec<E>)
        ensures
            r@ == old(self)@,
            final(self)@.len() == 0,
    {
        let mut out: Vec<E> = Vec::new();
        std::mem::swap(&mut self.events, &mut out);
        out
    }
}

/// Events come out in the order they went in, and draining empties the queue, so a
/// second drain right after the first yields nothing.
pub proof fn lemma_delivery_order<E>(q0: Seq<E>, e1: E, e2: E, q1: Seq<E>, q2: Seq<E>, drained: Seq<E>, q3: Seq<E>, again: Seq<E>)
    requires
        q1 == q0.push(e1),
        q2 == q1.push(e2),
        drained == q2,
        q3.len() == 0,
        again == q3,
    ensures
        drained == q0 + seq![e1, e2],
        drained[q0.len() as int] == e1,
        drained[q0.len() as int + 1] == e2,
        again.len() == 0,
{
    assert(q2 =~= q0 + seq![e1, e2]);
}

} // verus!
