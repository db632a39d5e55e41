//! Single-shot timed events.
//!
//! Scheduling records the event under a fresh identifier and hands the
//! identifier back; cancellation removes a pending event. The surrounding
//! runtime decides when a deadline has passed and feeds the identifier back
//! into the state machine, which alone judges whether the event is still
//! relevant: an identifier whose wait was superseded is silently ignored
//! there, never here.

use vstd::prelude::*;

verus! {

/// Identifies one scheduled event.
pub type EventId = u64;

pub struct Timer<E> {
    next_id: EventId,
    events: Vec<(EventId, i64, E)>,
}

impl<E> Timer<E> {
    /// The identifier the next schedule call will hand out.
    pub closed spec fn next_id_spec(&self) -> EventId {
        self.next_id
    }

    /// The pending events: identifier, deadline and payload of each.
    pub closed spec fn events_spec(&self) -> Seq<(EventId, i64, E)> {
        self.events@
    }

    pub fn new() -> (r: Self)
        ensures
            r.events_spec() == Seq::<(EventId, i64, E)>::empty(),
            r.next_id_spec() == 0,
    {
        let r = Timer { next_id: 0, events: Vec::new() };
        assert(r.events@ =~= Seq::<(EventId, i64, E)>::empty());
        r
    }

    /// Records the event under a fresh identifier and returns it.
    pub fn schedule(&mut self, deadline: i64, event: E) -> (id: EventId)
        requires
            old(self).next_id_spec() < EventId::MAX,
        ensures
            id == old(self).next_id_spec(),
            final(self).next_id_spec() == old(self).next_id_spec() + 1,
            final(self).events_spec() == old(self).events_spec().push((id, deadline, event)),
    {
        let id = self.next_id;
        self.next_id = self.next_id + 1;
        self.events.push((id, deadline, event));
        id
    }

    /// Removes the pending event with this identifier, if any; removing one
    /// that already fired or never existed does nothing.
    pub fn cancel(&mut self, id: EventId)
        where
            E: Copy,
        ensures
            final(self).next_id_spec() == old(self).next_id_spec(),
            final(self).events_spec() == old(self).events_spec().filter(
                |t: (EventId, i64, E)| t.0 != id,
            ),
    {
        let mut kept: Vec<(EventId, i64, E)> = Vec::new();
        let n = self.events.len();
        let mut i: usize = 0;
        while i < n
            invariant
                i <= n,
                n == self.events@.len(),
                kept@ == self.events@.subrange(0, i as int).filter(
                    |t: (EventId, i64, E)| t.0 != id,
                ),
            decreases n - i,
        {
            let ev = self.events[i];
            proof {
                reveal(Seq::filter);
                assert(self.events@.subrange(0, i + 1).drop_last() =~= self.events@.subrange(
                    0,
                    i as int,
                ));
                assert(self.events@.subrange(0, i + 1).last() == self.events@[i as int]);
            }
            if ev.0 != id {
                kept.push(ev);
            }
            i = i + 1;
        }
        proof {
            assert(self.events@.subrange(0, n as int) =~= self.events@);
        }
        self.events = kept;
    }

    /// How many events are pending.
    pub fn num_pending(&self) -> (n: usize)
        ensures
            n == self.events_spec().len(),
    {
        self.events.len()
    }
}

} // verus!
