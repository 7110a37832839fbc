//! An append-only event store scoped by plugin kind, with a time-ranged,
//! kind-filtered read. It stands in for the shared document database: one
//! durable append per ingest, and a streaming find whose compound filter is
//! the conjunction of a time-range check and a plugin-kind check.

use vstd::prelude::*;

use crate::events::{Event, PluginKind, TimeRange};

verus! {

/// The compound query filter: the event carries the queried plugin kind and
/// its instant falls inside the queried range.
pub open spec fn event_matches(e: Event, kind: PluginKind, range: TimeRange) -> bool {
    e.plugin == kind && range.spec_contains(e.timing)
}

/// The events of `s` that pass the filter, in store order.
pub open spec fn matching_events(s: Seq<Event>, kind: PluginKind, range: TimeRange) -> Seq<Event>
    decreases s.len(),
{
    if s.len() == 0 {
        Seq::empty()
    } else {
        let rest = matching_events(s.drop_last(), kind, range);
        if event_matches(s.last(), kind, range) {
            rest.push(s.last())
        } else {
            rest
        }
    }
}

/// A store where nothing matches the filter reads back empty.
pub proof fn lemma_matching_events_none(s: Seq<Event>, kind: PluginKind, range: TimeRange)
    requires
        forall|i: int| 0 <= i < s.len() ==> !event_matches(#[trigger] s[i], kind, range),
    ensures
        matching_events(s, kind, range) == Seq::<Event>::empty(),
    decreases s.len(),
{
    if s.len() > 0 {
        lemma_matching_events_none(s.drop_last(), kind, range);
    }
}

/// Appending one event extends the filtered view by that event exactly when
/// the event passes the filter.
pub proof fn lemma_matching_events_push(s: Seq<Event>, e: Event, kind: PluginKind, range: TimeRange)
    ensures
        matching_events(s.push(e), kind, range) == if event_matches(e, kind, range) {
            matching_events(s, kind, range).push(e)
        } else {
            matching_events(s, kind, range)
        },
{
    assert(s.push(e).drop_last() =~= s);
    assert(s.push(e).last() == e);
}

/// The append-only store of timeline events.
pub struct EventStore {
    events: Vec<Event>,
}

impl EventStore {
    /// Everything the store holds, in insertion order.
    pub closed spec fn events(&self) -> Seq<Event> {
        self.events@
    }

    /// An empty store.
    pub fn new() -> (s: EventStore)
        ensures
            s.events() == Seq::<Event>::empty(),
    {
        let s = EventStore { events: Vec::new() };
        proof {
            assert(s.events() =~= Seq::<Event>::empty());
        }
        s
    }

    /// The single-event durable write: appends the event, touching nothing
    /// else.
    pub fn register_single_event(&mut self, event: &Event)
        ensures
            final(self).events() == old(self).events().push(*event),
    {
        self.events.push(event.duplicate());
    }

    /// The streaming find under the compound filter: every stored event of
    /// the given kind whose instant lies in the range, in store order.
    pub fn find(&self, kind: PluginKind, range: &TimeRange) -> (r: Vec<Event>)
        ensures
            r@ == matching_events(self.events(), kind, *range),
    {
        let mut r: Vec<Event> = Vec::new();
        let n = self.events.len();
        proof {
            assert(self.events@.take(0) =~= Seq::<Event>::empty());
            assert(r@ =~= matching_events(self.events@.take(0), kind, *range));
        }
        let mut i: usize = 0;
        while i < n
            invariant
                i <= n,
                n == self.events@.len(),
                r@ == matching_events(self.events@.take(i as int), kind, *range),
            decreases n - i,
        {
            let e = &self.events[i];
            proof {
                assert(self.events@.take(i as int + 1).drop_last() =~= self.events@.take(i as int));
                assert(self.events@.take(i as int + 1).last() == self.events@[i as int]);
            }
            if e.plugin == kind && range.contains(&e.timing) {
                r.push(e.duplicate());
            }
            i += 1;
        }
        proof {
            assert(self.events@.take(n as int) =~= self.events@);
        }
        r
    }
}

} // verus!
