//! The running aggregate of one source: how many events it sent, when the
//! first and the last of them happened, and how many there were of each type.

use vstd::prelude::*;
use crate::event::{Event, EventType, EventTypeView, EventView, Timestamp};
use crate::sums::{lemma_map_sum_bounds, lemma_map_sum_empty, lemma_map_sum_insert, map_sum};

verus! {

/// The mathematical value of an aggregate.
pub struct TelemetryView {
    pub total_events: nat,
    pub first_timestamp: Timestamp,
    pub last_timestamp: Timestamp,
    pub events_by_type: Map<EventTypeView, nat>,
}

impl TelemetryView {
    /// An aggregate of at least one event: the counts by type are positive and
    /// sum to the total, and the first instant is not after the last.
    pub open spec fn wf(self) -> bool {
        &&& self.events_by_type.dom().finite()
        &&& forall|k: EventTypeView| #[trigger]
            self.events_by_type.contains_key(k) ==> self.events_by_type[k] >= 1
        &&& self.total_events == map_sum(self.events_by_type)
        &&& self.total_events >= 1
        &&& self.first_timestamp.at_or_before(self.last_timestamp)
    }

    /// How many events of one type were folded in.
    pub open spec fn count_of(self, event_type: EventTypeView) -> nat {
        if self.events_by_type.contains_key(event_type) {
            self.events_by_type[event_type]
        } else {
            0
        }
    }

    /// The aggregate of a single event.
    pub open spec fn seeded(event: EventView) -> TelemetryView {
        TelemetryView {
            total_events: 1,
            first_timestamp: event.timestamp,
            last_timestamp: event.timestamp,
            events_by_type: Map::empty().insert(event.event_type, 1nat),
        }
    }

    /// The aggregate with one more event folded in: the total and the count of
    /// the event's type grow by one, the first instant moves back to the
    /// event's if that is earlier, the last instant forward if it is later.
    pub open spec fn absorb(self, event: EventView) -> TelemetryView {
        TelemetryView {
            total_events: self.total_events + 1,
            first_timestamp: self.first_timestamp.earlier(event.timestamp),
            last_timestamp: self.last_timestamp.later(event.timestamp),
            events_by_type: self.events_by_type.insert(
                event.event_type,
                self.count_of(event.event_type) + 1,
            ),
        }
    }
}

/// The aggregate of a single event is well formed.
pub proof fn lemma_seeded_wf(event: EventView)
    ensures
        TelemetryView::seeded(event).wf(),
{
    lemma_map_sum_empty::<EventTypeView>();
    lemma_map_sum_insert(Map::<EventTypeView, nat>::empty(), event.event_type, 1);
}

/// Folding an event in keeps an aggregate well formed: the counts still sum to
/// the total, and the first instant is still not after the last.
pub proof fn lemma_absorb_wf(record: TelemetryView, event: EventView)
    requires
        record.wf(),
    ensures
        record.absorb(event).wf(),
{
    lemma_map_sum_insert(
        record.events_by_type,
        event.event_type,
        record.count_of(event.event_type) + 1,
    );
}

/// Two events fold into an aggregate to the same result in either order.
pub proof fn lemma_absorb_commutes(record: TelemetryView, a: EventView, b: EventView)
    ensures
        record.absorb(a).absorb(b) == record.absorb(b).absorb(a),
{
    let ab = record.absorb(a).absorb(b);
    let ba = record.absorb(b).absorb(a);
    assert(ab.events_by_type =~= ba.events_by_type);
}

/// An aggregate that starts from one event and takes in a second is the same
/// whichever of the two came first.
pub proof fn lemma_seed_commutes(a: EventView, b: EventView)
    ensures
        TelemetryView::seeded(a).absorb(b) == TelemetryView::seeded(b).absorb(a),
{
    let ab = TelemetryView::seeded(a).absorb(b);
    let ba = TelemetryView::seeded(b).absorb(a);
    assert(ab.events_by_type =~= ba.events_by_type);
}

/// The counts that a list of entries stands for.
pub open spec fn tally(entries: Seq<(EventType, u64)>) -> Map<EventTypeView, nat>
    decreases entries.len(),
{
    if entries.len() == 0 {
        Map::empty()
    } else {
        tally(entries.drop_last()).insert(entries.last().0@, entries.last().1 as nat)
    }
}

/// No event type has two entries.
pub open spec fn distinct_types(entries: Seq<(EventType, u64)>) -> bool {
    forall|i: int, j: int|
        0 <= i < j < entries.len() ==> (#[trigger] entries[i]).0@ != (#[trigger] entries[j]).0@
}

/// With one entry per type, the counts are those of the entries and of
/// nothing else.
pub proof fn lemma_tally(entries: Seq<(EventType, u64)>)
    requires
        distinct_types(entries),
    ensures
        tally(entries).dom().finite(),
        forall|i: int|
            0 <= i < entries.len() ==> tally(entries).contains_key((#[trigger] entries[i]).0@)
                && tally(entries)[entries[i].0@] == entries[i].1,
        forall|k: EventTypeView| #[trigger]
            tally(entries).contains_key(k) ==> exists|i: int|
                0 <= i < entries.len() && (#[trigger] entries[i]).0@ == k,
    decreases entries.len(),
{
    if entries.len() > 0 {
        let front = entries.drop_last();
        assert forall|i: int, j: int| 0 <= i < j < front.len() implies (#[trigger] front[i]).0@ != (
        #[trigger] front[j]).0@ by {
            assert(front[i] == entries[i] && front[j] == entries[j]);
        }
        lemma_tally(front);
        assert forall|i: int| 0 <= i < entries.len() implies tally(entries).contains_key(
            (#[trigger] entries[i]).0@,
        ) && tally(entries)[entries[i].0@] == entries[i].1 by {
            if i < entries.len() - 1 {
                assert(front[i] == entries[i]);
                assert(entries[i].0@ != entries[entries.len() - 1].0@);
            }
        }
        assert forall|k: EventTypeView| #[trigger] tally(entries).contains_key(k) implies exists|
            i: int,
        |
            0 <= i < entries.len() && (#[trigger] entries[i]).0@ == k by {
            if k == entries.last().0@ {
                assert(entries[entries.len() - 1].0@ == k);
            } else {
                let i = choose|i: int| 0 <= i < front.len() && (#[trigger] front[i]).0@ == k;
                assert(entries[i].0@ == k);
            }
        }
    }
}

/// The running aggregate of one source.
#[derive(Debug)]
pub struct SourceTelemetry {
    pub total_events: u64,
    pub first_timestamp: Timestamp,
    pub last_timestamp: Timestamp,
    /// One entry for each event type seen, with the number of its events.
    pub events_by_type: Vec<(EventType, u64)>,
}

impl View for SourceTelemetry {
    type V = TelemetryView;

    open spec fn view(&self) -> TelemetryView {
        TelemetryView {
            total_events: self.total_events as nat,
            first_timestamp: self.first_timestamp,
            last_timestamp: self.last_timestamp,
            events_by_type: tally(self.events_by_type@),
        }
    }
}

impl Clone for SourceTelemetry {
    /// A copy with the same counters, instants and entries.
    fn clone(&self) -> (copy: SourceTelemetry)
        ensures
            copy.total_events == self.total_events,
            copy.first_timestamp == self.first_timestamp,
            copy.last_timestamp == self.last_timestamp,
            copy.events_by_type@ == self.events_by_type@,
            copy@ == self@,
            copy.wf() == self.wf(),
    {
        let mut entries: Vec<(EventType, u64)> = Vec::new();
        let mut i: usize = 0;
        while i < self.events_by_type.len()
            invariant
                i <= self.events_by_type.len(),
                entries@ == self.events_by_type@.take(i as int),
            decreases self.events_by_type.len() - i,
        {
            entries.push((self.events_by_type[i].0.clone(), self.events_by_type[i].1));
            proof {
                assert(self.events_by_type@.take(i as int).push(self.events_by_type@[i as int])
                    =~= self.events_by_type@.take(i as int + 1));
            }
            i += 1;
        }
        proof {
            assert(self.events_by_type@.take(i as int) =~= self.events_by_type@);
        }
        SourceTelemetry {
            total_events: self.total_events,
            first_timestamp: self.first_timestamp,
            last_timestamp: self.last_timestamp,
            events_by_type: entries,
        }
    }
}

/// The place of an event type among the entries.
fn position_of(entries: &Vec<(EventType, u64)>, event_type: &EventType) -> (found: Option<usize>)
    ensures
        match found {
            Some(i) => i < entries.len() && entries[i as int].0@ == event_type@,
            None => forall|j: int| 0 <= j < entries.len() ==> entries[j].0@ != event_type@,
        },
{
    let mut i: usize = 0;
    while i < entries.len()
        invariant
            i <= entries.len(),
            forall|j: int| 0 <= j < i ==> entries[j].0@ != event_type@,
        decreases entries.len() - i,
    {
        if entries[i].0 == *event_type {
            return Some(i);
        }
        i += 1;
    }
    None
}

impl SourceTelemetry {
    /// Every event type has one entry, and the aggregate is well formed.
    pub open spec fn wf(&self) -> bool {
        distinct_types(self.events_by_type@) && self@.wf()
    }

    /// The aggregate of a source's first event.
    pub fn new(event: &Event) -> (record: SourceTelemetry)
        ensures
            record.wf(),
            record@ == TelemetryView::seeded(event@),
    {
        let mut events_by_type: Vec<(EventType, u64)> = Vec::new();
        events_by_type.push((event.event_type.clone(), 1));
        proof {
            let none = Seq::<(EventType, u64)>::empty();
            assert(events_by_type@.drop_last() =~= none);
            assert(tally(none) == Map::<EventTypeView, nat>::empty());
            assert(tally(events_by_type@) == tally(none).insert(event.event_type@, 1nat));
            lemma_seeded_wf(event@);
        }
        SourceTelemetry {
            total_events: 1,
            first_timestamp: event.timestamp,
            last_timestamp: event.timestamp,
            events_by_type,
        }
    }

    /// Folds one more event of the source into the aggregate.
    pub fn update(&mut self, event: &Event)
        requires
            old(self).wf(),
            old(self).total_events < u64::MAX,
        ensures
            final(self).wf(),
            final(self)@ == old(self)@.absorb(event@),
    {
        let ghost before = self.events_by_type@;
        let ghost key = event.event_type@;
        proof {
            lemma_tally(before);
            lemma_absorb_wf(self@, event@);
        }
        self.total_events = self.total_events + 1;
        self.first_timestamp = self.first_timestamp.min(event.timestamp);
        self.last_timestamp = self.last_timestamp.max(event.timestamp);
        match position_of(&self.events_by_type, &event.event_type) {
            Some(i) => {
                proof {
                    lemma_map_sum_bounds(tally(before), key);
                }
                let count = self.events_by_type[i].1;
                let entry = (event.event_type.clone(), count + 1);
                self.events_by_type.set(i, entry);
                proof {
                    let after = self.events_by_type@;
                    assert forall|a: int, b: int| 0 <= a < b < after.len() implies (
                    #[trigger] after[a]).0@ != (#[trigger] after[b]).0@ by {
                        assert(after[a].0@ == before[a].0@ && after[b].0@ == before[b].0@);
                    }
                    lemma_tally(after);
                    assert forall|k: EventTypeView|
                        tally(after).contains_key(k) <==> tally(before).insert(
                            key,
                            (count + 1) as nat,
                        ).contains_key(k) by {
                        if tally(after).contains_key(k) {
                            let j = choose|j: int| 0 <= j < after.len() && (#[trigger] after[j]).0@ == k;
                            assert(before[j].0@ == k);
                        }
                        if tally(before).contains_key(k) {
                            let j = choose|j: int| 0 <= j < before.len() && (#[trigger] before[j]).0@ == k;
                            assert(after[j].0@ == k);
                        }
                    }
                    assert forall|k: EventTypeView| tally(after).contains_key(k) implies tally(
                        after,
                    )[k] == tally(before).insert(key, (count + 1) as nat)[k] by {
                        let j = choose|j: int| 0 <= j < after.len() && (#[trigger] after[j]).0@ == k;
                        if j != i {
                            assert(after[j] == before[j]);
                        }
                    }
                    assert(tally(after) =~= tally(before).insert(key, (count + 1) as nat));
                }
            },
            None => {
                self.events_by_type.push((event.event_type.clone(), 1));
                proof {
                    let after = self.events_by_type@;
                    assert(after.drop_last() =~= before);
                    assert(!tally(before).contains_key(key)) by {
                        if tally(before).contains_key(key) {
                            let j = choose|j: int| 0 <= j < before.len() && (#[trigger] before[j]).0@ == key;
                        }
                    }
                    assert forall|a: int, b: int| 0 <= a < b < after.len() implies (
                    #[trigger] after[a]).0@ != (#[trigger] after[b]).0@ by {
                        assert(after[a] == before[a]);
                        if b < before.len() {
                            assert(after[b] == before[b]);
                        }
                    }
                }
            },
        }
    }
}

} // verus!
