//! The telemetry store: one aggregate for each source that has sent an event.

use vstd::prelude::*;
use dashmap::DashMap;
use crate::error::{Error, ErrorView};
use crate::event::{Event, EventTypeView, EventView};
use crate::text::decimal;
use crate::processing::source_telemetry::{
    lemma_absorb_commutes, lemma_absorb_wf, lemma_seed_commutes, lemma_seeded_wf, SourceTelemetry,
    TelemetryView,
};
use crate::sums::{lemma_map_sum_bounds, lemma_map_sum_empty, lemma_map_sum_insert, map_sum};

verus! {

/// The concurrent hash map of the `dashmap` crate. Its contents are known to
/// the verifier only through `records_of`.
#[verifier::external_type_specification]
#[verifier::external_body]
#[verifier::reject_recursive_types(K)]
#[verifier::reject_recursive_types(V)]
#[verifier::reject_recursive_types(S)]
pub struct ExDashMap<K, V, S>(DashMap<K, V, S>);

/// The aggregates that a map holds, by source id.
pub uninterp spec fn records_of(map: DashMap<u64, SourceTelemetry>) -> Map<u64, SourceTelemetry>;

/// `DashMap::new`: the new map has no key.
#[verifier::external_body]
fn records_new() -> (map: DashMap<u64, SourceTelemetry>)
    ensures
        records_of(map).dom() == Set::<u64>::empty(),
{
    DashMap::new()
}

/// `DashMap::len`: the number of keys in the map.
#[verifier::external_body]
fn records_len(map: &DashMap<u64, SourceTelemetry>) -> (count: usize)
    ensures
        count == records_of(*map).dom().len(),
{
    map.len()
}

/// `DashMap::contains_key`: whether the map has the key.
#[verifier::external_body]
fn records_contains(map: &DashMap<u64, SourceTelemetry>, source_id: u64) -> (present: bool)
    ensures
        present == records_of(*map).contains_key(source_id),
{
    map.contains_key(&source_id)
}

/// `DashMap::get`, with the aggregate that was found copied by
/// `SourceTelemetry::clone`: a copy of the aggregate under the key, or nothing
/// where the map has no such key.
#[verifier::external_body]
fn records_get(map: &DashMap<u64, SourceTelemetry>, source_id: u64) -> (found: Option<
    SourceTelemetry,
>)
    ensures
        match found {
            Some(copy) => records_of(*map).contains_key(source_id) && copy@ == records_of(
                *map,
            )[source_id]@ && copy.wf() == records_of(*map)[source_id].wf(),
            None => !records_of(*map).contains_key(source_id),
        },
{
    map.get(&source_id).map(|entry| entry.value().clone())
}

/// `DashMap::remove`: the key leaves the map, and the aggregate that was under
/// it, if there was one, is handed out.
#[verifier::external_body]
fn records_remove(map: &mut DashMap<u64, SourceTelemetry>, source_id: u64) -> (removed: Option<
    SourceTelemetry,
>)
    ensures
        records_of(*final(map)) == records_of(*old(map)).remove(source_id),
        removed == (if records_of(*old(map)).contains_key(source_id) {
            Some(records_of(*old(map))[source_id])
        } else {
            None
        }),
{
    map.remove(&source_id).map(|entry| entry.1)
}

/// `DashMap::insert`: the map holds the aggregate under the key, in place of
/// any that was there; other keys are untouched.
#[verifier::external_body]
fn records_insert(map: &mut DashMap<u64, SourceTelemetry>, source_id: u64, record: SourceTelemetry)
    ensures
        records_of(*final(map)) == records_of(*old(map)).insert(source_id, record),
{
    map.insert(source_id, record);
}

/// The total number of events of each source.
pub open spec fn totals(store: Map<u64, TelemetryView>) -> Map<u64, nat> {
    store.map_values(|record: TelemetryView| record.total_events)
}

/// The number of events folded into a store, over all sources.
pub open spec fn total_events_of(store: Map<u64, TelemetryView>) -> nat {
    map_sum(totals(store))
}

/// A store of finitely many sources, each with a well-formed aggregate.
pub open spec fn store_wf(store: Map<u64, TelemetryView>) -> bool {
    &&& store.dom().finite()
    &&& forall|id: u64| #[trigger] store.contains_key(id) ==> store[id].wf()
}

/// The store after one event was folded in under a source id: the source's
/// aggregate takes the event in, or, where the source had none, starts from it.
pub open spec fn apply_event(store: Map<u64, TelemetryView>, source_id: u64, event: EventView) -> Map<
    u64,
    TelemetryView,
> {
    if store.contains_key(source_id) {
        store.insert(source_id, store[source_id].absorb(event))
    } else {
        store.insert(source_id, TelemetryView::seeded(event))
    }
}

/// The store after a run of events was folded in, each under its own source id.
pub open spec fn apply_events(store: Map<u64, TelemetryView>, events: Seq<EventView>) -> Map<
    u64,
    TelemetryView,
>
    decreases events.len(),
{
    if events.len() == 0 {
        store
    } else {
        apply_event(apply_events(store, events.drop_last()), events.last().source_id, events.last())
    }
}

/// Folding an event in keeps a store well formed. In the aggregate that took
/// the event, the first instant is not after the last.
pub proof fn lemma_apply_event_wf(store: Map<u64, TelemetryView>, source_id: u64, event: EventView)
    requires
        store_wf(store),
    ensures
        store_wf(apply_event(store, source_id, event)),
        apply_event(store, source_id, event).contains_key(source_id),
        apply_event(store, source_id, event)[source_id].first_timestamp.at_or_before(
            apply_event(store, source_id, event)[source_id].last_timestamp,
        ),
{
    if store.contains_key(source_id) {
        lemma_absorb_wf(store[source_id], event);
    } else {
        lemma_seeded_wf(event);
    }
}

/// After any run of events, in whatever order their instants arrive, every
/// aggregate is well formed: its first instant is not after its last, and its
/// counts by type sum to its total.
pub proof fn lemma_apply_events_wf(store: Map<u64, TelemetryView>, events: Seq<EventView>)
    requires
        store_wf(store),
    ensures
        store_wf(apply_events(store, events)),
        forall|id: u64| #[trigger]
            apply_events(store, events).contains_key(id) ==> {
                let record = apply_events(store, events)[id];
                &&& record.first_timestamp.at_or_before(record.last_timestamp)
                &&& map_sum(record.events_by_type) == record.total_events
            },
    decreases events.len(),
{
    if events.len() > 0 {
        lemma_apply_events_wf(store, events.drop_last());
        lemma_apply_event_wf(
            apply_events(store, events.drop_last()),
            events.last().source_id,
            events.last(),
        );
    }
}

/// Each event folded in raises the number of events in the store by one.
pub proof fn lemma_apply_event_total(
    store: Map<u64, TelemetryView>,
    source_id: u64,
    event: EventView,
)
    requires
        store_wf(store),
    ensures
        total_events_of(apply_event(store, source_id, event)) == total_events_of(store) + 1,
{
    let after = apply_event(store, source_id, event);
    assert(totals(store).dom() =~= store.dom());
    assert(totals(after) =~= totals(store).insert(source_id, after[source_id].total_events));
    lemma_map_sum_insert(totals(store), source_id, after[source_id].total_events);
}

/// Two events folded in under one source id raise the total of that source by
/// exactly two, and its counts by type still sum to its total.
pub proof fn lemma_two_updates(
    store: Map<u64, TelemetryView>,
    source_id: u64,
    first: EventView,
    second: EventView,
)
    requires
        store_wf(store),
    ensures
        ({
            let after = apply_event(apply_event(store, source_id, first), source_id, second);
            let total_before: nat = if store.contains_key(source_id) {
                store[source_id].total_events
            } else {
                0
            };
            &&& after.contains_key(source_id)
            &&& after[source_id].total_events == total_before + 2
            &&& map_sum(after[source_id].events_by_type) == after[source_id].total_events
        }),
{
    lemma_apply_event_wf(store, source_id, first);
    lemma_apply_event_wf(apply_event(store, source_id, first), source_id, second);
}

/// The number of events of a source in a run of events.
pub open spec fn events_from(events: Seq<EventView>, source_id: u64) -> nat
    decreases events.len(),
{
    if events.len() == 0 {
        0
    } else {
        events_from(events.drop_last(), source_id) + if events.last().source_id == source_id {
            1nat
        } else {
            0nat
        }
    }
}

/// The number of events of a source and of a type in a run of events.
pub open spec fn events_of_type(
    events: Seq<EventView>,
    source_id: u64,
    event_type: EventTypeView,
) -> nat
    decreases events.len(),
{
    if events.len() == 0 {
        0
    } else {
        events_of_type(events.drop_last(), source_id, event_type) + if events.last().source_id
            == source_id && events.last().event_type == event_type {
            1nat
        } else {
            0nat
        }
    }
}

/// A store that started empty has an aggregate for exactly the sources that
/// sent an event. The total of an aggregate is the number of events of its
/// source, and its count of a type is the number of these events that are of
/// that type.
pub proof fn lemma_aggregates_count_events(events: Seq<EventView>)
    ensures
        forall|id: u64|
            (#[trigger] apply_events(Map::empty(), events).contains_key(id)) <==> events_from(
                events,
                id,
            ) > 0,
        forall|id: u64| #[trigger]
            apply_events(Map::empty(), events).contains_key(id) ==> apply_events(
                Map::empty(),
                events,
            )[id].total_events == events_from(events, id),
        forall|id: u64, event_type: EventTypeView|
            apply_events(Map::empty(), events).contains_key(id) ==> (#[trigger] apply_events(
                Map::empty(),
                events,
            )[id].count_of(event_type)) == events_of_type(events, id, event_type),
    decreases events.len(),
{
    if events.len() > 0 {
        let front = events.drop_last();
        let last = events.last();
        let before = apply_events(Map::empty(), front);
        let after = apply_events(Map::empty(), events);
        lemma_aggregates_count_events(front);
        assert forall|id: u64, event_type: EventTypeView| after.contains_key(id) implies (
        #[trigger] after[id].count_of(event_type)) == events_of_type(events, id, event_type) by {
            if before.contains_key(id) {
                assert(before[id].count_of(event_type) == events_of_type(front, id, event_type));
            } else {
                lemma_no_events_of_type(front, id, event_type);
            }
        }
    }
}

/// A source without events has no events of any type.
proof fn lemma_no_events_of_type(events: Seq<EventView>, source_id: u64, event_type: EventTypeView)
    requires
        events_from(events, source_id) == 0,
    ensures
        events_of_type(events, source_id, event_type) == 0,
    decreases events.len(),
{
    if events.len() > 0 {
        lemma_no_events_of_type(events.drop_last(), source_id, event_type);
    }
}

/// In a store that started empty, the first and the last instant of every
/// aggregate lie within the instants of the events of its source: no event of
/// the source is earlier than the first or later than the last, and each of
/// the two is the instant of one of these events.
pub proof fn lemma_instants_within_events(events: Seq<EventView>)
    ensures
        forall|i: int|
            0 <= i < events.len() ==> {
                let record = apply_events(Map::empty(), events)[(#[trigger] events[i]).source_id];
                &&& apply_events(Map::empty(), events).contains_key(events[i].source_id)
                &&& record.first_timestamp.at_or_before(events[i].timestamp)
                &&& events[i].timestamp.at_or_before(record.last_timestamp)
            },
        forall|id: u64| #[trigger]
            apply_events(Map::empty(), events).contains_key(id) ==> {
                let record = apply_events(Map::empty(), events)[id];
                &&& exists|i: int|
                    0 <= i < events.len() && (#[trigger] events[i]).source_id == id
                        && events[i].timestamp == record.first_timestamp
                &&& exists|j: int|
                    0 <= j < events.len() && (#[trigger] events[j]).source_id == id
                        && events[j].timestamp == record.last_timestamp
            },
    decreases events.len(),
{
    if events.len() > 0 {
        let front = events.drop_last();
        let last = events.last();
        let before = apply_events(Map::empty(), front);
        let after = apply_events(Map::empty(), events);
        lemma_instants_within_events(front);
        assert forall|i: int| 0 <= i < events.len() implies {
            let record = after[(#[trigger] events[i]).source_id];
            &&& after.contains_key(events[i].source_id)
            &&& record.first_timestamp.at_or_before(events[i].timestamp)
            &&& events[i].timestamp.at_or_before(record.last_timestamp)
        } by {
            if i < front.len() {
                assert(front[i] == events[i]);
            }
        }
        assert forall|id: u64| #[trigger] after.contains_key(id) implies {
            let record = after[id];
            &&& exists|i: int|
                0 <= i < events.len() && (#[trigger] events[i]).source_id == id
                    && events[i].timestamp == record.first_timestamp
            &&& exists|j: int|
                0 <= j < events.len() && (#[trigger] events[j]).source_id == id
                    && events[j].timestamp == record.last_timestamp
        } by {
            let record = after[id];
            let end = events.len() - 1;
            if before.contains_key(id) {
                let i = choose|i: int|
                    0 <= i < front.len() && (#[trigger] front[i]).source_id == id
                        && front[i].timestamp == before[id].first_timestamp;
                let j = choose|j: int|
                    0 <= j < front.len() && (#[trigger] front[j]).source_id == id
                        && front[j].timestamp == before[id].last_timestamp;
                assert(events[i] == front[i] && events[j] == front[j]);
                if record.first_timestamp != before[id].first_timestamp {
                    assert(events[end].source_id == id && events[end].timestamp
                        == record.first_timestamp);
                }
                if record.last_timestamp != before[id].last_timestamp {
                    assert(events[end].source_id == id && events[end].timestamp
                        == record.last_timestamp);
                }
            } else {
                assert(events[end].source_id == id && events[end].timestamp
                    == record.first_timestamp);
                assert(events[end].timestamp == record.last_timestamp);
            }
        }
    }
}

/// Two events fold into a store to the same result in either order.
pub proof fn lemma_apply_event_commutes(store: Map<u64, TelemetryView>, a: EventView, b: EventView)
    ensures
        apply_event(apply_event(store, a.source_id, a), b.source_id, b) == apply_event(
            apply_event(store, b.source_id, b),
            a.source_id,
            a,
        ),
{
    if a.source_id == b.source_id {
        if store.contains_key(a.source_id) {
            lemma_absorb_commutes(store[a.source_id], a, b);
        } else {
            lemma_seed_commutes(a, b);
        }
    }
}

/// An event of a run may as well be folded in last.
proof fn lemma_fold_last(store: Map<u64, TelemetryView>, events: Seq<EventView>, i: int)
    requires
        0 <= i < events.len(),
    ensures
        apply_events(store, events) == apply_event(
            apply_events(store, events.remove(i)),
            events[i].source_id,
            events[i],
        ),
    decreases events.len(),
{
    if i < events.len() - 1 {
        let front = events.drop_last();
        lemma_fold_last(store, front, i);
        let rest = apply_events(store, front.remove(i));
        lemma_apply_event_commutes(rest, events[i], events.last());
        assert(events.remove(i).drop_last() =~= front.remove(i));
    }
}

/// The same events, folded into a store in two different orders, give the
/// same store: every source ends with the identical aggregate.
pub proof fn lemma_order_irrelevant(
    store: Map<u64, TelemetryView>,
    one_order: Seq<EventView>,
    other_order: Seq<EventView>,
)
    requires
        one_order.to_multiset() =~= other_order.to_multiset(),
    ensures
        apply_events(store, one_order) == apply_events(store, other_order),
    decreases one_order.len(),
{
    one_order.to_multiset_ensures();
    other_order.to_multiset_ensures();
    if one_order.len() > 0 {
        let last = one_order.last();
        let front = one_order.drop_last();
        front.to_multiset_ensures();
        assert(other_order.to_multiset().count(last) > 0);
        let i = choose|i: int| 0 <= i < other_order.len() && other_order[i] == last;
        let others = other_order.remove(i);
        assert(front.to_multiset() =~= one_order.to_multiset().remove(last)) by {
            assert(front =~= one_order.remove(one_order.len() - 1));
        }
        lemma_order_irrelevant(store, front, others);
        lemma_fold_last(store, other_order, i);
    }
}

/// Sources and events in a store, over all sources.
#[derive(Clone, Copy, Debug, PartialEq, Eq, Structural)]
pub struct GlobalSummary {
    pub sources_count: u64,
    pub events_count: u64,
}

/// Why an event was not folded in: the store has counted as many events as its
/// counter can hold.
#[derive(Clone, Copy, Debug, PartialEq, Eq, Structural)]
pub struct StoreFull;

/// The aggregates of all sources.
pub struct TelemetryStore {
    records: DashMap<u64, SourceTelemetry>,
    events_count: u64,
}

impl View for TelemetryStore {
    type V = Map<u64, TelemetryView>;

    closed spec fn view(&self) -> Map<u64, TelemetryView> {
        records_of(self.records).map_values(|record: SourceTelemetry| record@)
    }
}

impl TelemetryStore {
    /// The store holds finitely many aggregates, each of them well formed, and
    /// has counted the events of all of them.
    pub closed spec fn wf(&self) -> bool {
        &&& records_of(self.records).dom().finite()
        &&& forall|id: u64| #[trigger]
            records_of(self.records).contains_key(id) ==> records_of(self.records)[id].wf()
        &&& self.events_count == total_events_of(self@)
    }

    /// What well-formedness means for the store's value: finitely many sources,
    /// well-formed aggregates, and a number of events that a counter can hold.
    pub proof fn lemma_wf(&self)
        requires
            self.wf(),
        ensures
            store_wf(self@),
            total_events_of(self@) <= u64::MAX,
    {
        assert(self@.dom() =~= records_of(self.records).dom());
    }

    /// A store without sources.
    pub fn new() -> (store: TelemetryStore)
        ensures
            store.wf(),
            store@ == Map::<u64, TelemetryView>::empty(),
    {
        let store = TelemetryStore { records: records_new(), events_count: 0 };
        proof {
            lemma_map_sum_empty::<u64>();
        }
        store
    }

    /// Folds an event into the aggregate of a source, creating the aggregate if
    /// the source has none. The event is refused, and the store left as it is,
    /// only where the store has counted `u64::MAX` events.
    pub fn update(&mut self, source_id: u64, event: &Event) -> (outcome: Result<(), StoreFull>)
        requires
            old(self).wf(),
        ensures
            final(self).wf(),
            outcome is Ok <==> total_events_of(old(self)@) < u64::MAX,
            outcome is Ok ==> final(self)@ == apply_event(old(self)@, source_id, event@),
            outcome is Err ==> final(self)@ == old(self)@,
    {
        if self.events_count == u64::MAX {
            return Err(StoreFull);
        }
        let ghost before = records_of(self.records);
        let ghost before_view = self@;
        proof {
            assert(totals(before_view).dom() =~= before.dom());
            if before.contains_key(source_id) {
                lemma_map_sum_bounds(totals(before_view), source_id);
            }
        }
        let record = match records_remove(&mut self.records, source_id) {
            Some(mut record) => {
                record.update(event);
                record
            },
            None => SourceTelemetry::new(event),
        };
        let ghost after_record = record;
        records_insert(&mut self.records, source_id, record);
        self.events_count = self.events_count + 1;
        proof {
            assert(totals(self@) =~= totals(before_view).insert(
                source_id,
                after_record@.total_events,
            ));
            lemma_map_sum_insert(totals(before_view), source_id, after_record@.total_events);
        }
        Ok(())
    }

    /// The aggregate of a source, as a copy, if the source has sent an event.
    pub fn get(&self, source_id: u64) -> (found: Option<SourceTelemetry>)
        requires
            self.wf(),
        ensures
            match found {
                Some(record) => self@.contains_key(source_id) && record@ == self@[source_id]
                    && record.wf(),
                None => !self@.contains_key(source_id),
            },
    {
        records_get(&self.records, source_id)
    }

    /// The aggregate of a source, as a copy, or the error that tells the
    /// caller that the source has never sent an event.
    pub fn per_source_summary(&self, source_id: u64) -> (summary: Result<SourceTelemetry, Error>)
        requires
            self.wf(),
        ensures
            match summary {
                Ok(record) => self@.contains_key(source_id) && record@ == self@[source_id]
                    && record.wf(),
                Err(error) => !self@.contains_key(source_id) && error@ == ErrorView::NotFound(
                    "Source id "@ + decimal(source_id as nat) + " not found"@,
                ),
            },
    {
        match self.get(source_id) {
            Some(record) => Ok(record),
            None => Err(Error::source_not_found(source_id)),
        }
    }

    /// Whether a source has sent an event.
    pub fn contains_key(&self, source_id: &u64) -> (present: bool)
        ensures
            present == self@.contains_key(*source_id),
    {
        records_contains(&self.records, *source_id)
    }

    /// The number of sources.
    pub fn len(&self) -> (count: usize)
        ensures
            count == self@.dom().len(),
    {
        proof {
            assert(self@.dom() =~= records_of(self.records).dom());
        }
        records_len(&self.records)
    }

    /// No source has sent an event.
    pub fn is_empty(&self) -> (empty: bool)
        requires
            self.wf(),
        ensures
            empty == (self@ == Map::<u64, TelemetryView>::empty()),
    {
        proof {
            self.lemma_wf();
            if self@.dom().len() == 0 {
                assert(self@ =~= Map::<u64, TelemetryView>::empty());
            }
        }
        self.len() == 0
    }

    /// The number of sources and the number of events over all of them.
    pub fn global_summary(&self) -> (summary: GlobalSummary)
        requires
            self.wf(),
        ensures
            summary.sources_count == self@.dom().len(),
            summary.events_count == total_events_of(self@),
    {
        GlobalSummary { sources_count: self.len() as u64, events_count: self.events_count }
    }
}

} // verus!
