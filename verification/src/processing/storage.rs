//! The storage processor: it folds every event of a batch into the store.

use vstd::prelude::*;
use crate::config::NoParamsValidationConfig;
use crate::event::{views_of, Event, EventView};
use crate::processing::source_telemetry::TelemetryView;
use crate::processing::{EventProcessor, ProcessingError};
use crate::store::{apply_events, lemma_apply_event_total, total_events_of, TelemetryStore};

verus! {

/// The name under which the storage processor is configured and logged.
pub const STORAGE_PROCESSOR: &'static str = "StorageProcessor";

/// What the storage processor reports where the store cannot count another event.
pub const STORE_FULL: &'static str = "the store cannot count another event";

/// How many more events a store can count.
pub open spec fn room(store: Map<u64, TelemetryView>) -> int {
    u64::MAX - total_events_of(store)
}

/// Folds batches into the telemetry store.
#[derive(Debug, Default)]
pub struct StorageProcessor;

impl StorageProcessor {
    /// The storage processor. It takes no parameters.
    pub fn new(_config: NoParamsValidationConfig) -> (processor: StorageProcessor)
        ensures
            processor == StorageProcessor,
    {
        StorageProcessor
    }
}

impl EventProcessor for StorageProcessor {
    /// Every event of the batch is folded into the aggregate of its source, in
    /// the order of the batch, and the call succeeds. Only where the store
    /// cannot count that many more events does the call fail, after folding in
    /// as many of the batch's first events as the store can count.
    open spec fn processes(
        &self,
        before: Map<u64, TelemetryView>,
        events: Seq<EventView>,
        after: Map<u64, TelemetryView>,
        outcome: Result<(), ProcessingError>,
    ) -> bool {
        if events.len() <= room(before) {
            outcome is Ok && after == apply_events(before, events)
        } else {
            &&& outcome matches Err(ProcessingError::EventProcessingError(details))
            &&& details@ == STORE_FULL@
            &&& after == apply_events(before, events.take(room(before)))
        }
    }

    fn process_event(&self, store: &mut TelemetryStore, events: &[Event]) -> (outcome: Result<
        (),
        ProcessingError,
    >) {
        let ghost before = store@;
        let ghost all = views_of(events@);
        proof {
            store.lemma_wf();
            assert(all.take(0) =~= Seq::<EventView>::empty());
        }
        let mut i: usize = 0;
        while i < events.len()
            invariant
                i <= events.len(),
                all == views_of(events@),
                before == old(store)@,
                store.wf(),
                store@ == apply_events(before, all.take(i as int)),
                total_events_of(store@) == total_events_of(before) + i,
                total_events_of(before) <= u64::MAX,
            decreases events.len() - i,
        {
            let event = &events[i];
            let ghost so_far = store@;
            proof {
                store.lemma_wf();
                lemma_apply_event_total(so_far, event.source_id, event@);
                assert(all.take(i as int + 1).drop_last() =~= all.take(i as int));
                assert(all.take(i as int + 1).last() == event@);
            }
            match store.update(event.source_id, event) {
                Ok(()) => {},
                Err(_) => {
                    proof {
                        assert(all.len() == events.len());
                        assert(i == room(before));
                    }
                    return Err(
                        ProcessingError::EventProcessingError(
                            STORE_FULL.to_owned(),
                        ),
                    );
                },
            }
            i += 1;
        }
        proof {
            store.lemma_wf();
            assert(all.len() == events.len());
            assert(all.take(i as int) =~= all);
        }
        Ok(())
    }

    fn name(&self) -> (name: &'static str)
        ensures
            name@ == STORAGE_PROCESSOR@,
    {
        STORAGE_PROCESSOR
    }
}

} // verus!
