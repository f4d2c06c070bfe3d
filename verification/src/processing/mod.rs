//! Processing of batches: the per-source aggregate and the processors that
//! fold batches into the store.

use vstd::prelude::*;
use crate::event::{Event, EventView};
use crate::processing::source_telemetry::TelemetryView;
use crate::store::TelemetryStore;

pub mod error;
pub mod source_telemetry;
pub mod storage;

verus! {

/// Why a processor failed on a batch.
#[derive(Debug)]
pub enum ProcessingError {
    EventProcessingError(String),
}

impl ProcessingError {
    /// The error as a line of text.
    pub fn message(&self) -> (text: String)
        ensures
            text@ == "Failed to store event: "@ + self->0@,
    {
        match self {
            ProcessingError::EventProcessingError(details) => {
                "Failed to store event: ".to_owned().concat(details.as_str())
            },
        }
    }
}

/// A processor plugin: it is handed each batch together with the store.
pub trait EventProcessor {
    /// What one call on a batch may do: how the store after the call relates
    /// to the store before it, and what the call returns. A processor that
    /// does not say is free to do anything that leaves the store well formed.
    open spec fn processes(
        &self,
        before: Map<u64, TelemetryView>,
        events: Seq<EventView>,
        after: Map<u64, TelemetryView>,
        outcome: Result<(), ProcessingError>,
    ) -> bool {
        true
    }

    /// Processes a batch.
    fn process_event(&self, store: &mut TelemetryStore, events: &[Event]) -> (outcome: Result<
        (),
        ProcessingError,
    >)
        requires
            old(store).wf(),
        ensures
            final(store).wf(),
            self.processes(
                old(store)@,
                crate::event::views_of(events@),
                final(store)@,
                outcome,
            ),
    ;

    /// The processor's name, for logs and metrics.
    fn name(&self) -> &'static str;
}

} // verus!
