//! The metrics that the service emits: their names, and what is told of them
//! to the exporter at startup.

use vstd::prelude::*;

verus! {

/// Requests received, by endpoint.
pub const HTTP_REQUESTS_TOTAL: &'static str = "telemetron_http_requests_total";

/// Time taken by a request, by endpoint and status class.
pub const HTTP_REQUESTS_DURATION_SECONDS: &'static str =
    "telemetron_http_requests_duration_seconds";

/// Events put on the queue.
pub const EVENTS_SENT_TO_CHANNEL_TOTAL: &'static str = "telemetron_events_sent_to_channel_total";

/// Events taken from the queue.
pub const PROCESSOR_RECEIVED_EVENTS_TOTAL: &'static str =
    "telemetron_processor_received_events_total";

/// Batches processed by the plugins.
pub const PROCESSOR_PROCESSED_BATCHES_TOTAL: &'static str =
    "telemetron_processor_processed_batches_total";

/// Events processed by the plugins.
pub const PROCESSOR_PROCESSED_EVENTS_TOTAL: &'static str =
    "telemetron_processor_processed_events_total";

/// Errors of the plugins, before any retry.
pub const PROCESSOR_ERRORS_TOTAL: &'static str = "telemetron_processor_errors_total";

/// Time taken by a plugin on a batch.
pub const PROCESSOR_BATCH_DURATION_SECONDS: &'static str =
    "telemetron_processor_batch_duration_seconds";

/// Batches that were dead-lettered.
pub const DLQ_EVENTS_TOTAL: &'static str = "telemetron_dlq_events_total";

/// Events of the batches that every processor succeeded on.
pub const EVENTS_PROCESSED_TOTAL: &'static str = "telemetron_events_processed_total";

/// Time that a processor took on a batch, by plugin and outcome.
pub const PROCESSOR_PLUGIN_DURATION_SECONDS: &'static str =
    "telemetron_processor_plugin_duration_seconds";

/// Batches that a processor failed on for good, by plugin.
pub const PROCESSOR_PLUGIN_ERRORS_TOTAL: &'static str = "telemetron_processor_plugin_errors_total";

/// Events that updated the aggregate of a known source.
pub const STORAGE_EVENTS_UPDATED_TOTAL: &'static str = "telemetron_storage_events_updated_total";

/// Sources whose aggregate was created.
pub const STORAGE_SOURCES_CREATED_TOTAL: &'static str = "telemetron_storage_sources_created_total";

// What the exporter is told of each described metric.
pub const HTTP_REQUESTS_TOTAL_HELP: &'static str = "Total number of HTTP requests received";

pub const HTTP_REQUESTS_DURATION_SECONDS_HELP: &'static str = "HTTP request latency";

pub const EVENTS_SENT_TO_CHANNEL_TOTAL_HELP: &'static str =
    "Total number of events successfully sent to the processing channel";

pub const PROCESSOR_RECEIVED_EVENTS_TOTAL_HELP: &'static str =
    "Total number of events received from the channel by the processor";

pub const PROCESSOR_PROCESSED_BATCHES_TOTAL_HELP: &'static str =
    "Total number of batches processed by event processor plugins";

pub const PROCESSOR_PROCESSED_EVENTS_TOTAL_HELP: &'static str =
    "Total number of events processed by event processor plugins";

pub const PROCESSOR_ERRORS_TOTAL_HELP: &'static str =
    "Total number of errors encountered during event processing by plugins (before DLQ)";

pub const PROCESSOR_BATCH_DURATION_SECONDS_HELP: &'static str =
    "Duration taken to process a batch of events by a plugin";

pub const DLQ_EVENTS_TOTAL_HELP: &'static str =
    "Total number of events/batches logged to DLQ after retries";

pub const STORAGE_EVENTS_UPDATED_TOTAL_HELP: &'static str =
    "Total number of events that updated existing telemetry in StorageProcessor";

pub const STORAGE_SOURCES_CREATED_TOTAL_HELP: &'static str =
    "Total number of new sources created in StorageProcessor";

/// What kind of metric a name stands for.
#[derive(Clone, Copy, Debug, PartialEq, Eq, Structural)]
pub enum MetricKind {
    Counter,
    Histogram,
}

/// The unit in which a metric is measured.
#[derive(Clone, Copy, Debug, PartialEq, Eq, Structural)]
pub enum MetricUnit {
    Count,
    Seconds,
}

/// What the exporter is told of one metric.
#[derive(Clone, Copy, Debug)]
pub struct MetricDescription {
    pub name: &'static str,
    pub kind: MetricKind,
    pub unit: MetricUnit,
    pub description: &'static str,
}

/// A counter of things.
pub open spec fn counter(name: &'static str, description: &'static str) -> MetricDescription {
    MetricDescription { name, kind: MetricKind::Counter, unit: MetricUnit::Count, description }
}

/// A histogram of durations in seconds.
pub open spec fn histogram(name: &'static str, description: &'static str) -> MetricDescription {
    MetricDescription { name, kind: MetricKind::Histogram, unit: MetricUnit::Seconds, description }
}

/// The metrics that are described to the exporter, in the order of their
/// description.
pub open spec fn described_metrics() -> Seq<MetricDescription> {
    seq![
        counter(HTTP_REQUESTS_TOTAL, HTTP_REQUESTS_TOTAL_HELP),
        histogram(HTTP_REQUESTS_DURATION_SECONDS, HTTP_REQUESTS_DURATION_SECONDS_HELP),
        counter(EVENTS_SENT_TO_CHANNEL_TOTAL, EVENTS_SENT_TO_CHANNEL_TOTAL_HELP),
        counter(PROCESSOR_RECEIVED_EVENTS_TOTAL, PROCESSOR_RECEIVED_EVENTS_TOTAL_HELP),
        counter(PROCESSOR_PROCESSED_BATCHES_TOTAL, PROCESSOR_PROCESSED_BATCHES_TOTAL_HELP),
        counter(PROCESSOR_PROCESSED_EVENTS_TOTAL, PROCESSOR_PROCESSED_EVENTS_TOTAL_HELP),
        counter(PROCESSOR_ERRORS_TOTAL, PROCESSOR_ERRORS_TOTAL_HELP),
        histogram(PROCESSOR_BATCH_DURATION_SECONDS, PROCESSOR_BATCH_DURATION_SECONDS_HELP),
        counter(DLQ_EVENTS_TOTAL, DLQ_EVENTS_TOTAL_HELP),
        counter(STORAGE_EVENTS_UPDATED_TOTAL, STORAGE_EVENTS_UPDATED_TOTAL_HELP),
        counter(STORAGE_SOURCES_CREATED_TOTAL, STORAGE_SOURCES_CREATED_TOTAL_HELP),
    ]
}

/// The description of a counter.
fn counter_of(name: &'static str, description: &'static str) -> (metric: MetricDescription)
    ensures
        metric == counter(name, description),
{
    MetricDescription { name, kind: MetricKind::Counter, unit: MetricUnit::Count, description }
}

/// The description of a histogram.
fn histogram_of(name: &'static str, description: &'static str) -> (metric: MetricDescription)
    ensures
        metric == histogram(name, description),
{
    MetricDescription { name, kind: MetricKind::Histogram, unit: MetricUnit::Seconds, description }
}

/// The descriptions to hand to the exporter, once, at startup.
pub fn describe_metrics() -> (table: Vec<MetricDescription>)
    ensures
        table@ == described_metrics(),
{
    let mut table: Vec<MetricDescription> = Vec::new();
    table.push(counter_of(HTTP_REQUESTS_TOTAL, HTTP_REQUESTS_TOTAL_HELP));
    table.push(histogram_of(HTTP_REQUESTS_DURATION_SECONDS, HTTP_REQUESTS_DURATION_SECONDS_HELP));
    table.push(counter_of(EVENTS_SENT_TO_CHANNEL_TOTAL, EVENTS_SENT_TO_CHANNEL_TOTAL_HELP));
    table.push(counter_of(PROCESSOR_RECEIVED_EVENTS_TOTAL, PROCESSOR_RECEIVED_EVENTS_TOTAL_HELP));
    table.push(
        counter_of(PROCESSOR_PROCESSED_BATCHES_TOTAL, PROCESSOR_PROCESSED_BATCHES_TOTAL_HELP),
    );
    table.push(counter_of(PROCESSOR_PROCESSED_EVENTS_TOTAL, PROCESSOR_PROCESSED_EVENTS_TOTAL_HELP));
    table.push(counter_of(PROCESSOR_ERRORS_TOTAL, PROCESSOR_ERRORS_TOTAL_HELP));
    table.push(
        histogram_of(PROCESSOR_BATCH_DURATION_SECONDS, PROCESSOR_BATCH_DURATION_SECONDS_HELP),
    );
    table.push(counter_of(DLQ_EVENTS_TOTAL, DLQ_EVENTS_TOTAL_HELP));
    table.push(counter_of(STORAGE_EVENTS_UPDATED_TOTAL, STORAGE_EVENTS_UPDATED_TOTAL_HELP));
    table.push(counter_of(STORAGE_SOURCES_CREATED_TOTAL, STORAGE_SOURCES_CREATED_TOTAL_HELP));
    proof {
        assert(table@ =~= described_metrics());
    }
    table
}

} // verus!
