use std::collections::HashSet;

use telemetron::config::{EventTypeValidationConfig, SourceIdValidationConfig};
use telemetron::error::Error;
use telemetron::event::{Event, EventType, EventValidationError, Timestamp};
use telemetron::gateway::{
    after_offer, ingest, validate_event, Admission, IngestOutcome, IngestStep, QueueReply,
};
use telemetron::metrics::{describe_metrics, MetricKind, MetricUnit};
use telemetron::plugins::ValidatorPlugin;
use telemetron::validation::event_type::EventTypeValidator;
use telemetron::validation::source_id::SourceIdValidator;

fn event_of(source_id: u64, event_type: EventType) -> Event {
    Event { source_id, event_type, timestamp: Timestamp::new(0, 0), data: None }
}

fn ids(allowed: &[u64]) -> ValidatorPlugin {
    let allowed: HashSet<u64> = allowed.iter().copied().collect();
    ValidatorPlugin::SourceId(SourceIdValidator::new(SourceIdValidationConfig { allowed }))
}

fn types(allowed: Vec<EventType>) -> ValidatorPlugin {
    ValidatorPlugin::EventType(EventTypeValidator::new(EventTypeValidationConfig { allowed }))
}

#[test]
fn an_event_passes_where_every_validator_lets_it_in() {
    let chain = vec![types(vec![EventType::Heartbeat]), ids(&[1, 2])];
    assert!(validate_event(&chain, &event_of(1, EventType::Heartbeat)).is_ok());
    assert!(validate_event(&chain, &event_of(2, EventType::Heartbeat)).is_ok());
    let none: Vec<ValidatorPlugin> = Vec::new();
    assert!(validate_event(&none, &event_of(9, EventType::Custom("X".to_string()))).is_ok());
}

#[test]
fn the_first_refusal_in_the_chain_decides() {
    let event = event_of(3, EventType::Custom("Boot".to_string()));
    let types_first = vec![types(vec![EventType::Heartbeat]), ids(&[1, 2])];
    match validate_event(&types_first, &event) {
        Err(EventValidationError::DisallowedEventType(event_type)) => {
            assert_eq!(event_type, EventType::Custom("Boot".to_string()))
        }
        outcome => panic!("another outcome: {:?}", outcome),
    }
    let ids_first = vec![ids(&[1, 2]), types(vec![EventType::Heartbeat])];
    match validate_event(&ids_first, &event) {
        Err(EventValidationError::DisallowedSourceId(id)) => assert_eq!(id, 3),
        outcome => panic!("another outcome: {:?}", outcome),
    }
    let second_refuses = vec![ids(&[3]), types(vec![EventType::Heartbeat])];
    assert!(matches!(
        validate_event(&second_refuses, &event),
        Err(EventValidationError::DisallowedEventType(_))
    ));
}

#[test]
fn an_admitted_event_is_handed_back_for_the_queue() {
    let chain = vec![ids(&[1, 2])];
    match ingest(&chain, event_of(2, EventType::Heartbeat)) {
        Admission::Enqueue(event) => {
            assert_eq!(event.source_id, 2);
            assert_eq!(event.event_type, EventType::Heartbeat);
            assert_eq!(event.timestamp, Timestamp::new(0, 0));
        }
        Admission::Reject(error) => panic!("refused: {:?}", error),
    }
    match ingest(&chain, event_of(3, EventType::Heartbeat)) {
        Admission::Reject(EventValidationError::DisallowedSourceId(id)) => assert_eq!(id, 3),
        admission => panic!("another admission: {:?}", admission),
    }
}

#[test]
fn a_full_queue_makes_the_producer_wait() {
    assert!(matches!(after_offer(QueueReply::Taken), IngestStep::Done(IngestOutcome::Accepted)));
    assert!(matches!(after_offer(QueueReply::Full), IngestStep::WaitForRoom));
    assert!(matches!(after_offer(QueueReply::Closed), IngestStep::Done(IngestOutcome::Unavailable)));
}

#[test]
fn an_empty_custom_type_never_reaches_the_gateway() {
    // The type of an event is parsed before there is an event to admit.
    assert!(EventType::from_str("").is_err());
}

#[test]
fn what_the_caller_is_told_of_an_error() {
    let refused = Error::InvalidEvent(EventValidationError::DisallowedSourceId(3));
    assert_eq!(refused.response_parts(), (400, "Disallowed source_id: 3".to_string()));
    let missing = Error::source_not_found(17);
    assert_eq!(missing.response_parts(), (404, "Source id 17 not found".to_string()));
    assert_eq!(
        Error::NotFound("nothing here".to_string()).response_parts(),
        (404, "nothing here".to_string())
    );
    for hidden in [
        Error::Io("disk gone".to_string()),
        Error::Server("bind failed".to_string()),
        Error::Internal("Failed to send event to channel".to_string()),
    ] {
        assert_eq!(hidden.response_parts(), (500, "Internal server error".to_string()));
    }
}

#[test]
fn the_described_metrics() {
    let table = describe_metrics();
    assert_eq!(table.len(), 11);
    assert_eq!(table[0].name, "telemetron_http_requests_total");
    assert_eq!(table[0].kind, MetricKind::Counter);
    assert_eq!(table[0].unit, MetricUnit::Count);
    assert_eq!(table[0].description, "Total number of HTTP requests received");
    assert_eq!(table[1].name, "telemetron_http_requests_duration_seconds");
    assert_eq!(table[1].kind, MetricKind::Histogram);
    assert_eq!(table[1].unit, MetricUnit::Seconds);
    assert_eq!(table[1].description, "HTTP request latency");
    let histograms: Vec<&str> = table
        .iter()
        .filter(|metric| metric.kind == MetricKind::Histogram)
        .map(|metric| metric.name)
        .collect();
    assert_eq!(
        histograms,
        vec!["telemetron_http_requests_duration_seconds", "telemetron_processor_batch_duration_seconds"]
    );
    let names: Vec<&str> = table.iter().map(|metric| metric.name).collect();
    assert_eq!(
        names,
        vec![
            "telemetron_http_requests_total",
            "telemetron_http_requests_duration_seconds",
            "telemetron_events_sent_to_channel_total",
            "telemetron_processor_received_events_total",
            "telemetron_processor_processed_batches_total",
            "telemetron_processor_processed_events_total",
            "telemetron_processor_errors_total",
            "telemetron_processor_batch_duration_seconds",
            "telemetron_dlq_events_total",
            "telemetron_storage_events_updated_total",
            "telemetron_storage_sources_created_total",
        ]
    );
    assert_eq!(table[10].description, "Total number of new sources created in StorageProcessor");
}
