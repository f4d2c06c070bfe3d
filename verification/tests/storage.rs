use chrono::Utc;
use telemetron::config::NoParamsValidationConfig;
use telemetron::event::{Event, EventType, Timestamp};
use telemetron::processing::source_telemetry::SourceTelemetry;
use telemetron::processing::storage::{StorageProcessor, STORE_FULL};
use telemetron::processing::{EventProcessor, ProcessingError};
use telemetron::store::{GlobalSummary, TelemetryStore};

/// Creates a new telemetry store for testing purposes.
fn create_map() -> TelemetryStore {
    TelemetryStore::new()
}

fn now() -> Timestamp {
    let instant = Utc::now();
    Timestamp::new(instant.timestamp(), instant.timestamp_subsec_nanos())
}

/// Creates a new event for testing purposes.
fn create_event(source_id: u64, event_type: EventType) -> Event {
    Event { source_id, event_type, timestamp: now(), data: None }
}

fn event_at(source_id: u64, event_type: EventType, secs: i64, nanos: u32) -> Event {
    Event { source_id, event_type, timestamp: Timestamp::new(secs, nanos), data: None }
}

fn custom(label: &str) -> EventType {
    EventType::Custom(label.to_string())
}

fn count_of(store: &TelemetryStore, source_id: u64, event_type: &EventType) -> u64 {
    let record = store.get(source_id).expect("Telemetry entry should exist");
    let mut count = 0;
    for entry in record.events_by_type.iter() {
        if entry.0 == *event_type {
            count += entry.1;
        }
    }
    count
}

#[test]
fn test_empty_batch() {
    let processor = StorageProcessor::new(NoParamsValidationConfig::default());
    let mut telemetry_map = create_map();
    let events: Vec<Event> = vec![];

    // Process an empty batch of events
    let result = processor.process_event(&mut telemetry_map, &events);

    assert!(result.is_ok());
    assert!(telemetry_map.is_empty());
}

#[test]
fn test_single_event() {
    let processor = StorageProcessor::new(NoParamsValidationConfig::default());
    let mut telemetry_map = create_map();
    let events = vec![create_event(1, EventType::Heartbeat)];

    // Process a single event
    let result = processor.process_event(&mut telemetry_map, &events);

    assert!(result.is_ok());
    assert_eq!(telemetry_map.len(), 1);
    assert!(telemetry_map.contains_key(&1));
}

#[test]
fn test_multiple_events() {
    let processor = StorageProcessor::new(NoParamsValidationConfig::default());
    let mut telemetry_map = create_map();
    let events = vec![
        create_event(1, EventType::Heartbeat),
        create_event(2, EventType::Custom("CustomEvent".to_string())),
        create_event(1, EventType::Heartbeat),
    ];

    // Process multiple events
    let result = processor.process_event(&mut telemetry_map, &events);

    assert!(result.is_ok());
    assert_eq!(telemetry_map.len(), 2);
    assert!(telemetry_map.contains_key(&1));
    assert!(telemetry_map.contains_key(&2));
}

#[test]
fn test_update_same_source_id() {
    let processor = StorageProcessor::new(NoParamsValidationConfig::default());
    let mut telemetry_map = create_map();
    let events = vec![
        create_event(1, EventType::Heartbeat),
        create_event(1, EventType::Custom("CustomEvent".to_string())),
    ];

    // Process events that update the same source_id
    let result = processor.process_event(&mut telemetry_map, &events);

    assert!(result.is_ok());
    assert_eq!(telemetry_map.len(), 1);
    assert!(telemetry_map.contains_key(&1));

    let entry = telemetry_map.get(1);

    assert!(entry.is_some());

    match entry {
        Some(telemetry) => {
            assert_eq!(telemetry.total_events, 2);
            assert_eq!(telemetry.events_by_type.len(), 2);
            assert_eq!(telemetry.last_timestamp, events[1].timestamp);
        }
        None => panic!("Telemetry entry should exist"),
    }
}

#[test]
fn fresh_store_is_empty() {
    let store = TelemetryStore::new();
    assert_eq!(store.len(), 0);
    assert!(store.is_empty());
    assert!(!store.contains_key(&1));
    assert!(store.get(1).is_none());
    assert_eq!(store.global_summary(), GlobalSummary { sources_count: 0, events_count: 0 });
}

#[test]
fn first_event_seeds_the_record() {
    let mut store = TelemetryStore::new();
    let event = event_at(7, EventType::Heartbeat, 100, 5);
    assert!(store.update(7, &event).is_ok());

    let record = store.get(7).expect("Telemetry entry should exist");
    assert_eq!(record.total_events, 1);
    assert_eq!(record.first_timestamp, Timestamp::new(100, 5));
    assert_eq!(record.last_timestamp, Timestamp::new(100, 5));
    assert_eq!(record.events_by_type.len(), 1);
    assert_eq!(record.events_by_type[0].0, EventType::Heartbeat);
    assert_eq!(record.events_by_type[0].1, 1);
    assert!(store.contains_key(&7));
    assert!(!store.contains_key(&8));
    assert_eq!(store.len(), 1);
    assert!(!store.is_empty());
}

#[test]
fn later_events_accumulate() {
    let mut store = TelemetryStore::new();
    assert!(store.update(1, &event_at(1, EventType::Heartbeat, 50, 0)).is_ok());
    assert!(store.update(1, &event_at(1, custom("Boot"), 20, 900)).is_ok());
    assert!(store.update(1, &event_at(1, EventType::Heartbeat, 70, 1)).is_ok());
    assert!(store.update(1, &event_at(1, EventType::Heartbeat, 60, 0)).is_ok());

    let record = store.get(1).expect("Telemetry entry should exist");
    assert_eq!(record.total_events, 4);
    assert_eq!(record.first_timestamp, Timestamp::new(20, 900));
    assert_eq!(record.last_timestamp, Timestamp::new(70, 1));
    assert_eq!(count_of(&store, 1, &EventType::Heartbeat), 3);
    assert_eq!(count_of(&store, 1, &custom("Boot")), 1);
    assert_eq!(count_of(&store, 1, &custom("Other")), 0);
}

#[test]
fn two_updates_raise_the_total_by_two() {
    let mut store = TelemetryStore::new();
    assert!(store.update(3, &event_at(3, EventType::Heartbeat, 10, 0)).is_ok());
    let before = store.get(3).expect("Telemetry entry should exist").total_events;

    let duplicate = event_at(3, custom("Tick"), 11, 0);
    assert!(store.update(3, &duplicate).is_ok());
    assert!(store.update(3, &duplicate).is_ok());

    let record = store.get(3).expect("Telemetry entry should exist");
    assert_eq!(record.total_events, before + 2);
    let sum: u64 = record.events_by_type.iter().map(|entry| entry.1).sum();
    assert_eq!(sum, record.total_events);
    assert_eq!(count_of(&store, 3, &custom("Tick")), 2);
}

#[test]
fn first_instant_is_never_after_the_last() {
    let mut store = TelemetryStore::new();
    let instants = [(30, 0), (10, 5), (10, 4), (99, 0), (-5, 7), (98, 999)];
    for (secs, nanos) in instants {
        assert!(store.update(1, &event_at(1, EventType::Heartbeat, secs, nanos)).is_ok());
        let record = store.get(1).expect("Telemetry entry should exist");
        assert!(record.first_timestamp.le(&record.last_timestamp));
    }
    let record = store.get(1).expect("Telemetry entry should exist");
    assert_eq!(record.first_timestamp, Timestamp::new(-5, 7));
    assert_eq!(record.last_timestamp, Timestamp::new(99, 0));
}

#[test]
fn order_of_events_does_not_matter() {
    let batch = |order: &[usize]| -> Vec<Event> {
        let events = [
            (1u64, EventType::Heartbeat, 5i64),
            (1, custom("A"), 3),
            (2, custom("A"), 4),
            (1, EventType::Heartbeat, 9),
            (2, EventType::Heartbeat, 1),
        ];
        order
            .iter()
            .map(|i| event_at(events[*i].0, events[*i].1.clone(), events[*i].2, 0))
            .collect()
    };
    let processor = StorageProcessor::new(NoParamsValidationConfig::default());

    let mut one = TelemetryStore::new();
    assert!(processor.process_event(&mut one, &batch(&[0, 1, 2, 3, 4])).is_ok());
    let mut other = TelemetryStore::new();
    assert!(processor.process_event(&mut other, &batch(&[4, 3, 2, 1, 0])).is_ok());

    assert_eq!(one.global_summary(), other.global_summary());
    for source_id in [1u64, 2] {
        let a = one.get(source_id).expect("Telemetry entry should exist");
        let b = other.get(source_id).expect("Telemetry entry should exist");
        assert_eq!(a.total_events, b.total_events);
        assert_eq!(a.first_timestamp, b.first_timestamp);
        assert_eq!(a.last_timestamp, b.last_timestamp);
        assert_eq!(a.events_by_type.len(), b.events_by_type.len());
        for event_type in [EventType::Heartbeat, custom("A")] {
            assert_eq!(count_of(&one, source_id, &event_type), count_of(&other, source_id, &event_type));
        }
    }
    let record = one.get(1).expect("Telemetry entry should exist");
    assert_eq!(record.total_events, 3);
    assert_eq!(record.first_timestamp, Timestamp::new(3, 0));
    assert_eq!(record.last_timestamp, Timestamp::new(9, 0));
}

#[test]
fn global_summary_counts_sources_and_events() {
    let mut store = TelemetryStore::new();
    for source_id in [1u64, 2, 2, 3, 3, 3] {
        assert!(store.update(source_id, &create_event(source_id, EventType::Heartbeat)).is_ok());
    }
    assert_eq!(store.global_summary(), GlobalSummary { sources_count: 3, events_count: 6 });
    assert_eq!(store.len(), 3);
}

#[test]
fn update_files_under_the_given_source_id() {
    let mut store = TelemetryStore::new();
    assert!(store.update(10, &create_event(99, EventType::Heartbeat)).is_ok());
    assert!(store.contains_key(&10));
    assert!(!store.contains_key(&99));
}

#[test]
fn a_snapshot_does_not_follow_later_updates() {
    let mut store = TelemetryStore::new();
    assert!(store.update(1, &create_event(1, EventType::Heartbeat)).is_ok());
    let snapshot = store.get(1).expect("Telemetry entry should exist");
    assert!(store.update(1, &create_event(1, EventType::Heartbeat)).is_ok());
    assert_eq!(snapshot.total_events, 1);
    assert_eq!(store.get(1).expect("Telemetry entry should exist").total_events, 2);
}

#[test]
fn storage_processor_name() {
    let processor = StorageProcessor::new(NoParamsValidationConfig::default());
    assert_eq!(processor.name(), "StorageProcessor");
    assert_eq!(STORE_FULL, "the store cannot count another event");
}

#[test]
fn processing_error_messages() {
    let error = ProcessingError::EventProcessingError("disk".to_string());
    assert_eq!(error.message(), "Failed to store event: disk");
    let error = telemetron::processing::error::ProcessingError::new(
        "StorageProcessor",
        "DB write failed".to_string(),
        Some("timeout".to_string()),
    );
    assert_eq!(error.plugin_name, "StorageProcessor");
    assert_eq!(error.details, "DB write failed");
    assert_eq!(error.source, Some("timeout".to_string()));
    assert_eq!(error.message(), "Processing error in plugin StorageProcessor: DB write failed");
}

#[test]
fn per_source_summary_tells_when_a_source_is_unknown() {
    let mut store = TelemetryStore::new();
    assert!(store.update(4, &event_at(4, EventType::Heartbeat, 8, 0)).is_ok());

    let summary = store.per_source_summary(4).expect("the source has sent an event");
    assert_eq!(summary.total_events, 1);
    assert_eq!(summary.first_timestamp, Timestamp::new(8, 0));

    match store.per_source_summary(5) {
        Err(telemetron::error::Error::NotFound(text)) => assert_eq!(text, "Source id 5 not found"),
        outcome => panic!("another outcome: {:?}", outcome),
    }
}

#[test]
fn a_record_grows_event_by_event() {
    let mut record = SourceTelemetry::new(&event_at(1, custom("A"), 5, 0));
    assert_eq!(record.total_events, 1);
    assert_eq!(record.events_by_type, vec![(custom("A"), 1)]);

    record.update(&event_at(1, custom("B"), 4, 0));
    record.update(&event_at(1, custom("A"), 6, 0));
    assert_eq!(record.total_events, 3);
    assert_eq!(record.first_timestamp, Timestamp::new(4, 0));
    assert_eq!(record.last_timestamp, Timestamp::new(6, 0));
    assert_eq!(record.events_by_type, vec![(custom("A"), 2), (custom("B"), 1)]);

    let copy = record.clone();
    record.update(&event_at(1, custom("A"), 7, 0));
    assert_eq!(copy.total_events, 3);
    assert_eq!(copy.events_by_type, vec![(custom("A"), 2), (custom("B"), 1)]);
    assert_eq!(copy.last_timestamp, Timestamp::new(6, 0));
}
