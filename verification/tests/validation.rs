use std::collections::HashSet;

use chrono::Utc;
use telemetron::config::{EventTypeValidationConfig, SourceIdValidationConfig};
use telemetron::event::{Event, EventType, EventValidationError, Timestamp};
use telemetron::validation::event_type::EventTypeValidator;
use telemetron::validation::source_id::SourceIdValidator;
use telemetron::validation::EventValidator;

fn timestamp_now() -> Timestamp {
    let instant = Utc::now();
    Timestamp::new(instant.timestamp(), instant.timestamp_subsec_nanos())
}

/// Creates a new event for testing purposes.
fn make_event(source_id: u64, event_type: EventType) -> Event {
    Event { source_id, event_type, timestamp: timestamp_now(), data: None }
}

fn get_allowed_ids() -> HashSet<u64> {
    vec![1, 2, 3].into_iter().collect()
}

#[test]
fn test_validates_allowed_event_type() {
    let allowed = vec![EventType::Heartbeat, EventType::Custom("Test".to_string())];
    let config = EventTypeValidationConfig { allowed };
    let validator = EventTypeValidator::new(config);
    let event = Event {
        source_id: 1,
        event_type: EventType::Heartbeat,
        timestamp: timestamp_now(),
        data: None,
    };

    assert!(validator.validate(&event).is_ok());
}

#[test]
fn test_validates_disallowed_event_type() {
    let allowed = vec![EventType::Custom("Test".to_string())];
    let config = EventTypeValidationConfig { allowed };
    let validator = EventTypeValidator::new(config);
    let event = Event {
        source_id: 1,
        event_type: EventType::Heartbeat,
        timestamp: timestamp_now(),
        data: None,
    };

    assert!(validator.validate(&event).is_err());
}

#[test]
fn test_validates_empty_allowed_event_types() {
    let allowed = Vec::new();
    let config = EventTypeValidationConfig { allowed };
    let validator = EventTypeValidator::new(config);
    let event = Event {
        source_id: 1,
        event_type: EventType::Heartbeat,
        timestamp: timestamp_now(),
        data: None,
    };

    assert!(validator.validate(&event).is_ok());
}

#[test]
fn test_validates_allowed_source_id() {
    let validator = SourceIdValidator::new(SourceIdValidationConfig { allowed: get_allowed_ids() });

    let event = make_event(1, EventType::Heartbeat);
    assert!(validator.validate(&event).is_ok());
}

#[test]
fn test_validates_disallowed_source_id() {
    let validator = SourceIdValidator::new(SourceIdValidationConfig { allowed: get_allowed_ids() });

    let event = make_event(4, EventType::Heartbeat);
    assert!(validator.validate(&event).is_err());
}

#[test]
fn test_validates_empty_allowed_source_ids() {
    let validator = SourceIdValidator::new(SourceIdValidationConfig { allowed: HashSet::new() });

    let event = make_event(4, EventType::Heartbeat);
    assert!(validator.validate(&event).is_ok());
}

#[test]
fn refusal_carries_the_offending_source_id() {
    let validator = SourceIdValidator::new(SourceIdValidationConfig { allowed: get_allowed_ids() });
    match validator.validate(&make_event(42, EventType::Heartbeat)) {
        Err(EventValidationError::DisallowedSourceId(id)) => assert_eq!(id, 42),
        outcome => panic!("wrong outcome: {:?}", outcome),
    }
}

#[test]
fn refusal_carries_the_offending_event_type() {
    let validator = EventTypeValidator::new(EventTypeValidationConfig {
        allowed: vec![EventType::Heartbeat],
    });
    match validator.validate(&make_event(1, EventType::Custom("Heartbeat".to_string()))) {
        Err(EventValidationError::DisallowedEventType(event_type)) => {
            assert_eq!(event_type, EventType::Custom("Heartbeat".to_string()))
        }
        outcome => panic!("wrong outcome: {:?}", outcome),
    }
    assert!(validator.validate(&make_event(1, EventType::Custom("Test".to_string()))).is_err());
}

#[test]
fn validator_names() {
    let ids = SourceIdValidator::new(SourceIdValidationConfig { allowed: HashSet::new() });
    let types = EventTypeValidator::new(EventTypeValidationConfig { allowed: Vec::new() });
    assert_eq!(ids.name(), "SourceIdValidator");
    assert_eq!(types.name(), "EventTypeValidator");
}
