//! The event-type validator: it lets in the events of the configured types.

use vstd::prelude::*;
use crate::config::EventTypeValidationConfig;
use crate::event::{Event, EventType, EventValidationError, EventView, RejectionView};
use crate::params::type_views;
use crate::validation::EventValidator;

verus! {

/// The name under which the event-type validator is configured and logged.
pub const EVENT_TYPE_VALIDATOR: &'static str = "EventTypeValidator";

/// Lets in the events whose type is among the allowed ones, and every event
/// where no type is named.
#[derive(Debug)]
pub struct EventTypeValidator {
    pub allowed_types: Vec<EventType>,
}

impl EventTypeValidator {
    /// A validator that lets in the event types of the configuration.
    pub fn new(config: EventTypeValidationConfig) -> (validator: EventTypeValidator)
        ensures
            validator.allowed_types == config.allowed,
    {
        EventTypeValidator { allowed_types: config.allowed }
    }

    /// The event type is among the allowed ones.
    fn allows(&self, event_type: &EventType) -> (found: bool)
        ensures
            found == type_views(self.allowed_types@).contains(event_type@),
    {
        let mut i: usize = 0;
        while i < self.allowed_types.len()
            invariant
                i <= self.allowed_types.len(),
                forall|j: int| 0 <= j < i ==> self.allowed_types[j]@ != event_type@,
            decreases self.allowed_types.len() - i,
        {
            if self.allowed_types[i] == *event_type {
                proof {
                    assert(type_views(self.allowed_types@)[i as int] == event_type@);
                }
                return true;
            }
            i += 1;
        }
        false
    }
}

impl EventValidator for EventTypeValidator {
    open spec fn refusal(&self, event: EventView) -> Option<RejectionView> {
        if self.allowed_types@.len() == 0 || type_views(self.allowed_types@).contains(
            event.event_type,
        ) {
            None
        } else {
            Some(RejectionView::DisallowedEventType(event.event_type))
        }
    }

    fn validate(&self, event: &Event) -> (outcome: Result<(), EventValidationError>) {
        if self.allowed_types.len() == 0 || self.allows(&event.event_type) {
            Ok(())
        } else {
            Err(EventValidationError::DisallowedEventType(event.event_type.clone()))
        }
    }

    fn name(&self) -> (name: &'static str)
        ensures
            name@ == EVENT_TYPE_VALIDATOR@,
    {
        EVENT_TYPE_VALIDATOR
    }
}

} // verus!
