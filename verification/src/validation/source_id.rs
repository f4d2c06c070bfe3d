//! The source-id validator: it lets in the events of the configured sources.

use vstd::prelude::*;
use std::collections::HashSet;
use crate::config::SourceIdValidationConfig;
use crate::event::{Event, EventValidationError, EventView, RejectionView};
use crate::validation::EventValidator;

verus! {

broadcast use vstd::std_specs::hash::group_hash_axioms;

/// The name under which the source-id validator is configured and logged.
pub const SOURCE_ID_VALIDATOR: &'static str = "SourceIdValidator";

/// Lets in the events whose source id is among the allowed ones, and every
/// event where no id is named.
#[derive(Debug)]
pub struct SourceIdValidator {
    pub allowed_ids: HashSet<u64>,
}

impl SourceIdValidator {
    /// A validator that lets in the source ids of the configuration.
    pub fn new(config: SourceIdValidationConfig) -> (validator: SourceIdValidator)
        ensures
            validator.allowed_ids == config.allowed,
    {
        SourceIdValidator { allowed_ids: config.allowed }
    }
}

impl EventValidator for SourceIdValidator {
    open spec fn refusal(&self, event: EventView) -> Option<RejectionView> {
        if self.allowed_ids@.is_empty() || self.allowed_ids@.contains(event.source_id) {
            None
        } else {
            Some(RejectionView::DisallowedSourceId(event.source_id))
        }
    }

    fn validate(&self, event: &Event) -> (outcome: Result<(), EventValidationError>) {
        if self.allowed_ids.is_empty() || self.allowed_ids.contains(&event.source_id) {
            Ok(())
        } else {
            Err(EventValidationError::DisallowedSourceId(event.source_id))
        }
    }

    fn name(&self) -> (name: &'static str)
        ensures
            name@ == SOURCE_ID_VALIDATOR@,
    {
        SOURCE_ID_VALIDATOR
    }
}

} // verus!
