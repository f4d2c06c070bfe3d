//! Validation of events at admission.

use vstd::prelude::*;
use crate::event::{Event, EventValidationError, EventView, RejectionView};

pub mod event_type;
pub mod source_id;

verus! {

/// A validator plugin: a rule that an event meets or breaks. The outcome
/// depends on the event and on the validator's configuration, on nothing else.
pub trait EventValidator {
    /// Why the validator refuses the event, or nothing where it lets it in.
    spec fn refusal(&self, event: EventView) -> Option<RejectionView>;

    /// Validates an event.
    fn validate(&self, event: &Event) -> (outcome: Result<(), EventValidationError>)
        ensures
            match self.refusal(event@) {
                Some(reason) => outcome matches Err(error) && error@ == reason,
                None => outcome is Ok,
            },
    ;

    /// The validator's name, for logs.
    fn name(&self) -> &'static str;
}

} // verus!
