//! The ingestion gateway: the decisions of admission.
//!
//! An event is let in if every validator lets it in. An event that was let in
//! is offered to the bounded queue by the driver. A full queue makes the
//! producer wait, it never makes the event disappear; a closed queue makes
//! the service unavailable.

use vstd::prelude::*;
use crate::event::{Event, EventValidationError, EventView, RejectionView};
use crate::validation::EventValidator;

verus! {

/// What the gateway makes of an event before it reaches the queue.
#[derive(Debug)]
pub enum Admission {
    /// Every validator let the event in: the driver puts it on the queue.
    Enqueue(Event),
    /// A validator refused the event: it never reaches the queue.
    Reject(EventValidationError),
}

/// What the producer of an event is told.
#[derive(Debug)]
pub enum IngestOutcome {
    /// The event is on the queue.
    Accepted,
    /// A validator refused the event.
    Rejected(EventValidationError),
    /// The queue is closed: the service is shutting down.
    Unavailable,
}

/// What the bounded queue answers when an event is offered to it.
#[derive(Clone, Copy, Debug, PartialEq, Eq, Structural)]
pub enum QueueReply {
    /// The queue took the event.
    Taken,
    /// The queue holds as many events as it can.
    Full,
    /// The queue is closed.
    Closed,
}

/// What follows the offer of an event to the queue.
#[derive(Debug)]
pub enum IngestStep {
    /// The producer is told the outcome.
    Done(IngestOutcome),
    /// The producer waits until the queue has room or is closed, and the
    /// event is offered again.
    WaitForRoom,
}

/// The refusal of the first validator in the chain that refuses the event, or
/// nothing where none of them does.
pub open spec fn first_rejection<V: EventValidator>(validators: Seq<V>, event: EventView) -> Option<
    RejectionView,
>
    decreases validators.len(),
{
    if validators.len() == 0 {
        None
    } else {
        match validators.first().refusal(event) {
            Some(reason) => Some(reason),
            None => first_rejection(validators.drop_first(), event),
        }
    }
}

/// Runs the validators against the event in the order of the chain and stops
/// at the first that refuses it.
pub fn validate_event<V: EventValidator>(validators: &[V], event: &Event) -> (outcome: Result<
    (),
    EventValidationError,
>)
    ensures
        match first_rejection(validators@, event@) {
            Some(reason) => outcome matches Err(error) && error@ == reason,
            None => outcome is Ok,
        },
{
    let mut i: usize = 0;
    proof {
        assert(validators@.skip(0) =~= validators@);
    }
    while i < validators.len()
        invariant
            i <= validators.len(),
            first_rejection(validators@, event@) == first_rejection(
                validators@.skip(i as int),
                event@,
            ),
        decreases validators.len() - i,
    {
        proof {
            assert(validators@.skip(i as int).first() == validators@[i as int]);
            assert(validators@.skip(i as int).drop_first() =~= validators@.skip(i as int + 1));
        }
        match validators[i].validate(event) {
            Ok(()) => {},
            Err(error) => {
                return Err(error);
            },
        }
        i += 1;
    }
    Ok(())
}

/// Decides on an event: it is handed back for the queue if every validator
/// lets it in, and refused with the first refusal otherwise.
pub fn ingest<V: EventValidator>(validators: &[V], event: Event) -> (admission: Admission)
    ensures
        match first_rejection(validators@, event@) {
            Some(reason) => admission matches Admission::Reject(error) && error@ == reason,
            None => admission == Admission::Enqueue(event),
        },
{
    match validate_event(validators, &event) {
        Ok(()) => Admission::Enqueue(event),
        Err(error) => Admission::Reject(error),
    }
}

/// Decides what follows the offer of an admitted event to the queue: the
/// event is accepted once the queue has taken it, the producer waits while
/// the queue is full, and the service is unavailable once the queue is closed.
pub fn after_offer(reply: QueueReply) -> (step: IngestStep)
    ensures
        reply == QueueReply::Taken ==> step matches IngestStep::Done(IngestOutcome::Accepted),
        reply == QueueReply::Full ==> step is WaitForRoom,
        reply == QueueReply::Closed ==> step matches IngestStep::Done(IngestOutcome::Unavailable),
{
    match reply {
        QueueReply::Taken => IngestStep::Done(IngestOutcome::Accepted),
        QueueReply::Full => IngestStep::WaitForRoom,
        QueueReply::Closed => IngestStep::Done(IngestOutcome::Unavailable),
    }
}

} // verus!
