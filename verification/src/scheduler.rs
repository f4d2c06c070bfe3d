//! The batch scheduler: it turns the ordered stream of admitted events into
//! batches, closing a batch when it is full or when its timer fires.
//!
//! The scheduler is a state machine without a clock. Its driver hands it each
//! event as it arrives, arms a timer when told to, reports when that timer
//! fires, and closes it when the stream ends.

use vstd::prelude::*;
use crate::event::Event;

verus! {

/// What a driver tells the scheduler while the stream is open.
pub enum SchedulerInput {
    /// The next event of the stream.
    Arrived(Event),
    /// The batch timeout has passed since the timer was armed.
    TimerFired,
}

/// The state of a scheduler: the configured batch size and the events that
/// wait for their batch to close, oldest first.
pub struct SchedulerView {
    pub batch_size: nat,
    pub pending: Seq<Event>,
}

impl SchedulerView {
    /// A scheduler at rest: nothing buffered.
    pub open spec fn idle(batch_size: nat) -> SchedulerView {
        SchedulerView { batch_size, pending: Seq::empty() }
    }

    /// The batch size is positive and the buffer is short of a full batch.
    pub open spec fn wf(self) -> bool {
        self.batch_size > 0 && self.pending.len() < self.batch_size
    }

    /// An event arrives: it joins the buffer, and the buffer leaves as a batch
    /// once it holds a full batch.
    pub open spec fn arrive(self, event: Event) -> (SchedulerView, Option<Seq<Event>>) {
        let grown = self.pending.push(event);
        if grown.len() >= self.batch_size {
            (SchedulerView { batch_size: self.batch_size, pending: Seq::empty() }, Some(grown))
        } else {
            (SchedulerView { batch_size: self.batch_size, pending: grown }, None)
        }
    }

    /// The buffer leaves as a batch, unless it is empty: then nothing leaves.
    pub open spec fn flush(self) -> (SchedulerView, Option<Seq<Event>>) {
        if self.pending.len() == 0 {
            (self, None)
        } else {
            (SchedulerView { batch_size: self.batch_size, pending: Seq::empty() }, Some(self.pending))
        }
    }

    /// The state after one input, and the batch that the input made leave.
    pub open spec fn step(self, input: SchedulerInput) -> (SchedulerView, Option<Seq<Event>>) {
        match input {
            SchedulerInput::Arrived(event) => self.arrive(event),
            SchedulerInput::TimerFired => self.flush(),
        }
    }

    /// The state after a run of inputs, and the batches emitted during it, in
    /// the order of their emission.
    pub open spec fn run(self, inputs: Seq<SchedulerInput>) -> (SchedulerView, Seq<Seq<Event>>)
        decreases inputs.len(),
    {
        if inputs.len() == 0 {
            (self, Seq::empty())
        } else {
            let (before, batches) = self.run(inputs.drop_last());
            let (after, emitted) = before.step(inputs.last());
            match emitted {
                Some(batch) => (after, batches.push(batch)),
                None => (after, batches),
            }
        }
    }
}

/// The events among the inputs, in order.
pub open spec fn arrivals(inputs: Seq<SchedulerInput>) -> Seq<Event>
    decreases inputs.len(),
{
    if inputs.len() == 0 {
        Seq::empty()
    } else {
        match inputs.last() {
            SchedulerInput::Arrived(event) => arrivals(inputs.drop_last()).push(event),
            SchedulerInput::TimerFired => arrivals(inputs.drop_last()),
        }
    }
}

/// The batches laid end to end.
pub open spec fn joined(batches: Seq<Seq<Event>>) -> Seq<Event>
    decreases batches.len(),
{
    if batches.len() == 0 {
        Seq::empty()
    } else {
        joined(batches.drop_last()) + batches.last()
    }
}

/// The inputs of a stream whose events lie further apart than the batch
/// timeout: after each event the timer fires before the next one arrives.
pub open spec fn spaced(events: Seq<Event>) -> Seq<SchedulerInput>
    decreases events.len(),
{
    if events.len() == 0 {
        Seq::empty()
    } else {
        spaced(events.drop_last()).push(SchedulerInput::Arrived(events.last())).push(
            SchedulerInput::TimerFired,
        )
    }
}

/// Each event as a batch of its own.
pub open spec fn singletons(events: Seq<Event>) -> Seq<Seq<Event>> {
    Seq::new(events.len(), |i: int| seq![events[i]])
}

/// A run that is longer by one input ends with the step of that input.
proof fn lemma_run_push(s: SchedulerView, inputs: Seq<SchedulerInput>, input: SchedulerInput)
    ensures
        s.run(inputs.push(input)) == ({
            let (before, batches) = s.run(inputs);
            let (after, emitted) = before.step(input);
            match emitted {
                Some(batch) => (after, batches.push(batch)),
                None => (after, batches),
            }
        }),
{
    assert(inputs.push(input).drop_last() =~= inputs);
}

/// No run of inputs makes the scheduler emit an empty batch or one larger than
/// the configured size, and the buffer stays short of a full batch.
pub proof fn lemma_batches_bounded(s: SchedulerView, inputs: Seq<SchedulerInput>)
    requires
        s.wf(),
    ensures
        s.run(inputs).0.wf(),
        s.run(inputs).0.batch_size == s.batch_size,
        forall|i: int|
            0 <= i < s.run(inputs).1.len() ==> 0 < (#[trigger] s.run(inputs).1[i]).len()
                <= s.batch_size,
    decreases inputs.len(),
{
    if inputs.len() > 0 {
        lemma_batches_bounded(s, inputs.drop_last());
    }
}

/// Events leave in the order of their arrival, within a batch and across
/// batches: the emitted batches laid end to end, followed by what is still
/// buffered, are what was buffered at first followed by the arrivals.
pub proof fn lemma_fifo(s: SchedulerView, inputs: Seq<SchedulerInput>)
    ensures
        joined(s.run(inputs).1) + s.run(inputs).0.pending == s.pending + arrivals(inputs),
    decreases inputs.len(),
{
    if inputs.len() == 0 {
        assert(joined(s.run(inputs).1) + s.run(inputs).0.pending =~= s.pending + arrivals(inputs));
    } else {
        let rest = inputs.drop_last();
        lemma_fifo(s, rest);
        let (before, batches) = s.run(rest);
        let (after, emitted) = before.step(inputs.last());
        let so_far = joined(batches) + before.pending;
        assert(so_far == s.pending + arrivals(rest));
        match inputs.last() {
            SchedulerInput::Arrived(event) => {
                let grown = before.pending.push(event);
                assert(joined(batches) + grown =~= so_far.push(event));
                assert(s.pending + arrivals(inputs) =~= so_far.push(event));
                if grown.len() >= before.batch_size {
                    assert(batches.push(grown).drop_last() =~= batches);
                    assert(joined(batches.push(grown)) + Seq::<Event>::empty() =~= joined(batches)
                        + grown);
                }
            },
            SchedulerInput::TimerFired => {
                if before.pending.len() > 0 {
                    assert(batches.push(before.pending).drop_last() =~= batches);
                    assert(joined(batches.push(before.pending)) + Seq::<Event>::empty() =~= so_far);
                }
            },
        }
    }
}

/// Where the timer fires after every event, each event leaves as a batch of its
/// own and the scheduler is at rest again.
pub proof fn lemma_spaced_events_leave_alone(batch_size: nat, events: Seq<Event>)
    requires
        batch_size > 0,
    ensures
        SchedulerView::idle(batch_size).run(spaced(events)) == (
            SchedulerView::idle(batch_size),
            singletons(events),
        ),
    decreases events.len(),
{
    let idle = SchedulerView::idle(batch_size);
    if events.len() == 0 {
        assert(singletons(events) =~= Seq::<Seq<Event>>::empty());
    } else {
        let rest = events.drop_last();
        let last = events.last();
        lemma_spaced_events_leave_alone(batch_size, rest);
        let arrived = spaced(rest).push(SchedulerInput::Arrived(last));
        lemma_run_push(idle, spaced(rest), SchedulerInput::Arrived(last));
        lemma_run_push(idle, arrived, SchedulerInput::TimerFired);
        assert(Seq::<Event>::empty().push(last) =~= seq![last]);
        assert(singletons(rest).push(seq![last]) =~= singletons(events));
    }
}

/// What the scheduler answers to an event.
pub struct Intake {
    /// The batch that this event closed, if it closed one.
    pub batch: Option<Vec<Event>>,
    /// The event is the first of a new batch: the driver arms the batch timer.
    pub start_timer: bool,
}

/// The events of an emitted batch, if one was emitted.
pub open spec fn emitted_view(batch: Option<Vec<Event>>) -> Option<Seq<Event>> {
    match batch {
        Some(events) => Some(events@),
        None => None,
    }
}

/// Groups the events of a stream into batches of at most `batch_size` events.
pub struct BatchScheduler {
    batch_size: usize,
    buffer: Vec<Event>,
}

impl View for BatchScheduler {
    type V = SchedulerView;

    closed spec fn view(&self) -> SchedulerView {
        SchedulerView { batch_size: self.batch_size as nat, pending: self.buffer@ }
    }
}

impl BatchScheduler {
    /// A scheduler at rest. The batch size is positive.
    pub fn new(batch_size: usize) -> (scheduler: BatchScheduler)
        requires
            batch_size > 0,
        ensures
            scheduler@ == SchedulerView::idle(batch_size as nat),
            scheduler@.wf(),
    {
        BatchScheduler { batch_size, buffer: Vec::new() }
    }

    /// The configured batch size.
    pub fn batch_size(&self) -> (size: usize)
        ensures
            size == self@.batch_size,
    {
        self.batch_size
    }

    /// Events wait for their batch to close: the batch timer is running.
    pub fn has_pending(&self) -> (pending: bool)
        ensures
            pending == (self@.pending.len() > 0),
    {
        self.buffer.len() > 0
    }

    /// Takes the next event of the stream. The event joins the buffer; if that
    /// fills the batch, the batch is emitted and the buffer is empty again.
    pub fn on_event(&mut self, event: Event) -> (intake: Intake)
        requires
            old(self)@.wf(),
        ensures
            final(self)@.wf(),
            final(self)@ == old(self)@.arrive(event).0,
            emitted_view(intake.batch) == old(self)@.arrive(event).1,
            intake.start_timer == (old(self)@.pending.len() == 0 && final(self)@.pending.len()
                > 0),
            intake.batch matches Some(events) ==> 0 < events.len() <= old(self)@.batch_size,
    {
        let was_empty = self.buffer.len() == 0;
        self.buffer.push(event);
        if self.buffer.len() >= self.batch_size {
            let mut batch: Vec<Event> = Vec::new();
            std::mem::swap(&mut self.buffer, &mut batch);
            Intake { batch: Some(batch), start_timer: false }
        } else {
            Intake { batch: None, start_timer: was_empty }
        }
    }

    /// The batch timer fired: whatever is buffered is emitted as a batch. With
    /// nothing buffered, nothing is emitted.
    pub fn on_timeout(&mut self) -> (batch: Option<Vec<Event>>)
        requires
            old(self)@.wf(),
        ensures
            final(self)@.wf(),
            final(self)@ == old(self)@.flush().0,
            emitted_view(batch) == old(self)@.flush().1,
            batch matches Some(events) ==> 0 < events.len() < old(self)@.batch_size,
    {
        if self.buffer.len() == 0 {
            None
        } else {
            let mut batch: Vec<Event> = Vec::new();
            std::mem::swap(&mut self.buffer, &mut batch);
            Some(batch)
        }
    }

    /// The stream has ended: whatever is buffered is emitted as the final
    /// batch, and the scheduler is gone.
    pub fn on_close(self) -> (batch: Option<Vec<Event>>)
        requires
            self@.wf(),
        ensures
            emitted_view(batch) == self@.flush().1,
            batch matches Some(events) ==> 0 < events.len() < self@.batch_size,
    {
        if self.buffer.len() == 0 {
            None
        } else {
            Some(self.buffer)
        }
    }
}

} // verus!
