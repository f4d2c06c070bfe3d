//! The processing pipeline: each batch goes through the chain of processors,
//! one after the other, each call retried as the policy says.
//!
//! `BatchRun` holds the decisions: whose turn it is, whether to call, to wait
//! or to stop, and what to report. `EventProcessorManager` makes the calls. The
//! driver does what needs a clock: it waits where a wait is due.

use vstd::prelude::*;
use crate::config::ProcessorConfig;
use crate::event::{views_of, Event};
use crate::processing::{EventProcessor, ProcessingError};
use crate::retry::{RetryPolicy, RetryState};
use crate::store::TelemetryStore;

verus! {

/// What the driver of a batch does next.
#[derive(Clone, Copy, Debug, PartialEq, Eq, Structural)]
pub enum Directive {
    /// Call the processor at this place of the chain on the batch: the call
    /// numbered `attempt` of this processor, counted from one.
    Invoke { processor: usize, attempt: u32 },
    /// Wait for `delay_ms` milliseconds, then report that the wait is over.
    Sleep { delay_ms: u64 },
    /// The batch has been through the whole chain. It counts as processed where
    /// every processor succeeded on it.
    Complete { processed: bool, batch_size: usize },
    /// The batch is empty: no processor is called and nothing is counted.
    Skip,
}

/// What a call on a batch came to, for logs and metrics.
#[derive(Clone, Copy, Debug, PartialEq, Eq, Structural)]
pub enum Notice {
    /// No call was due.
    Nothing,
    /// The processor succeeded, at the call numbered `attempts`.
    Succeeded { processor: usize, attempts: u32 },
    /// The call numbered `attempt` failed, and the next one follows after a wait.
    RetryScheduled { processor: usize, attempt: u32, delay_ms: u64 },
    /// The processor failed for good after `attempts` calls: the batch is
    /// dead-lettered for this processor.
    DeadLettered { processor: usize, attempts: u32, batch_size: usize },
}

/// What a driver tells the run of a batch.
#[derive(Clone, Copy, Debug, PartialEq, Eq, Structural)]
pub enum RunInput {
    /// The call that was due has ended, well or not.
    Outcome(bool),
    /// The wait that was due is over.
    DelayElapsed,
}

impl Notice {
    /// The notice closes the turn of a processor: the processor succeeded, or
    /// failed for good.
    pub open spec fn closes_turn(self) -> bool {
        self is Succeeded || self is DeadLettered
    }

    /// The place in the chain of the processor that the notice speaks of.
    pub open spec fn place(self) -> int {
        match self {
            Notice::Nothing => -1,
            Notice::Succeeded { processor, .. } => processor as int,
            Notice::RetryScheduled { processor, .. } => processor as int,
            Notice::DeadLettered { processor, .. } => processor as int,
        }
    }
}

/// The progress of one batch through the chain of processors.
#[derive(Clone, Copy, Debug, PartialEq, Eq, Structural)]
pub struct BatchRun {
    /// The number of processors in the chain.
    pub chain_len: usize,
    /// The number of events in the batch.
    pub batch_size: usize,
    pub policy: RetryPolicy,
    /// The place in the chain of the processor whose turn it is; `chain_len`
    /// once the batch has been through all of them.
    pub position: usize,
    /// Where the calls of that processor stand.
    pub retry: RetryState,
    /// No processor has failed for good on this batch so far.
    pub clean: bool,
}

impl BatchRun {
    /// A batch before the first call.
    pub open spec fn initial(chain_len: usize, batch_size: usize, policy: RetryPolicy) -> BatchRun {
        BatchRun {
            chain_len,
            batch_size,
            policy,
            position: 0,
            retry: RetryState::initial(),
            clean: true,
        }
    }

    /// The place lies within the chain or just behind it, and a call is due or
    /// a wait runs.
    pub open spec fn wf(self) -> bool {
        &&& self.position <= self.chain_len
        &&& self.retry.wf(self.policy)
        &&& (self.retry is Attempting || self.retry is Waiting)
    }

    /// What is due.
    pub open spec fn due(self) -> Directive {
        if self.batch_size == 0 {
            Directive::Skip
        } else if self.position >= self.chain_len {
            Directive::Complete { processed: self.clean, batch_size: self.batch_size }
        } else {
            match self.retry {
                RetryState::Attempting { attempt } => Directive::Invoke {
                    processor: self.position,
                    attempt,
                },
                _ => Directive::Sleep { delay_ms: self.policy.retry_delay },
            }
        }
    }

    /// The run with the next processor's turn.
    pub open spec fn advanced(self, clean: bool) -> BatchRun {
        BatchRun {
            position: (self.position + 1) as usize,
            retry: RetryState::initial(),
            clean,
            ..self
        }
    }

    /// The run after the call that was due has ended, and what is to be
    /// reported of it. A success passes the turn to the next processor. A
    /// failure leads to a wait and another call of the same processor while
    /// the policy allows one; the failure that exhausts the policy is reported
    /// as a dead letter, marks the batch as not processed, and passes the turn
    /// to the next processor all the same. Where no call was due, nothing
    /// changes.
    pub open spec fn after_outcome(self, ok: bool) -> (BatchRun, Notice) {
        if self.due() is Invoke {
            match self.retry.after_outcome(self.policy, ok) {
                RetryState::Succeeded { attempts } => (
                    self.advanced(self.clean),
                    Notice::Succeeded { processor: self.position, attempts },
                ),
                RetryState::Failed { attempts } => (
                    self.advanced(false),
                    Notice::DeadLettered {
                        processor: self.position,
                        attempts,
                        batch_size: self.batch_size,
                    },
                ),
                RetryState::Waiting { failed } => (
                    BatchRun { retry: RetryState::Waiting { failed }, ..self },
                    Notice::RetryScheduled {
                        processor: self.position,
                        attempt: failed,
                        delay_ms: self.policy.retry_delay,
                    },
                ),
                RetryState::Attempting { .. } => (self, Notice::Nothing),
            }
        } else {
            (self, Notice::Nothing)
        }
    }

    /// The run after the wait that was due is over: the next call of the same
    /// processor is due. Where no wait was due, nothing changes.
    pub open spec fn after_delay(self) -> BatchRun {
        if self.due() is Sleep {
            BatchRun { retry: self.retry.after_delay(), ..self }
        } else {
            self
        }
    }

    /// The run after `failures` calls in a row have failed, each wait having
    /// run its course, and what was reported of each of these calls.
    pub open spec fn after_failures(self, failures: nat) -> (BatchRun, Seq<Notice>)
        decreases failures,
    {
        if failures == 0 {
            (self, Seq::empty())
        } else {
            let (run, notices) = self.after_failures((failures - 1) as nat);
            let (next, notice) = run.after_delay().after_outcome(false);
            (next, notices.push(notice))
        }
    }

    /// The run after a driver has told it the inputs, one after the other, and
    /// the notices that closed the turn of a processor, in their order.
    pub open spec fn after_inputs(self, inputs: Seq<RunInput>) -> (BatchRun, Seq<Notice>)
        decreases inputs.len(),
    {
        if inputs.len() == 0 {
            (self, Seq::empty())
        } else {
            let (run, closed) = self.after_inputs(inputs.drop_last());
            match inputs.last() {
                RunInput::Outcome(ok) => {
                    let (next, notice) = run.after_outcome(ok);
                    if notice.closes_turn() {
                        (next, closed.push(notice))
                    } else {
                        (next, closed)
                    }
                },
                RunInput::DelayElapsed => (run.after_delay(), closed),
            }
        }
    }

    /// Starts a batch of `batch_size` events on a chain of `chain_len`
    /// processors.
    pub fn start(chain_len: usize, batch_size: usize, policy: RetryPolicy) -> (run: BatchRun)
        ensures
            run == BatchRun::initial(chain_len, batch_size, policy),
            run.wf(),
    {
        BatchRun {
            chain_len,
            batch_size,
            policy,
            position: 0,
            retry: RetryState::start(),
            clean: true,
        }
    }

    /// What the driver does next.
    pub fn directive(&self) -> (directive: Directive)
        ensures
            directive == self.due(),
    {
        if self.batch_size == 0 {
            Directive::Skip
        } else if self.position >= self.chain_len {
            Directive::Complete { processed: self.clean, batch_size: self.batch_size }
        } else {
            match self.retry {
                RetryState::Attempting { attempt } => Directive::Invoke {
                    processor: self.position,
                    attempt,
                },
                _ => Directive::Sleep { delay_ms: self.policy.retry_delay },
            }
        }
    }

    /// Takes the outcome of the call that was due.
    pub fn on_outcome(&mut self, ok: bool) -> (notice: Notice)
        requires
            old(self).wf(),
        ensures
            final(self).wf(),
            (*final(self), notice) == old(self).after_outcome(ok),
    {
        match self.directive() {
            Directive::Invoke { processor, .. } => {
                match self.retry.on_outcome(self.policy, ok) {
                    RetryState::Succeeded { attempts } => {
                        self.position = self.position + 1;
                        self.retry = RetryState::start();
                        Notice::Succeeded { processor, attempts }
                    },
                    RetryState::Failed { attempts } => {
                        self.position = self.position + 1;
                        self.retry = RetryState::start();
                        self.clean = false;
                        Notice::DeadLettered { processor, attempts, batch_size: self.batch_size }
                    },
                    RetryState::Waiting { failed } => {
                        self.retry = RetryState::Waiting { failed };
                        Notice::RetryScheduled {
                            processor,
                            attempt: failed,
                            delay_ms: self.policy.retry_delay,
                        }
                    },
                    RetryState::Attempting { .. } => Notice::Nothing,
                }
            },
            _ => Notice::Nothing,
        }
    }

    /// Takes the end of the wait that was due.
    pub fn on_delay_elapsed(&mut self)
        requires
            old(self).wf(),
        ensures
            final(self).wf(),
            *final(self) == old(self).after_delay(),
    {
        match self.directive() {
            Directive::Sleep { .. } => {
                self.retry = self.retry.on_delay_elapsed(self.policy);
            },
            _ => {},
        }
    }
}

/// Whatever a driver reports, the processors get their turns one after the
/// other, in the order of the chain, and the turn of each is closed exactly
/// once: by its success, or by one dead letter after as many calls as the
/// policy allows. A failure of one processor takes the turn from none of the
/// others. The batch counts as processed exactly if every turn closed so far
/// was closed by a success.
pub proof fn lemma_every_turn_closes_once(
    chain_len: usize,
    batch_size: usize,
    policy: RetryPolicy,
    inputs: Seq<RunInput>,
)
    ensures
        ({
            let (end, closed) = BatchRun::initial(chain_len, batch_size, policy).after_inputs(
                inputs,
            );
            &&& end.wf()
            &&& end.chain_len == chain_len && end.batch_size == batch_size && end.policy == policy
            &&& closed.len() == end.position
            &&& forall|k: int|
                0 <= k < closed.len() ==> (#[trigger] closed[k]).closes_turn() && closed[k].place()
                    == k
            &&& forall|k: int|
                0 <= k < closed.len() ==> (#[trigger] closed[k] matches Notice::DeadLettered {
                    attempts,
                    batch_size: size,
                    ..
                } ==> attempts == policy.attempts_allowed() && size == batch_size)
            &&& end.clean <==> forall|k: int| 0 <= k < closed.len() ==> #[trigger] closed[k] is Succeeded
        }),
    decreases inputs.len(),
{
    if inputs.len() > 0 {
        lemma_every_turn_closes_once(chain_len, batch_size, policy, inputs.drop_last());
        let start = BatchRun::initial(chain_len, batch_size, policy);
        let (run, before) = start.after_inputs(inputs.drop_last());
        let (end, closed) = start.after_inputs(inputs);
        if closed.len() > before.len() {
            assert(closed.drop_last() =~= before);
            assert forall|k: int| 0 <= k < closed.len() implies (#[trigger] closed[k]).closes_turn()
                && closed[k].place() == k by {
                if k < before.len() {
                    assert(closed[k] == before[k]);
                }
            }
            assert forall|k: int| 0 <= k < closed.len() implies (#[trigger] closed[k] matches Notice::DeadLettered {
                attempts,
                batch_size: size,
                ..
            } ==> attempts == policy.attempts_allowed() && size == batch_size) by {
                if k < before.len() {
                    assert(closed[k] == before[k]);
                }
            }
            if end.clean {
                assert forall|k: int| 0 <= k < closed.len() implies #[trigger] closed[k] is Succeeded by {
                    if k < before.len() {
                        assert(closed[k] == before[k]);
                    }
                }
            } else if run.clean {
                assert(!(closed[closed.len() - 1] is Succeeded));
            } else {
                let k = choose|k: int| 0 <= k < before.len() && !(#[trigger] before[k] is Succeeded);
                assert(closed[k] == before[k]);
            }
        }
    }
}

/// A processor that fails every time is called exactly as often as the policy
/// allows. Each of these failures but the last is answered by a wait and
/// another call; the last is reported as a dead letter, once, the batch no
/// longer counts as processed, and the turn passes to the next processor, which
/// is called on the same batch.
pub proof fn lemma_failing_processor(run: BatchRun)
    requires
        run.wf(),
        run.batch_size > 0,
        run.position < run.chain_len,
        run.retry == RetryState::initial(),
    ensures
        ({
            let calls = run.policy.attempts_allowed();
            let (end, notices) = run.after_failures(calls);
            &&& forall|k: nat|
                k < calls ==> (#[trigger] run.after_failures(k)).0.after_delay().due() == (
                Directive::Invoke { processor: run.position, attempt: (k + 1) as u32 })
            &&& notices.len() == calls
            &&& forall|k: int|
                0 <= k < calls - 1 ==> #[trigger] notices[k] == (Notice::RetryScheduled {
                    processor: run.position,
                    attempt: (k + 1) as u32,
                    delay_ms: run.policy.retry_delay,
                })
            &&& notices[calls - 1] == (Notice::DeadLettered {
                processor: run.position,
                attempts: calls as u32,
                batch_size: run.batch_size,
            })
            &&& end == run.advanced(false)
            &&& run.position + 1 < run.chain_len ==> end.due() == (Directive::Invoke {
                processor: (run.position + 1) as usize,
                attempt: 1,
            })
        }),
{
    let calls = run.policy.attempts_allowed();
    lemma_failures_before_the_last(run, (calls - 1) as nat);
    assert forall|k: nat| k < calls implies (#[trigger] run.after_failures(k)).0.after_delay().due()
        == (Directive::Invoke { processor: run.position, attempt: (k + 1) as u32 }) by {
        lemma_failures_before_the_last(run, k);
    }
    assert forall|k: int| 0 <= k < calls - 1 implies #[trigger] run.after_failures(calls).1[k] == (
    Notice::RetryScheduled {
        processor: run.position,
        attempt: (k + 1) as u32,
        delay_ms: run.policy.retry_delay,
    }) by {
        lemma_failures_before_the_last(run, (calls - 1) as nat);
    }
}

/// While a failing processor has failed less often than the policy allows, its
/// next call is due after the wait, and each failure so far was answered by a
/// retry.
proof fn lemma_failures_before_the_last(run: BatchRun, failures: nat)
    requires
        run.wf(),
        run.batch_size > 0,
        run.position < run.chain_len,
        run.retry == RetryState::initial(),
        failures < run.policy.attempts_allowed(),
    ensures
        run.after_failures(failures).0.after_delay() == (BatchRun {
            retry: RetryState::Attempting { attempt: (failures + 1) as u32 },
            ..run
        }),
        run.after_failures(failures).1.len() == failures,
        forall|k: int|
            0 <= k < failures ==> #[trigger] run.after_failures(failures).1[k] == (
            Notice::RetryScheduled {
                processor: run.position,
                attempt: (k + 1) as u32,
                delay_ms: run.policy.retry_delay,
            }),
    decreases failures,
{
    if failures > 0 {
        lemma_failures_before_the_last(run, (failures - 1) as nat);
    }
}

/// What one step of the manager came to.
#[derive(Debug)]
pub struct Attempt {
    /// What to report of the call, if one was made.
    pub notice: Notice,
    /// What the processor returned; `Ok` where no call was made.
    pub outcome: Result<(), ProcessingError>,
}

/// Runs batches through the chain of processors.
pub struct EventProcessorManager<P: EventProcessor> {
    pub telemetry_map: TelemetryStore,
    pub plugins: Vec<P>,
    pub config: ProcessorConfig,
}

impl<P: EventProcessor> EventProcessorManager<P> {
    /// The retry policy that the configuration asks for.
    pub open spec fn policy(&self) -> RetryPolicy {
        RetryPolicy {
            retry_attempts: self.config.retry_attempts,
            retry_delay: self.config.retry_delay,
        }
    }

    /// A manager of the store, the chain of processors and the settings of the
    /// pipeline.
    pub fn new(telemetry_map: TelemetryStore, plugins: Vec<P>, config: ProcessorConfig) -> (manager:
        EventProcessorManager<P>)
        ensures
            manager.telemetry_map == telemetry_map,
            manager.plugins == plugins,
            manager.config == config,
    {
        EventProcessorManager { telemetry_map, plugins, config }
    }

    /// Starts a batch on the chain of processors.
    pub fn begin(&self, batch: &[Event]) -> (run: BatchRun)
        ensures
            run == BatchRun::initial(self.plugins.len(), batch.len(), self.policy()),
            run.wf(),
    {
        BatchRun::start(
            self.plugins.len(),
            batch.len(),
            RetryPolicy {
                retry_attempts: self.config.retry_attempts,
                retry_delay: self.config.retry_delay,
            },
        )
    }

    /// Makes the call that is due: the processor whose turn it is gets the
    /// store and the batch, and the run takes the outcome. Where no call is
    /// due, nothing happens.
    pub fn attempt(&mut self, batch: &[Event], run: &mut BatchRun) -> (attempt: Attempt)
        requires
            old(self).telemetry_map.wf(),
            old(run).wf(),
            old(run).chain_len == old(self).plugins.len(),
        ensures
            final(self).telemetry_map.wf(),
            final(self).plugins == old(self).plugins,
            final(self).config == old(self).config,
            final(run).wf(),
            final(run).chain_len == old(run).chain_len,
            match old(run).due() {
                Directive::Invoke { processor, .. } => {
                    &&& old(self).plugins[processor as int].processes(
                        old(self).telemetry_map@,
                        views_of(batch@),
                        final(self).telemetry_map@,
                        attempt.outcome,
                    )
                    &&& (*final(run), attempt.notice) == old(run).after_outcome(
                        attempt.outcome is Ok,
                    )
                },
                _ => {
                    &&& final(self).telemetry_map@ == old(self).telemetry_map@
                    &&& *final(run) == *old(run)
                    &&& attempt.notice == Notice::Nothing
                    &&& attempt.outcome is Ok
                },
            },
    {
        match run.directive() {
            Directive::Invoke { processor, .. } => {
                let outcome = self.plugins[processor].process_event(&mut self.telemetry_map, batch);
                let notice = run.on_outcome(outcome.is_ok());
                Attempt { notice, outcome }
            },
            _ => Attempt { notice: Notice::Nothing, outcome: Ok(()) },
        }
    }
}

} // verus!
