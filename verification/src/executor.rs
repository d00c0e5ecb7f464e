//! The decisions of the cooperative executor.
//!
//! The executor alternates between two steps for as long as it runs: it
//! dispatches the native events that have arrived, then gives the root task
//! one chance to advance. The caller owns the native event loop and the root
//! task; it reports what happened and does what the returned [`Directive`]
//! says. The run ends when the root task completes or a handler fails, and
//! its outcome never changes afterwards.

use crate::dispatch::{
    batch_ran, dispatch_batch, dispatched, handled_by, route, BatchReport,
};
use crate::event::EventEnvelope;
use crate::registry::Registry;
use crate::window::WindowHandler;
use std::collections::VecDeque;
use std::rc::Rc;
use vstd::prelude::*;

verus! {

/// Where a run stands.
pub enum RunState<E> {
    /// Events are dispatched and the root task is polled.
    Running,
    /// The run is over: the root task completed, or a handler failed with
    /// the error held here.
    Completed(Result<(), E>),
}

/// What the owner of the native event loop has to do next.
#[derive(Clone, Copy, Debug, PartialEq, Eq, Structural)]
pub enum Directive {
    /// Poll the root task once and report with [`Executor::root_polled`].
    PollRoot,
    /// Wait for native events and hand them to [`Executor::pump`].
    AwaitEvents,
    /// Stop the native event loop and return the outcome of the run.
    Exit,
}

impl<E> RunState<E> {
    /// The state after a batch of events has ended with `outcome`. A handler
    /// error ends the run; a run that is over stays as it is.
    pub open spec fn after_batch(self, outcome: Result<(), E>) -> Self {
        match (self, outcome) {
            (RunState::Running, Err(error)) => RunState::Completed(Err(error)),
            _ => self,
        }
    }

    /// The state after the root task has been polled and has, or has not,
    /// completed. A run that is over stays as it is.
    pub open spec fn after_poll(self, completed: bool) -> Self {
        match self {
            RunState::Running if completed => RunState::Completed(Ok(())),
            _ => self,
        }
    }

    /// What follows a batch that left the run in this state.
    pub open spec fn batch_directive(self) -> Directive {
        match self {
            RunState::Running => Directive::PollRoot,
            RunState::Completed(_) => Directive::Exit,
        }
    }

    /// What follows a poll that left the run in this state.
    pub open spec fn poll_directive(self) -> Directive {
        match self {
            RunState::Running => Directive::AwaitEvents,
            RunState::Completed(_) => Directive::Exit,
        }
    }

    /// The outcome of the run, once it is over.
    pub open spec fn outcome(self) -> Option<Result<(), E>> {
        match self {
            RunState::Running => None,
            RunState::Completed(outcome) => Some(outcome),
        }
    }
}

/// The state of one run of the event loop.
pub struct Executor<E> {
    state: RunState<E>,
}

impl<E> View for Executor<E> {
    type V = RunState<E>;

    closed spec fn view(&self) -> RunState<E> {
        self.state
    }
}

impl<E> Executor<E> {
    /// An executor at the start of its run.
    pub fn new() -> (executor: Self)
        ensures
            executor@ == RunState::<E>::Running,
    {
        Executor { state: RunState::Running }
    }

    /// Whether the run is still going.
    pub fn is_running(&self) -> (running: bool)
        ensures
            running == (self@ is Running),
    {
        match &self.state {
            RunState::Running => true,
            RunState::Completed(_) => false,
        }
    }

    /// Records how a batch of events ended. The first handler error ends the
    /// run and is kept as its outcome.
    pub fn batch_done(&mut self, outcome: Result<(), E>) -> (directive: Directive)
        ensures
            final(self)@ == old(self)@.after_batch(outcome),
            directive == final(self)@.batch_directive(),
    {
        match outcome {
            Ok(_) => {},
            Err(error) => {
                if self.is_running() {
                    self.state = RunState::Completed(Err(error));
                }
            },
        }
        if self.is_running() {
            Directive::PollRoot
        } else {
            Directive::Exit
        }
    }

    /// Records that the root task has been polled once, and whether it has
    /// completed. Completion ends the run with success.
    pub fn root_polled(&mut self, completed: bool) -> (directive: Directive)
        ensures
            final(self)@ == old(self)@.after_poll(completed),
            directive == final(self)@.poll_directive(),
    {
        if completed && self.is_running() {
            self.state = RunState::Completed(Ok(()));
        }
        if self.is_running() {
            Directive::AwaitEvents
        } else {
            Directive::Exit
        }
    }

    /// Dispatches the queued events in arrival order, as
    /// [`dispatch_batch`] does, and records how the batch ended. Once the run
    /// is over no event is dispatched any more and the queue is left alone.
    pub fn pump<H: WindowHandler<Error = E> + ?Sized>(
        &mut self,
        registry: &Registry<H>,
        queue: &mut VecDeque<EventEnvelope>,
    ) -> (directive: Directive)
        ensures
            directive == final(self)@.batch_directive(),
            old(self)@ is Completed ==> final(self)@ == old(self)@ && final(queue)@ == old(
                queue,
            )@,
            old(self)@ is Running ==> exists|report: BatchReport<E>|
                {
                    &&& #[trigger] batch_ran(registry@, old(queue)@, report)
                    &&& final(queue)@ == old(queue)@.skip(report.taken as int)
                    &&& final(self)@ == old(self)@.after_batch(report.outcome)
                },
    {
        if self.is_running() {
            let report = dispatch_batch(registry, queue);
            let ghost witness = report;
            let directive = self.batch_done(report.outcome);
            assert(batch_ran(registry@, old(queue)@, witness));
            directive
        } else {
            Directive::Exit
        }
    }

    /// Ends the run and gives its outcome: `None` while it was still going,
    /// else success or the very error that the failing handler returned.
    pub fn finish(self) -> (outcome: Option<Result<(), E>>)
        ensures
            outcome == self@.outcome(),
    {
        match self.state {
            RunState::Running => None,
            RunState::Completed(outcome) => Some(outcome),
        }
    }
}

/// The run fails fast. Where a batch ends with a handler error, the events in
/// front of the failing one were dispatched with success, the failing event
/// is the last one taken, so that none behind it is dispatched, the reported
/// error is the one that the handler of the failing event returned, and that
/// very error ends the run and is its outcome.
pub proof fn lemma_fail_fast<H: WindowHandler + ?Sized>(
    bindings: Map<u64, Rc<H>>,
    events: Seq<EventEnvelope>,
    report: BatchReport<H::Error>,
    error: H::Error,
)
    requires
        batch_ran(bindings, events, report),
        report.outcome == Err::<(), H::Error>(error),
    ensures
        1 <= report.taken <= events.len(),
        forall|i: int|
            0 <= i < report.taken - 1 ==> dispatched(bindings, #[trigger] events[i], Ok(())),
        route(bindings, events[report.taken - 1]) matches Some(handler) && handled_by(
            &*handler,
            events[report.taken - 1].payload,
            Err(error),
        ),
        RunState::<H::Error>::Running.after_batch(report.outcome).outcome() == Some(
            Err::<(), H::Error>(error),
        ),
        RunState::<H::Error>::Running.after_batch(report.outcome).batch_directive()
            == Directive::Exit,
{
}

/// A handler error halts the run for good. From the batch in which it
/// occurred on, the owner of the event loop is told to exit, the outcome of
/// the run is that very error, and neither a later batch nor a later poll of
/// the root task changes it.
pub proof fn lemma_error_is_final<E>(
    error: E,
    later_batch: Result<(), E>,
    later_completed: bool,
)
    ensures
        ({
            let halted = RunState::<E>::Running.after_batch(Err(error));
            &&& halted.outcome() == Some(Err::<(), E>(error))
            &&& halted.batch_directive() == Directive::Exit
            &&& halted.after_batch(later_batch) == halted
            &&& halted.after_poll(later_completed) == halted
        }),
{
}

/// A run goes on for as long as its batches succeed and the root task is
/// pending, and ends with success at the first poll that finds the root task
/// completed.
pub proof fn lemma_completion<E>(state: RunState<E>)
    requires
        state is Running,
    ensures
        state.after_batch(Ok(())) == state,
        state.after_batch(Ok(())).batch_directive() == Directive::PollRoot,
        state.after_poll(false) == state,
        state.after_poll(false).poll_directive() == Directive::AwaitEvents,
        state.after_poll(true).outcome() == Some(Ok::<(), E>(())),
        state.after_poll(true).poll_directive() == Directive::Exit,
{
}

} // verus!
