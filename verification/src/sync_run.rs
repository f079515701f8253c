//! One sync attempt from beginning to end: connect, begin a session, ask
//! for the accounts, end the session, close the connection. Whatever
//! fails on the way, the attempt ends only when nothing is held any more.

use crate::file_mode::FileMode;
use crate::lifecycle::{
    attempts_of, ConnectionLifecycle, Event, EventView, LifecycleError, LifecycleErrorView,
    LifecycleState, LifecycleView, Outcome, OutcomeView, Pending, SessionAttempt, Step, StepView,
};
use crate::protocol::{
    spec_begin_session, spec_close_connection, spec_end_session, spec_open_connection,
    spec_process_request,
};
use crate::safe_variant::{SafeVariant, VariantValue};
use vstd::prelude::*;

verus! {

/// How far a sync attempt has come.
#[derive(Debug, Clone, Copy, PartialEq, Eq, Structural)]
pub enum RunPhase {
    NotStarted,
    Connecting,
    Beginning,
    Querying,
    Ending,
    Closing,
    TearingDown,
    Finished,
}

/// What a sync attempt connects with, and what it asks.
#[derive(Debug, PartialEq, Eq)]
pub struct RunSettings {
    pub app_id: String,
    pub app_name: String,
    pub company_file: String,
    pub file_mode: FileMode,
    pub fallbacks: Vec<SessionAttempt>,
    pub request: String,
}

/// [`RunSettings`] as a mathematical value.
pub struct RunSettingsView {
    pub app_id: Seq<char>,
    pub app_name: Seq<char>,
    pub company_file: Seq<char>,
    pub file_mode: FileMode,
    pub fallbacks: Seq<(Seq<char>, FileMode)>,
    pub request: Seq<char>,
}

impl View for RunSettings {
    type V = RunSettingsView;

    open spec fn view(&self) -> RunSettingsView {
        RunSettingsView {
            app_id: self.app_id@,
            app_name: self.app_name@,
            company_file: self.company_file@,
            file_mode: self.file_mode,
            fallbacks: attempts_of(self.fallbacks@),
            request: self.request@,
        }
    }
}

/// A sync attempt as a mathematical value.
pub struct RunView {
    pub lifecycle: LifecycleView,
    pub settings: RunSettingsView,
    pub phase: RunPhase,
    /// The server's answer to the request, once it is there.
    pub response: Option<VariantValue>,
    /// The first thing that went wrong.
    pub failure: Option<LifecycleErrorView>,
}

impl RunView {
    /// Notes `error` unless something went wrong before.
    pub open spec fn fail(self, error: LifecycleErrorView) -> RunView {
        RunView {
            failure: match self.failure {
                Some(first) => Some(first),
                None => Some(error),
            },
            ..self
        }
    }

    /// The attempt ends: with the first failure if there was one, else with
    /// the server's answer.
    pub open spec fn finish(self) -> (RunView, StepView) {
        (
            RunView { phase: RunPhase::Finished, response: None, failure: None, ..self },
            StepView::Done {
                outcome: match self.failure {
                    Some(error) => OutcomeView::Failed { error },
                    None => match self.response {
                        Some(payload) => OutcomeView::Response { payload },
                        None => OutcomeView::Failed { error: LifecycleErrorView::UnexpectedEvent },
                    },
                },
            },
        )
    }

    /// Cleans up what is held, and ends the attempt once nothing is.
    pub open spec fn settle(self) -> (RunView, StepView) {
        let (lifecycle, step) = self.lifecycle.teardown();
        let run = RunView { lifecycle, ..self };
        if step is Done {
            run.finish()
        } else {
            (RunView { phase: RunPhase::TearingDown, ..run }, step)
        }
    }

    /// Goes on with what an operation of the lifecycle handed out, or, if
    /// it was refused, cleans up.
    pub open spec fn proceed(
        self,
        started: Result<(LifecycleView, StepView), crate::lifecycle::SessionStateError>,
        phase: RunPhase,
    ) -> (RunView, StepView) {
        match started {
            Ok((lifecycle, step)) => if step is Done {
                RunView { lifecycle, ..self }.fail(LifecycleErrorView::UnexpectedEvent).settle()
            } else {
                (RunView { lifecycle, phase, ..self }, step)
            },
            Err(error) => self.fail(LifecycleErrorView::SessionState(error)).settle(),
        }
    }

    /// `start`: the attempt begins with the selection of a server class.
    pub open spec fn start(self) -> (RunView, StepView) {
        if self.phase != RunPhase::NotStarted {
            (
                self,
                StepView::Done {
                    outcome: OutcomeView::Failed { error: LifecycleErrorView::UnexpectedEvent },
                },
            )
        } else {
            match self.lifecycle.connect(self.settings.app_id, self.settings.app_name) {
                Ok((lifecycle, StepView::Done { outcome: OutcomeView::Failed { error } })) => RunView {
                    lifecycle,
                    ..self
                }.fail(error).settle(),
                started => self.proceed(started, RunPhase::Connecting),
            }
        }
    }

    /// What follows when an operation of the lifecycle has ended.
    pub open spec fn on_outcome(self, outcome: OutcomeView) -> (RunView, StepView) {
        match (self.phase, outcome) {
            (RunPhase::Connecting, OutcomeView::Connected { .. }) => self.proceed(
                self.lifecycle.begin_session(
                    self.settings.company_file,
                    self.settings.file_mode,
                    self.settings.fallbacks,
                ),
                RunPhase::Beginning,
            ),
            (RunPhase::Beginning, OutcomeView::SessionStarted) => self.proceed(
                self.lifecycle.process_request(self.settings.request),
                RunPhase::Querying,
            ),
            (RunPhase::Querying, OutcomeView::Response { payload }) => RunView {
                response: Some(payload),
                ..self
            }.proceed(self.lifecycle.end_session(), RunPhase::Ending),
            (RunPhase::Querying, OutcomeView::Failed { error }) => self.fail(error).proceed(
                self.lifecycle.end_session(),
                RunPhase::Ending,
            ),
            (RunPhase::Ending, OutcomeView::Failed { error }) => self.fail(error).proceed(
                self.lifecycle.close_connection(),
                RunPhase::Closing,
            ),
            (RunPhase::Ending, _) => self.proceed(
                self.lifecycle.close_connection(),
                RunPhase::Closing,
            ),
            (RunPhase::Closing, OutcomeView::Failed { error }) => self.fail(error).settle(),
            (RunPhase::Closing, _) => self.settle(),
            (RunPhase::TearingDown, _) => self.settle(),
            (_, OutcomeView::Failed { error }) => self.fail(error).settle(),
            (_, _) => self.fail(LifecycleErrorView::UnexpectedEvent).settle(),
        }
    }

    /// `advance`: what the attempt does when told `event`.
    pub open spec fn advance(self, event: EventView) -> (RunView, StepView) {
        if self.phase == RunPhase::NotStarted || self.phase == RunPhase::Finished {
            (
                self,
                StepView::Done {
                    outcome: OutcomeView::Failed { error: LifecycleErrorView::UnexpectedEvent },
                },
            )
        } else {
            let (lifecycle, step) = self.lifecycle.advance(event);
            let run = RunView { lifecycle, ..self };
            match step {
                StepView::Done { outcome } => run.on_outcome(outcome),
                other => (run, other),
            }
        }
    }

    /// `abort`: the attempt is given up where it stands, and what is held
    /// is cleaned up.
    pub open spec fn abort(self) -> (RunView, StepView) {
        self.fail(LifecycleErrorView::Aborted).settle()
    }

    /// Whether nothing is held: no ticket, no server object, nothing in
    /// flight.
    pub open spec fn holds_nothing(self) -> bool {
        &&& self.lifecycle.connection is None
        &&& self.lifecycle.ticket is None
        &&& self.lifecycle.state == LifecycleState::Disconnected
        &&& self.lifecycle.pending == Pending::Idle
    }
}

/// A sync attempt ends only when nothing is held: whenever `start` or
/// `advance` says that the attempt is done, there is no ticket and no
/// server object any more, whatever went wrong on the way and whatever the
/// attempt was told.
pub proof fn lemma_a_finished_run_holds_nothing(run: RunView, event: EventView)
    ensures
        (run.phase == RunPhase::NotStarted && (run.start().1 is Done))
            ==> run.start().0.holds_nothing(),
        (run.phase != RunPhase::NotStarted && run.phase != RunPhase::Finished && (run.advance(
            event,
        ).1 is Done)) ==> run.advance(event).0.holds_nothing(),
        (run.advance(event).0.phase == RunPhase::Finished && run.phase != RunPhase::Finished)
            ==> run.advance(event).0.holds_nothing(),
        (run.abort().1 is Done) ==> run.abort().0.holds_nothing(),
{
}

/// An attempt in which nothing fails makes these calls in this order and
/// no others: it instantiates the first candidate, opens the connection,
/// begins the session, submits the request under the ticket that the
/// server gave, ends the session under the same ticket, closes the
/// connection, and ends with the server's answer to the request.
pub proof fn lemma_a_run_without_failures(
    run: RunView,
    object: u64,
    opened: VariantValue,
    ticket: Seq<char>,
    answer: VariantValue,
    ended: VariantValue,
    closed: VariantValue,
)
    requires
        run.phase == RunPhase::NotStarted,
        run.lifecycle == LifecycleView::initial(run.lifecycle.candidates),
        0 < run.lifecycle.candidates.len() <= usize::MAX,
        run.response is None,
        run.failure is None,
        object != 0,
    ensures
        ({
            let (r0, s0) = run.start();
            let (r1, s1) = r0.advance(EventView::Instantiated { object });
            let (r2, s2) = r1.advance(EventView::Returned { value: opened });
            let (r3, s3) = r2.advance(EventView::Returned { value: VariantValue::Text(ticket) });
            let (r4, s4) = r3.advance(EventView::Returned { value: answer });
            let (r5, s5) = r4.advance(EventView::Returned { value: ended });
            let (r6, s6) = r5.advance(EventView::Returned { value: closed });
            &&& s0 == StepView::Instantiate { candidate: 0 }
            &&& s1 == StepView::Invoke {
                object,
                call: spec_open_connection(run.settings.app_id, run.settings.app_name),
            }
            &&& s2 == StepView::Invoke {
                object,
                call: spec_begin_session(run.settings.company_file, run.settings.file_mode),
            }
            &&& s3 == StepView::Invoke {
                object,
                call: spec_process_request(ticket, run.settings.request),
            }
            &&& s4 == StepView::Invoke { object, call: spec_end_session(ticket) }
            &&& s5 == StepView::Invoke { object, call: spec_close_connection() }
            &&& s6 == StepView::Done { outcome: OutcomeView::Response { payload: answer } }
            &&& r6.phase == RunPhase::Finished
            &&& r6.holds_nothing()
        }),
{
}

/// What went wrong first is what the attempt reports; a later failure,
/// such as one of the cleanup, does not hide it.
pub proof fn lemma_the_first_failure_is_reported(
    run: RunView,
    first: LifecycleErrorView,
    later: LifecycleErrorView,
)
    ensures
        run.fail(first).fail(later).failure == run.fail(first).failure,
        (run.failure is None) ==> run.fail(first).finish().1 == (StepView::Done {
            outcome: OutcomeView::Failed { error: first },
        }),
{
}

/// One sync attempt.
#[derive(Debug)]
pub struct SyncRun {
    lifecycle: ConnectionLifecycle,
    settings: RunSettings,
    phase: RunPhase,
    response: Option<SafeVariant>,
    failure: Option<LifecycleError>,
}

impl View for SyncRun {
    type V = RunView;

    closed spec fn view(&self) -> RunView {
        RunView {
            lifecycle: self.lifecycle@,
            settings: self.settings@,
            phase: self.phase,
            response: match self.response {
                Some(payload) => Some(payload@),
                None => None,
            },
            failure: match self.failure {
                Some(error) => Some(error@),
                None => None,
            },
        }
    }
}

impl SyncRun {
    /// An attempt that has not started, on `lifecycle`.
    pub fn new(lifecycle: ConnectionLifecycle, settings: RunSettings) -> (run: Self)
        ensures
            run@ == (RunView {
                lifecycle: lifecycle@,
                settings: settings@,
                phase: RunPhase::NotStarted,
                response: None,
                failure: None,
            }),
    {
        SyncRun { lifecycle, settings, phase: RunPhase::NotStarted, response: None, failure: None }
    }

    pub fn phase(&self) -> (phase: RunPhase)
        ensures
            phase == self@.phase,
    {
        self.phase
    }

    /// The lifecycle of the attempt.
    pub fn lifecycle(&self) -> (lifecycle: &ConnectionLifecycle)
        ensures
            lifecycle@ == self@.lifecycle,
    {
        &self.lifecycle
    }

    fn fail(&mut self, error: LifecycleError)
        ensures
            final(self)@ == old(self)@.fail(error@),
    {
        if self.failure.is_none() {
            self.failure = Some(error);
        }
    }

    fn finish(&mut self) -> (step: Step)
        ensures
            (final(self)@, step@) == old(self)@.finish(),
    {
        self.phase = RunPhase::Finished;
        let failure = self.failure.take();
        let response = self.response.take();
        let outcome = match failure {
            Some(error) => Outcome::Failed { error },
            None => match response {
                Some(payload) => Outcome::Response { payload },
                None => Outcome::Failed { error: LifecycleError::UnexpectedEvent },
            },
        };
        Step::Done { outcome }
    }

    fn settle(&mut self) -> (step: Step)
        ensures
            (final(self)@, step@) == old(self)@.settle(),
    {
        let step = self.lifecycle.teardown();
        match step {
            Step::Done { .. } => self.finish(),
            other => {
                self.phase = RunPhase::TearingDown;
                other
            },
        }
    }

    fn proceed(
        &mut self,
        started: Result<Step, crate::lifecycle::SessionStateError>,
        phase: RunPhase,
        Ghost(before): Ghost<RunView>,
    ) -> (step: Step)
        requires
            before.settings == old(self)@.settings,
            before.phase == old(self)@.phase,
            before.response == old(self)@.response,
            before.failure == old(self)@.failure,
            started is Err ==> before.lifecycle == old(self)@.lifecycle,
        ensures
            (final(self)@, step@) == before.proceed(
                match started {
                    Ok(s) => Ok((old(self)@.lifecycle, s@)),
                    Err(e) => Err(e),
                },
                phase,
            ),
    {
        match started {
            Ok(Step::Done { .. }) => {
                self.fail(LifecycleError::UnexpectedEvent);
                self.settle()
            },
            Ok(step) => {
                self.phase = phase;
                step
            },
            Err(error) => {
                self.fail(LifecycleError::SessionState(error));
                self.settle()
            },
        }
    }

    /// Starts the attempt.
    pub fn start(&mut self) -> (step: Step)
        ensures
            (final(self)@, step@) == old(self)@.start(),
    {
        if self.phase != RunPhase::NotStarted {
            return Step::Done { outcome: Outcome::Failed { error: LifecycleError::UnexpectedEvent } };
        }
        let ghost before = self@;
        let started = self.lifecycle.connect(
            self.settings.app_id.as_str(),
            self.settings.app_name.as_str(),
        );
        match started {
            Ok(Step::Done { outcome: Outcome::Failed { error } }) => {
                self.fail(error);
                self.settle()
            },
            started => self.proceed(started, RunPhase::Connecting, Ghost(before)),
        }
    }

    fn on_outcome(&mut self, outcome: Outcome) -> (step: Step)
        ensures
            (final(self)@, step@) == old(self)@.on_outcome(outcome@),
    {
        let ghost before = self@;
        match (self.phase, outcome) {
            (RunPhase::Connecting, Outcome::Connected { .. }) => {
                let started = self.lifecycle.begin_session(
                    self.settings.company_file.as_str(),
                    self.settings.file_mode,
                    &self.settings.fallbacks,
                );
                self.proceed(started, RunPhase::Beginning, Ghost(before))
            },
            (RunPhase::Beginning, Outcome::SessionStarted) => {
                let started = self.lifecycle.process_request(self.settings.request.as_str());
                self.proceed(started, RunPhase::Querying, Ghost(before))
            },
            (RunPhase::Querying, Outcome::Response { payload }) => {
                self.response = Some(payload);
                let ghost kept = self@;
                let started = self.lifecycle.end_session();
                self.proceed(started, RunPhase::Ending, Ghost(kept))
            },
            (RunPhase::Querying, Outcome::Failed { error }) => {
                self.fail(error);
                let ghost failed = self@;
                let started = self.lifecycle.end_session();
                self.proceed(started, RunPhase::Ending, Ghost(failed))
            },
            (RunPhase::Ending, Outcome::Failed { error }) => {
                self.fail(error);
                let ghost failed = self@;
                let started = self.lifecycle.close_connection();
                self.proceed(started, RunPhase::Closing, Ghost(failed))
            },
            (RunPhase::Ending, _) => {
                let started = self.lifecycle.close_connection();
                self.proceed(started, RunPhase::Closing, Ghost(before))
            },
            (RunPhase::Closing, Outcome::Failed { error }) => {
                self.fail(error);
                self.settle()
            },
            (RunPhase::Closing, _) => self.settle(),
            (RunPhase::TearingDown, _) => self.settle(),
            (_, Outcome::Failed { error }) => {
                self.fail(error);
                self.settle()
            },
            (_, _) => {
                self.fail(LifecycleError::UnexpectedEvent);
                self.settle()
            },
        }
    }

    /// Gives the attempt up where it stands. What is held is cleaned up
    /// first: the steps that follow are those of the cleanup, and `Done`
    /// comes when nothing is held any more.
    pub fn abort(&mut self) -> (step: Step)
        ensures
            (final(self)@, step@) == old(self)@.abort(),
    {
        self.fail(LifecycleError::Aborted);
        self.settle()
    }

    /// Tells the attempt what came of the last step, and gives the next
    /// one. `Done` ends the attempt: with the server's answer to the
    /// request, or with the first failure.
    pub fn advance(&mut self, event: Event) -> (step: Step)
        ensures
            (final(self)@, step@) == old(self)@.advance(event@),
    {
        if self.phase == RunPhase::NotStarted || self.phase == RunPhase::Finished {
            return Step::Done { outcome: Outcome::Failed { error: LifecycleError::UnexpectedEvent } };
        }
        let step = self.lifecycle.advance(event);
        match step {
            Step::Done { outcome } => self.on_outcome(outcome),
            other => other,
        }
    }
}

} // verus!
