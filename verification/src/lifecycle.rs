//! The connection lifecycle: which server class is instantiated, when the
//! connection is opened, when a session begins and ends, and what is
//! cleaned up whatever went wrong.
//!
//! The lifecycle talks to no server. It says what is to be done next (a
//! [`Step`]), is told what came of it (an [`Event`]), and says what is to
//! be done then.

use crate::dispatch::{invocations_of, Invocation, InvocationView, InvokeError, InvokeErrorView};
use crate::file_mode::FileMode;
use crate::protocol::{
    spec_begin_session, spec_close_connection, spec_end_session,
    spec_get_current_company_file_name, spec_open_connection, spec_open_connection2,
    spec_process_request, QbxmlRequestProcessor,
};
use crate::safe_variant::{SafeVariant, TypeMismatch, VariantTag, VariantValue};
use vstd::prelude::*;

verus! {

/// Where a lifecycle stands.
#[derive(Debug, Clone, Copy, PartialEq, Eq, Structural)]
pub enum LifecycleState {
    Disconnected,
    Connected,
    SessionActive,
    Ended,
}

/// What a lifecycle is waiting to be told.
#[derive(Debug, Clone, Copy, PartialEq, Eq, Structural)]
pub enum Pending {
    Idle,
    Instantiating { candidate: usize },
    Opening,
    Beginning,
    Requesting,
    Ending,
    Closing,
    TeardownEnding,
    TeardownClosing,
}

/// An operation was asked for in a state that does not allow it. Nothing
/// was sent to the server.
#[derive(Debug, Clone, Copy, PartialEq, Eq, Structural)]
pub enum SessionStateError {
    /// Another operation is still in flight.
    Busy,
    /// A server object is already held.
    AlreadyConnected,
    /// There is no open connection.
    NotConnected,
    /// A session is active on this connection.
    SessionActive,
    /// There is no session, or its ticket is no longer valid.
    NoSession,
}

/// One candidate class that could not be instantiated, and why.
#[derive(Debug, Clone, Copy, PartialEq, Eq, Structural)]
pub struct CandidateFailure {
    pub candidate: usize,
    pub status: i32,
}

/// The open channel to the one server object that was instantiated.
#[derive(Debug, Clone, Copy, PartialEq, Eq, Structural)]
pub struct ConnectionHandle {
    /// Which candidate class the object is of.
    pub candidate: usize,
    /// The number that identifies the object; never 0.
    pub object: u64,
}

/// One way to begin a session.
#[derive(Debug, PartialEq, Eq)]
pub struct SessionAttempt {
    pub company_file: String,
    pub file_mode: FileMode,
}

/// The company file and mode of each attempt, in order.
pub open spec fn attempts_of(attempts: Seq<SessionAttempt>) -> Seq<(Seq<char>, FileMode)> {
    Seq::new(attempts.len(), |i: int| (attempts[i].company_file@, attempts[i].file_mode))
}

/// The characters of each string, in order.
pub open spec fn texts_of(strings: Seq<String>) -> Seq<Seq<char>> {
    Seq::new(strings.len(), |i: int| strings[i]@)
}

/// The errors of `errors`, in order.
pub open spec fn errors_of(errors: Seq<InvokeError>) -> Seq<InvokeErrorView> {
    Seq::new(errors.len(), |i: int| errors[i]@)
}

/// What the lifecycle is told.
#[derive(Debug, PartialEq, Eq)]
pub enum Event {
    /// The server object was created. The number 0 stands for no object:
    /// told of it, the lifecycle takes the candidate for failed.
    Instantiated { object: u64 },
    /// The candidate class could not be instantiated.
    InstantiateFailed { status: i32 },
    /// The call returned.
    Returned { value: SafeVariant },
    /// The call failed.
    Failed { error: InvokeError },
}

/// An [`Event`] as a mathematical value.
pub enum EventView {
    Instantiated { object: u64 },
    InstantiateFailed { status: i32 },
    Returned { value: VariantValue },
    Failed { error: InvokeErrorView },
}

impl View for Event {
    type V = EventView;

    open spec fn view(&self) -> EventView {
        match self {
            Event::Instantiated { object } => EventView::Instantiated { object: *object },
            Event::InstantiateFailed { status } => EventView::InstantiateFailed { status: *status },
            Event::Returned { value } => EventView::Returned { value: value@ },
            Event::Failed { error } => EventView::Failed { error: error@ },
        }
    }
}

/// Why an operation of the lifecycle came to nothing.
#[derive(Debug, PartialEq, Eq)]
pub enum LifecycleError {
    /// The operation was refused in the state the lifecycle was in.
    SessionState(SessionStateError),
    /// No compatible server found: every candidate class was tried, and
    /// here is what each attempt ended with.
    CandidateExhausted { causes: Vec<CandidateFailure> },
    /// The call, and every alternate there was, failed; this is the last
    /// failure.
    Invocation(InvokeError),
    /// The server answered "begin session" with something that is no
    /// ticket.
    TypeMismatch(TypeMismatch),
    /// The lifecycle was told of something it was not waiting for.
    UnexpectedEvent,
    /// The caller gave the attempt up.
    Aborted,
}

/// A [`LifecycleError`] as a mathematical value.
pub enum LifecycleErrorView {
    SessionState(SessionStateError),
    CandidateExhausted { causes: Seq<CandidateFailure> },
    Invocation(InvokeErrorView),
    TypeMismatch(TypeMismatch),
    UnexpectedEvent,
    Aborted,
}

impl View for LifecycleError {
    type V = LifecycleErrorView;

    open spec fn view(&self) -> LifecycleErrorView {
        match self {
            LifecycleError::SessionState(error) => LifecycleErrorView::SessionState(*error),
            LifecycleError::CandidateExhausted { causes } => LifecycleErrorView::CandidateExhausted {
                causes: causes@,
            },
            LifecycleError::Invocation(error) => LifecycleErrorView::Invocation(error@),
            LifecycleError::TypeMismatch(mismatch) => LifecycleErrorView::TypeMismatch(*mismatch),
            LifecycleError::UnexpectedEvent => LifecycleErrorView::UnexpectedEvent,
            LifecycleError::Aborted => LifecycleErrorView::Aborted,
        }
    }
}

/// How an operation of the lifecycle ended.
#[derive(Debug, PartialEq, Eq)]
pub enum Outcome {
    /// The connection is open on the server object of this candidate.
    Connected { candidate: usize },
    /// A session is active; the lifecycle holds its ticket.
    SessionStarted,
    /// The server's answer to a request.
    Response { payload: SafeVariant },
    SessionEnded,
    /// No server object is held any more.
    Disconnected,
    Failed { error: LifecycleError },
}

/// An [`Outcome`] as a mathematical value.
pub enum OutcomeView {
    Connected { candidate: usize },
    SessionStarted,
    Response { payload: VariantValue },
    SessionEnded,
    Disconnected,
    Failed { error: LifecycleErrorView },
}

impl View for Outcome {
    type V = OutcomeView;

    open spec fn view(&self) -> OutcomeView {
        match self {
            Outcome::Connected { candidate } => OutcomeView::Connected { candidate: *candidate },
            Outcome::SessionStarted => OutcomeView::SessionStarted,
            Outcome::Response { payload } => OutcomeView::Response { payload: payload@ },
            Outcome::SessionEnded => OutcomeView::SessionEnded,
            Outcome::Disconnected => OutcomeView::Disconnected,
            Outcome::Failed { error } => OutcomeView::Failed { error: error@ },
        }
    }
}

/// What is to be done next.
#[derive(Debug, PartialEq, Eq)]
pub enum Step {
    /// Instantiate the candidate class of this index, and tell the
    /// lifecycle `Instantiated` or `InstantiateFailed`.
    Instantiate { candidate: usize },
    /// Make this call on the server object, and tell the lifecycle
    /// `Returned` or `Failed`.
    Invoke { object: u64, call: Invocation },
    /// Nothing: the operation has ended.
    Done { outcome: Outcome },
}

/// A [`Step`] as a mathematical value.
pub enum StepView {
    Instantiate { candidate: usize },
    Invoke { object: u64, call: InvocationView },
    Done { outcome: OutcomeView },
}

impl View for Step {
    type V = StepView;

    open spec fn view(&self) -> StepView {
        match self {
            Step::Instantiate { candidate } => StepView::Instantiate { candidate: *candidate },
            Step::Invoke { object, call } => StepView::Invoke { object: *object, call: call@ },
            Step::Done { outcome } => StepView::Done { outcome: outcome@ },
        }
    }
}

/// The ways to open the connection, in the order in which they are tried:
/// the plain call, then the call that names a connection kind, with each
/// spelling and each number a server may know the local kind by.
pub open spec fn open_plan(app_id: Seq<char>, app_name: Seq<char>) -> Seq<InvocationView> {
    seq![
        spec_open_connection(app_id, app_name),
        spec_open_connection2(app_id, app_name, VariantValue::Text("localQBD"@)),
        spec_open_connection2(app_id, app_name, VariantValue::Text("qbLocalQBD"@)),
        spec_open_connection2(app_id, app_name, VariantValue::Text("LocalQBD"@)),
        spec_open_connection2(app_id, app_name, VariantValue::Int32(1)),
        spec_open_connection2(app_id, app_name, VariantValue::Int32(0)),
        spec_open_connection2(app_id, app_name, VariantValue::Int32(2)),
        spec_open_connection2(app_id, app_name, VariantValue::Int32(-1i32)),
    ]
}

/// The "begin session" call of each attempt, in order.
pub open spec fn begin_plan(attempts: Seq<(Seq<char>, FileMode)>) -> Seq<InvocationView> {
    Seq::new(attempts.len(), |i: int| spec_begin_session(attempts[i].0, attempts[i].1))
}

/// A lifecycle as a mathematical value.
pub struct LifecycleView {
    /// The candidate classes, most capable first.
    pub candidates: Seq<Seq<char>>,
    pub state: LifecycleState,
    pub pending: Pending,
    pub connection: Option<ConnectionHandle>,
    pub ticket: Option<Seq<char>>,
    /// The calls still to try if the one in flight fails, in order.
    pub alternates: Seq<InvocationView>,
    /// The candidates that failed in the last selection.
    pub failures: Seq<CandidateFailure>,
    /// The errors that cleanup ran into and went on from.
    pub swallowed: Seq<InvokeErrorView>,
}

impl LifecycleView {
    /// A lifecycle that has done nothing yet.
    pub open spec fn initial(candidates: Seq<Seq<char>>) -> LifecycleView {
        LifecycleView {
            candidates,
            state: LifecycleState::Disconnected,
            pending: Pending::Idle,
            connection: None,
            ticket: None,
            alternates: Seq::empty(),
            failures: Seq::empty(),
            swallowed: Seq::empty(),
        }
    }

    /// What holds of every lifecycle that was made by `initial` and moved
    /// by the operations below: a ticket is held exactly while a session
    /// is active; a server object is held in every state but
    /// `Disconnected`; no class is instantiated while an object is held.
    pub open spec fn wf(self) -> bool {
        &&& self.candidates.len() <= usize::MAX
        &&& self.ticket is Some <==> self.state == LifecycleState::SessionActive
        &&& self.state != LifecycleState::Disconnected ==> self.connection is Some
        &&& self.connection matches Some(handle) ==> handle.candidate < self.candidates.len()
            && handle.object != 0
        &&& match self.pending {
            Pending::Idle => self.alternates.len() == 0,
            Pending::Instantiating { candidate } => {
                &&& candidate < self.candidates.len()
                &&& self.connection is None
                &&& self.failures.len() == candidate
            },
            Pending::Opening => self.connection is Some && self.state
                == LifecycleState::Disconnected,
            Pending::Beginning => self.state == LifecycleState::Connected,
            Pending::Requesting => self.state == LifecycleState::SessionActive
                && self.alternates.len() == 0,
            Pending::Ending => self.state == LifecycleState::Ended && self.alternates.len() == 0,
            Pending::Closing => self.connection is Some && self.state
                != LifecycleState::SessionActive && self.alternates.len() == 0,
            Pending::TeardownEnding => self.state == LifecycleState::Ended
                && self.alternates.len() == 0,
            Pending::TeardownClosing => self.connection is Some && self.state
                != LifecycleState::SessionActive && self.alternates.len() == 0,
        }
    }

    /// The operation in flight ends with `outcome`.
    pub open spec fn finish(self, outcome: OutcomeView) -> (LifecycleView, StepView) {
        (
            LifecycleView { pending: Pending::Idle, alternates: Seq::empty(), ..self },
            StepView::Done { outcome },
        )
    }

    /// The event is not one the lifecycle is waiting for: nothing changes.
    pub open spec fn unexpected(self) -> (LifecycleView, StepView) {
        (
            self,
            StepView::Done {
                outcome: OutcomeView::Failed { error: LifecycleErrorView::UnexpectedEvent },
            },
        )
    }

    /// The first alternate is tried next.
    pub open spec fn next_alternate(self, object: u64) -> (LifecycleView, StepView) {
        (
            LifecycleView { alternates: self.alternates.remove(0), ..self },
            StepView::Invoke { object, call: self.alternates[0] },
        )
    }

    /// `connect`: the selection starts with the first candidate. Refused
    /// while an operation is in flight or a server object is held.
    pub open spec fn connect(self, app_id: Seq<char>, app_name: Seq<char>) -> Result<
        (LifecycleView, StepView),
        SessionStateError,
    > {
        if self.pending != Pending::Idle {
            Err(SessionStateError::Busy)
        } else if self.state != LifecycleState::Disconnected || self.connection is Some {
            Err(SessionStateError::AlreadyConnected)
        } else if self.candidates.len() == 0 {
            Ok(
                LifecycleView { failures: Seq::empty(), ..self }.finish(
                    OutcomeView::Failed {
                        error: LifecycleErrorView::CandidateExhausted { causes: Seq::empty() },
                    },
                ),
            )
        } else {
            Ok(
                (
                    LifecycleView {
                        pending: Pending::Instantiating { candidate: 0 },
                        alternates: open_plan(app_id, app_name),
                        failures: Seq::empty(),
                        ..self
                    },
                    StepView::Instantiate { candidate: 0 },
                ),
            )
        }
    }

    /// `begin_session`: refused, before anything is sent, while a session
    /// is active, while an operation is in flight, and without an open
    /// connection.
    pub open spec fn begin_session(
        self,
        company_file: Seq<char>,
        file_mode: FileMode,
        fallbacks: Seq<(Seq<char>, FileMode)>,
    ) -> Result<(LifecycleView, StepView), SessionStateError> {
        if self.ticket is Some || self.state == LifecycleState::SessionActive {
            Err(SessionStateError::SessionActive)
        } else if self.pending != Pending::Idle {
            Err(SessionStateError::Busy)
        } else if self.state != LifecycleState::Connected {
            Err(SessionStateError::NotConnected)
        } else {
            match self.connection {
                Some(handle) => Ok(
                    (
                        LifecycleView {
                            pending: Pending::Beginning,
                            alternates: begin_plan(fallbacks),
                            ..self
                        },
                        StepView::Invoke {
                            object: handle.object,
                            call: spec_begin_session(company_file, file_mode),
                        },
                    ),
                ),
                None => Err(SessionStateError::NotConnected),
            }
        }
    }

    /// A request that carries the ticket: refused while an operation is in
    /// flight and without a valid ticket.
    pub open spec fn submit(self, call: spec_fn(Seq<char>) -> InvocationView) -> Result<
        (LifecycleView, StepView),
        SessionStateError,
    > {
        if self.pending != Pending::Idle {
            Err(SessionStateError::Busy)
        } else if self.state != LifecycleState::SessionActive {
            Err(SessionStateError::NoSession)
        } else {
            match (self.ticket, self.connection) {
                (Some(ticket), Some(handle)) => Ok(
                    (
                        LifecycleView { pending: Pending::Requesting, ..self },
                        StepView::Invoke { object: handle.object, call: call(ticket) },
                    ),
                ),
                _ => Err(SessionStateError::NoSession),
            }
        }
    }

    /// `process_request`.
    pub open spec fn process_request(self, request: Seq<char>) -> Result<
        (LifecycleView, StepView),
        SessionStateError,
    > {
        self.submit(|ticket: Seq<char>| spec_process_request(ticket, request))
    }

    /// `get_current_company_file_name`.
    pub open spec fn get_current_company_file_name(self) -> Result<
        (LifecycleView, StepView),
        SessionStateError,
    > {
        self.submit(|ticket: Seq<char>| spec_get_current_company_file_name(ticket))
    }

    /// `end_session`: the ticket is given up as the call is handed out,
    /// so it is gone however the call ends.
    pub open spec fn end_session(self) -> Result<(LifecycleView, StepView), SessionStateError> {
        if self.pending != Pending::Idle {
            Err(SessionStateError::Busy)
        } else if self.state != LifecycleState::SessionActive {
            Err(SessionStateError::NoSession)
        } else {
            match (self.ticket, self.connection) {
                (Some(ticket), Some(handle)) => Ok(
                    (
                        LifecycleView {
                            ticket: None,
                            state: LifecycleState::Ended,
                            pending: Pending::Ending,
                            ..self
                        },
                        StepView::Invoke { object: handle.object, call: spec_end_session(ticket) },
                    ),
                ),
                _ => Err(SessionStateError::NoSession),
            }
        }
    }

    /// `close_connection`: refused while an operation is in flight, while
    /// a session is active, and without a server object.
    pub open spec fn close_connection(self) -> Result<
        (LifecycleView, StepView),
        SessionStateError,
    > {
        if self.pending != Pending::Idle {
            Err(SessionStateError::Busy)
        } else if self.ticket is Some || self.state == LifecycleState::SessionActive {
            Err(SessionStateError::SessionActive)
        } else {
            match self.connection {
                Some(handle) => Ok(
                    (
                        LifecycleView { pending: Pending::Closing, ..self },
                        StepView::Invoke { object: handle.object, call: spec_close_connection() },
                    ),
                ),
                None => Err(SessionStateError::NotConnected),
            }
        }
    }

    /// The closing half of cleanup: "close connection" if a server object
    /// is held, else nothing is left to do.
    pub open spec fn teardown_close(self) -> (LifecycleView, StepView) {
        match self.connection {
            Some(handle) => (
                LifecycleView {
                    pending: Pending::TeardownClosing,
                    alternates: Seq::empty(),
                    ..self
                },
                StepView::Invoke { object: handle.object, call: spec_close_connection() },
            ),
            None => LifecycleView { state: LifecycleState::Disconnected, ..self }.finish(
                OutcomeView::Disconnected,
            ),
        }
    }

    /// `teardown`: "end session" if a ticket is held, then "close
    /// connection" if a server object is held. Never refused.
    pub open spec fn teardown(self) -> (LifecycleView, StepView) {
        match (self.ticket, self.connection) {
            (Some(ticket), Some(handle)) => (
                LifecycleView {
                    ticket: None,
                    state: LifecycleState::Ended,
                    pending: Pending::TeardownEnding,
                    alternates: Seq::empty(),
                    ..self
                },
                StepView::Invoke { object: handle.object, call: spec_end_session(ticket) },
            ),
            _ => LifecycleView {
                ticket: None,
                state: if self.state == LifecycleState::SessionActive {
                    LifecycleState::Ended
                } else {
                    self.state
                },
                ..self
            }.teardown_close(),
        }
    }

    /// The candidate was instantiated: it is the connection, and the first
    /// way to open the connection is tried.
    pub open spec fn instantiated(self, candidate: usize, object: u64) -> (
        LifecycleView,
        StepView,
    ) {
        let held = LifecycleView {
            connection: Some(ConnectionHandle { candidate, object }),
            pending: Pending::Opening,
            ..self
        };
        if self.alternates.len() > 0 {
            held.next_alternate(object)
        } else {
            LifecycleView { state: LifecycleState::Connected, ..held }.finish(
                OutcomeView::Connected { candidate },
            )
        }
    }

    /// The candidate could not be instantiated: the next one is tried, or,
    /// after the last, the selection ends with every cause.
    pub open spec fn instantiate_failed(self, candidate: usize, status: i32) -> (
        LifecycleView,
        StepView,
    ) {
        let failures = self.failures.push(CandidateFailure { candidate, status });
        if candidate + 1 < self.candidates.len() {
            (
                LifecycleView {
                    pending: Pending::Instantiating { candidate: (candidate + 1) as usize },
                    failures,
                    ..self
                },
                StepView::Instantiate { candidate: (candidate + 1) as usize },
            )
        } else {
            LifecycleView { failures, ..self }.finish(
                OutcomeView::Failed {
                    error: LifecycleErrorView::CandidateExhausted { causes: failures },
                },
            )
        }
    }

    /// The call in flight returned `value`.
    pub open spec fn returned(self, value: VariantValue) -> (LifecycleView, StepView) {
        match self.pending {
            Pending::Opening => match self.connection {
                Some(handle) => LifecycleView { state: LifecycleState::Connected, ..self }.finish(
                    OutcomeView::Connected { candidate: handle.candidate },
                ),
                None => self.unexpected(),
            },
            Pending::Beginning => match value {
                VariantValue::Text(ticket) => LifecycleView {
                    state: LifecycleState::SessionActive,
                    ticket: Some(ticket),
                    ..self
                }.finish(OutcomeView::SessionStarted),
                other => self.finish(
                    OutcomeView::Failed {
                        error: LifecycleErrorView::TypeMismatch(
                            TypeMismatch { expected: VariantTag::String, found: other.tag() },
                        ),
                    },
                ),
            },
            Pending::Requesting => self.finish(OutcomeView::Response { payload: value }),
            Pending::Ending => self.finish(OutcomeView::SessionEnded),
            Pending::Closing => LifecycleView {
                state: LifecycleState::Disconnected,
                connection: None,
                ..self
            }.finish(OutcomeView::Disconnected),
            Pending::TeardownEnding => self.teardown_close(),
            Pending::TeardownClosing => LifecycleView {
                state: LifecycleState::Disconnected,
                connection: None,
                ..self
            }.finish(OutcomeView::Disconnected),
            _ => self.unexpected(),
        }
    }

    /// The call in flight failed with `error`.
    pub open spec fn call_failed(self, error: InvokeErrorView) -> (LifecycleView, StepView) {
        let failure = OutcomeView::Failed { error: LifecycleErrorView::Invocation(error) };
        match self.pending {
            Pending::Opening | Pending::Beginning => match self.connection {
                Some(handle) => if self.alternates.len() > 0 {
                    self.next_alternate(handle.object)
                } else {
                    self.finish(failure)
                },
                None => self.finish(failure),
            },
            Pending::Requesting | Pending::Ending => self.finish(failure),
            Pending::Closing => LifecycleView {
                state: LifecycleState::Disconnected,
                connection: None,
                ..self
            }.finish(failure),
            Pending::TeardownEnding => LifecycleView {
                swallowed: self.swallowed.push(error),
                ..self
            }.teardown_close(),
            Pending::TeardownClosing => LifecycleView {
                swallowed: self.swallowed.push(error),
                state: LifecycleState::Disconnected,
                connection: None,
                ..self
            }.finish(OutcomeView::Disconnected),
            _ => self.unexpected(),
        }
    }

    /// `advance`: what the lifecycle does when told `event`.
    pub open spec fn advance(self, event: EventView) -> (LifecycleView, StepView) {
        match self.pending {
            Pending::Idle => self.unexpected(),
            Pending::Instantiating { candidate } => match event {
                EventView::Instantiated { object } => if object != 0 {
                    self.instantiated(candidate, object)
                } else {
                    self.instantiate_failed(candidate, 0)
                },
                EventView::InstantiateFailed { status } => self.instantiate_failed(
                    candidate,
                    status,
                ),
                _ => self.unexpected(),
            },
            _ => match event {
                EventView::Returned { value } => self.returned(value),
                EventView::Failed { error } => self.call_failed(error),
                _ => self.unexpected(),
            },
        }
    }
}

/// Drives one connection from the choice of a server class to the last
/// cleanup call.
#[derive(Debug)]
pub struct ConnectionLifecycle {
    candidates: Vec<String>,
    state: LifecycleState,
    pending: Pending,
    connection: Option<ConnectionHandle>,
    ticket: Option<String>,
    alternates: Vec<Invocation>,
    failures: Vec<CandidateFailure>,
    swallowed: Vec<InvokeError>,
}

impl View for ConnectionLifecycle {
    type V = LifecycleView;

    closed spec fn view(&self) -> LifecycleView {
        LifecycleView {
            candidates: texts_of(self.candidates@),
            state: self.state,
            pending: self.pending,
            connection: self.connection,
            ticket: match self.ticket {
                Some(t) => Some(t@),
                None => None,
            },
            alternates: invocations_of(self.alternates@),
            failures: self.failures@,
            swallowed: errors_of(self.swallowed@),
        }
    }
}

fn copy_failures(failures: &Vec<CandidateFailure>) -> (copy: Vec<CandidateFailure>)
    ensures
        copy@ == failures@,
{
    let mut copy: Vec<CandidateFailure> = Vec::new();
    let mut i: usize = 0;
    while i < failures.len()
        invariant
            i <= failures@.len(),
            copy@ == failures@.take(i as int),
        decreases failures@.len() - i,
    {
        copy.push(failures[i]);
        i += 1;
    }
    copy
}

impl ConnectionLifecycle {
    /// A lifecycle over `candidates`, the most capable class first.
    pub fn new(candidates: Vec<String>) -> (lifecycle: Self)
        ensures
            lifecycle@ == LifecycleView::initial(texts_of(candidates@)),
            lifecycle@.wf(),
    {
        let count = candidates.len();
        let lifecycle = ConnectionLifecycle {
            candidates,
            state: LifecycleState::Disconnected,
            pending: Pending::Idle,
            connection: None,
            ticket: None,
            alternates: Vec::new(),
            failures: Vec::new(),
            swallowed: Vec::new(),
        };
        assert(lifecycle@.alternates =~= Seq::<InvocationView>::empty());
        assert(lifecycle@.swallowed =~= Seq::<InvokeErrorView>::empty());
        lifecycle
    }

    pub fn state(&self) -> (state: LifecycleState)
        ensures
            state == self@.state,
    {
        self.state
    }

    pub fn pending(&self) -> (pending: Pending)
        ensures
            pending == self@.pending,
    {
        self.pending
    }

    /// The connection handle, while a server object is held.
    pub fn connection(&self) -> (connection: Option<ConnectionHandle>)
        ensures
            connection == self@.connection,
    {
        self.connection
    }

    /// A copy of the session ticket, while it is valid.
    pub fn ticket(&self) -> (ticket: Option<String>)
        ensures
            match self@.ticket {
                Some(t) => ticket is Some && ticket->0@ == t,
                None => ticket is None,
            },
    {
        match &self.ticket {
            Some(t) => Some(t.clone()),
            None => None,
        }
    }

    /// How many candidate classes there are.
    pub fn candidate_count(&self) -> (n: usize)
        ensures
            n == self@.candidates.len(),
    {
        self.candidates.len()
    }

    /// The name of the candidate class of index `candidate`.
    pub fn candidate_class(&self, candidate: usize) -> (class: Option<String>)
        ensures
            candidate < self@.candidates.len() ==> class is Some && class->0@
                == self@.candidates[candidate as int],
            candidate >= self@.candidates.len() ==> class is None,
    {
        if candidate < self.candidates.len() {
            Some(self.candidates[candidate].clone())
        } else {
            None
        }
    }

    /// What each failed candidate of the last selection ended with.
    pub fn failures(&self) -> (failures: Vec<CandidateFailure>)
        ensures
            failures@ == self@.failures,
    {
        copy_failures(&self.failures)
    }

    /// How many errors cleanup ran into and went on from.
    pub fn swallowed_count(&self) -> (n: usize)
        ensures
            n == self@.swallowed.len(),
    {
        self.swallowed.len()
    }

    /// A copy of one of the errors that cleanup went on from, for the log.
    pub fn swallowed_error(&self, index: usize) -> (error: Option<InvokeError>)
        ensures
            index < self@.swallowed.len() ==> error is Some && error->0@
                == self@.swallowed[index as int],
            index >= self@.swallowed.len() ==> error is None,
    {
        if index < self.swallowed.len() {
            Some(self.swallowed[index].clone())
        } else {
            None
        }
    }

    fn finish(&mut self, outcome: Outcome) -> (step: Step)
        ensures
            (final(self)@, step@) == old(self)@.finish(outcome@),
    {
        self.pending = Pending::Idle;
        self.alternates = Vec::new();
        assert(self@.alternates =~= Seq::<InvocationView>::empty());
        Step::Done { outcome }
    }

    fn unexpected(&self) -> (step: Step)
        ensures
            (self@, step@) == self@.unexpected(),
    {
        Step::Done { outcome: Outcome::Failed { error: LifecycleError::UnexpectedEvent } }
    }

    fn next_alternate(&mut self, object: u64) -> (step: Step)
        requires
            old(self)@.alternates.len() > 0,
        ensures
            (final(self)@, step@) == old(self)@.next_alternate(object),
    {
        let call = self.alternates.remove(0);
        assert(self@.alternates =~= old(self)@.alternates.remove(0));
        Step::Invoke { object, call }
    }

    fn open_calls(app_id: &str, app_name: &str) -> (calls: Vec<Invocation>)
        ensures
            invocations_of(calls@) == open_plan(app_id@, app_name@),
    {
        let calls = vec![
            QbxmlRequestProcessor::open_connection(app_id, app_name),
            QbxmlRequestProcessor::open_connection2(
                app_id,
                app_name,
                SafeVariant::from_string("localQBD"),
            ),
            QbxmlRequestProcessor::open_connection2(
                app_id,
                app_name,
                SafeVariant::from_string("qbLocalQBD"),
            ),
            QbxmlRequestProcessor::open_connection2(
                app_id,
                app_name,
                SafeVariant::from_string("LocalQBD"),
            ),
            QbxmlRequestProcessor::open_connection2(app_id, app_name, SafeVariant::from_i32(1)),
            QbxmlRequestProcessor::open_connection2(app_id, app_name, SafeVariant::from_i32(0)),
            QbxmlRequestProcessor::open_connection2(app_id, app_name, SafeVariant::from_i32(2)),
            QbxmlRequestProcessor::open_connection2(app_id, app_name, SafeVariant::from_i32(-1)),
        ];
        calls
    }

    fn begin_calls(fallbacks: &Vec<SessionAttempt>) -> (calls: Vec<Invocation>)
        ensures
            invocations_of(calls@) == begin_plan(attempts_of(fallbacks@)),
    {
        let mut calls: Vec<Invocation> = Vec::new();
        let mut i: usize = 0;
        while i < fallbacks.len()
            invariant
                i <= fallbacks@.len(),
                calls@.len() == i,
                forall|j: int|
                    0 <= j < i ==> calls@[j]@ == spec_begin_session(
                        fallbacks@[j].company_file@,
                        fallbacks@[j].file_mode,
                    ),
            decreases fallbacks@.len() - i,
        {
            calls.push(
                QbxmlRequestProcessor::begin_session(
                    fallbacks[i].company_file.as_str(),
                    fallbacks[i].file_mode,
                ),
            );
            i += 1;
        }
        calls
    }

    /// Starts the selection of a server class; the connection is opened on
    /// the first class that can be instantiated, with `app_id` and
    /// `app_name`.
    pub fn connect(&mut self, app_id: &str, app_name: &str) -> (r: Result<Step, SessionStateError>)
        ensures
            match old(self)@.connect(app_id@, app_name@) {
                Ok((after, step)) => r is Ok && final(self)@ == after && r->Ok_0@ == step,
                Err(e) => r == Err::<Step, SessionStateError>(e) && final(self)@ == old(self)@,
            },
    {
        if self.pending != Pending::Idle {
            return Err(SessionStateError::Busy);
        }
        if self.state != LifecycleState::Disconnected || self.connection.is_some() {
            return Err(SessionStateError::AlreadyConnected);
        }
        self.failures = Vec::new();
        if self.candidates.len() == 0 {
            let step = self.finish(
                Outcome::Failed {
                    error: LifecycleError::CandidateExhausted { causes: Vec::new() },
                },
            );
            return Ok(step);
        }
        self.alternates = Self::open_calls(app_id, app_name);
        self.pending = Pending::Instantiating { candidate: 0 };
        Ok(Step::Instantiate { candidate: 0 })
    }

    /// Begins a session on `company_file` in `file_mode`; if the server
    /// refuses, each of `fallbacks` is tried in turn.
    pub fn begin_session(
        &mut self,
        company_file: &str,
        file_mode: FileMode,
        fallbacks: &Vec<SessionAttempt>,
    ) -> (r: Result<Step, SessionStateError>)
        ensures
            match old(self)@.begin_session(company_file@, file_mode, attempts_of(fallbacks@)) {
                Ok((after, step)) => r is Ok && final(self)@ == after && r->Ok_0@ == step,
                Err(e) => r == Err::<Step, SessionStateError>(e) && final(self)@ == old(self)@,
            },
    {
        if self.ticket.is_some() || self.state == LifecycleState::SessionActive {
            return Err(SessionStateError::SessionActive);
        }
        if self.pending != Pending::Idle {
            return Err(SessionStateError::Busy);
        }
        if self.state != LifecycleState::Connected {
            return Err(SessionStateError::NotConnected);
        }
        match self.connection {
            Some(handle) => {
                self.alternates = Self::begin_calls(fallbacks);
                self.pending = Pending::Beginning;
                Ok(
                    Step::Invoke {
                        object: handle.object,
                        call: QbxmlRequestProcessor::begin_session(company_file, file_mode),
                    },
                )
            },
            None => Err(SessionStateError::NotConnected),
        }
    }

    /// Submits `request` under the session's ticket.
    pub fn process_request(&mut self, request: &str) -> (r: Result<Step, SessionStateError>)
        ensures
            match old(self)@.process_request(request@) {
                Ok((after, step)) => r is Ok && final(self)@ == after && r->Ok_0@ == step,
                Err(e) => r == Err::<Step, SessionStateError>(e) && final(self)@ == old(self)@,
            },
    {
        if self.pending != Pending::Idle {
            return Err(SessionStateError::Busy);
        }
        if self.state != LifecycleState::SessionActive {
            return Err(SessionStateError::NoSession);
        }
        match (&self.ticket, self.connection) {
            (Some(ticket), Some(handle)) => {
                let call = QbxmlRequestProcessor::process_request(ticket.as_str(), request);
                self.pending = Pending::Requesting;
                Ok(Step::Invoke { object: handle.object, call })
            },
            _ => Err(SessionStateError::NoSession),
        }
    }

    /// Asks for the name of the company file of the session.
    pub fn get_current_company_file_name(&mut self) -> (r: Result<Step, SessionStateError>)
        ensures
            match old(self)@.get_current_company_file_name() {
                Ok((after, step)) => r is Ok && final(self)@ == after && r->Ok_0@ == step,
                Err(e) => r == Err::<Step, SessionStateError>(e) && final(self)@ == old(self)@,
            },
    {
        if self.pending != Pending::Idle {
            return Err(SessionStateError::Busy);
        }
        if self.state != LifecycleState::SessionActive {
            return Err(SessionStateError::NoSession);
        }
        match (&self.ticket, self.connection) {
            (Some(ticket), Some(handle)) => {
                let call = QbxmlRequestProcessor::get_current_company_file_name(ticket.as_str());
                self.pending = Pending::Requesting;
                Ok(Step::Invoke { object: handle.object, call })
            },
            _ => Err(SessionStateError::NoSession),
        }
    }

    /// Ends the session. The ticket is no longer valid from here on,
    /// whether or not the server accepts the call.
    pub fn end_session(&mut self) -> (r: Result<Step, SessionStateError>)
        ensures
            match old(self)@.end_session() {
                Ok((after, step)) => r is Ok && final(self)@ == after && r->Ok_0@ == step,
                Err(e) => r == Err::<Step, SessionStateError>(e) && final(self)@ == old(self)@,
            },
    {
        if self.pending != Pending::Idle {
            return Err(SessionStateError::Busy);
        }
        if self.state != LifecycleState::SessionActive {
            return Err(SessionStateError::NoSession);
        }
        match (&self.ticket, self.connection) {
            (Some(ticket), Some(handle)) => {
                let call = QbxmlRequestProcessor::end_session(ticket.as_str());
                self.ticket = None;
                self.state = LifecycleState::Ended;
                self.pending = Pending::Ending;
                Ok(Step::Invoke { object: handle.object, call })
            },
            _ => Err(SessionStateError::NoSession),
        }
    }

    /// Closes the connection. The server object is given up however the
    /// call ends.
    pub fn close_connection(&mut self) -> (r: Result<Step, SessionStateError>)
        ensures
            match old(self)@.close_connection() {
                Ok((after, step)) => r is Ok && final(self)@ == after && r->Ok_0@ == step,
                Err(e) => r == Err::<Step, SessionStateError>(e) && final(self)@ == old(self)@,
            },
    {
        if self.pending != Pending::Idle {
            return Err(SessionStateError::Busy);
        }
        if self.ticket.is_some() || self.state == LifecycleState::SessionActive {
            return Err(SessionStateError::SessionActive);
        }
        match self.connection {
            Some(handle) => {
                self.pending = Pending::Closing;
                Ok(
                    Step::Invoke {
                        object: handle.object,
                        call: QbxmlRequestProcessor::close_connection(),
                    },
                )
            },
            None => Err(SessionStateError::NotConnected),
        }
    }

    fn teardown_close(&mut self) -> (step: Step)
        ensures
            (final(self)@, step@) == old(self)@.teardown_close(),
    {
        match self.connection {
            Some(handle) => {
                self.pending = Pending::TeardownClosing;
                self.alternates = Vec::new();
                assert(self@.alternates =~= Seq::<InvocationView>::empty());
                Step::Invoke {
                    object: handle.object,
                    call: QbxmlRequestProcessor::close_connection(),
                }
            },
            None => {
                self.state = LifecycleState::Disconnected;
                self.finish(Outcome::Disconnected)
            },
        }
    }

    /// Cleans up whatever is held: ends the session if there is a ticket,
    /// then closes the connection if there is a server object. Errors on
    /// the way are kept for the log and do not stop the cleanup. An
    /// operation that is in flight is given up.
    pub fn teardown(&mut self) -> (step: Step)
        ensures
            (final(self)@, step@) == old(self)@.teardown(),
    {
        match (&self.ticket, self.connection) {
            (Some(ticket), Some(handle)) => {
                let call = QbxmlRequestProcessor::end_session(ticket.as_str());
                self.ticket = None;
                self.state = LifecycleState::Ended;
                self.pending = Pending::TeardownEnding;
                self.alternates = Vec::new();
                assert(self@.alternates =~= Seq::<InvocationView>::empty());
                Step::Invoke { object: handle.object, call }
            },
            _ => {
                self.ticket = None;
                if self.state == LifecycleState::SessionActive {
                    self.state = LifecycleState::Ended;
                }
                self.teardown_close()
            },
        }
    }

    fn instantiated(&mut self, candidate: usize, object: u64) -> (step: Step)
        ensures
            (final(self)@, step@) == old(self)@.instantiated(candidate, object),
    {
        self.connection = Some(ConnectionHandle { candidate, object });
        self.pending = Pending::Opening;
        if self.alternates.len() > 0 {
            self.next_alternate(object)
        } else {
            self.state = LifecycleState::Connected;
            self.finish(Outcome::Connected { candidate })
        }
    }

    fn instantiate_failed(&mut self, candidate: usize, status: i32) -> (step: Step)
        ensures
            (final(self)@, step@) == old(self)@.instantiate_failed(candidate, status),
    {
        self.failures.push(CandidateFailure { candidate, status });
        let count = self.candidates.len();
        if candidate < usize::MAX && candidate + 1 < count {
            self.pending = Pending::Instantiating { candidate: candidate + 1 };
            Step::Instantiate { candidate: candidate + 1 }
        } else {
            let causes = copy_failures(&self.failures);
            self.finish(Outcome::Failed { error: LifecycleError::CandidateExhausted { causes } })
        }
    }

    fn disconnect(&mut self)
        ensures
            final(self)@ == (LifecycleView {
                state: LifecycleState::Disconnected,
                connection: None,
                ..old(self)@
            }),
    {
        self.state = LifecycleState::Disconnected;
        self.connection = None;
    }

    fn returned(&mut self, value: SafeVariant) -> (step: Step)
        ensures
            (final(self)@, step@) == old(self)@.returned(value@),
    {
        match self.pending {
            Pending::Opening => match self.connection {
                Some(handle) => {
                    self.state = LifecycleState::Connected;
                    self.finish(Outcome::Connected { candidate: handle.candidate })
                },
                None => self.unexpected(),
            },
            Pending::Beginning => match value {
                SafeVariant::String(ticket) => {
                    self.state = LifecycleState::SessionActive;
                    self.ticket = Some(ticket);
                    self.finish(Outcome::SessionStarted)
                },
                other => {
                    let found = other.tag();
                    self.finish(
                        Outcome::Failed {
                            error: LifecycleError::TypeMismatch(
                                TypeMismatch { expected: VariantTag::String, found },
                            ),
                        },
                    )
                },
            },
            Pending::Requesting => self.finish(Outcome::Response { payload: value }),
            Pending::Ending => self.finish(Outcome::SessionEnded),
            Pending::Closing => {
                self.disconnect();
                self.finish(Outcome::Disconnected)
            },
            Pending::TeardownEnding => self.teardown_close(),
            Pending::TeardownClosing => {
                self.disconnect();
                self.finish(Outcome::Disconnected)
            },
            _ => self.unexpected(),
        }
    }

    fn swallow(&mut self, error: InvokeError)
        ensures
            final(self)@ == (LifecycleView {
                swallowed: old(self)@.swallowed.push(error@),
                ..old(self)@
            }),
    {
        self.swallowed.push(error);
        assert(self@.swallowed =~= old(self)@.swallowed.push(error@));
    }

    fn call_failed(&mut self, error: InvokeError) -> (step: Step)
        ensures
            (final(self)@, step@) == old(self)@.call_failed(error@),
    {
        match self.pending {
            Pending::Opening | Pending::Beginning => match self.connection {
                Some(handle) => if self.alternates.len() > 0 {
                    self.next_alternate(handle.object)
                } else {
                    self.finish(Outcome::Failed { error: LifecycleError::Invocation(error) })
                },
                None => self.finish(
                    Outcome::Failed { error: LifecycleError::Invocation(error) },
                ),
            },
            Pending::Requesting | Pending::Ending => self.finish(
                Outcome::Failed { error: LifecycleError::Invocation(error) },
            ),
            Pending::Closing => {
                self.disconnect();
                self.finish(Outcome::Failed { error: LifecycleError::Invocation(error) })
            },
            Pending::TeardownEnding => {
                self.swallow(error);
                self.teardown_close()
            },
            Pending::TeardownClosing => {
                self.swallow(error);
                self.disconnect();
                self.finish(Outcome::Disconnected)
            },
            _ => self.unexpected(),
        }
    }

    /// Tells the lifecycle what came of the last step, and gives the
    /// next one.
    pub fn advance(&mut self, event: Event) -> (step: Step)
        ensures
            (final(self)@, step@) == old(self)@.advance(event@),
    {
        match self.pending {
            Pending::Idle => self.unexpected(),
            Pending::Instantiating { candidate } => match event {
                Event::Instantiated { object } => if object != 0 {
                    self.instantiated(candidate, object)
                } else {
                    self.instantiate_failed(candidate, 0)
                },
                Event::InstantiateFailed { status } => self.instantiate_failed(candidate, status),
                _ => self.unexpected(),
            },
            _ => match event {
                Event::Returned { value } => self.returned(value),
                Event::Failed { error } => self.call_failed(error),
                _ => self.unexpected(),
            },
        }
    }
}

/// The order in which file-open modes are tried for a configured
/// connection mode: multi-user first where the configuration says
/// `multi-user`, single-user first otherwise; "do not care" second; the
/// remaining mode last.
pub open spec fn preferred_modes(connection_mode: Option<Seq<char>>) -> Seq<FileMode> {
    if connection_mode == Some("multi-user"@) {
        seq![FileMode::MultiUser, FileMode::DoNotCare, FileMode::SingleUser]
    } else {
        seq![FileMode::SingleUser, FileMode::DoNotCare, FileMode::MultiUser]
    }
}

/// The ways to begin a session, in the order in which they are tried:
/// the file the server has open in each preferred mode, then the
/// configured file in each preferred mode.
pub open spec fn spec_begin_session_attempts(
    company_file: Seq<char>,
    connection_mode: Option<Seq<char>>,
) -> Seq<(Seq<char>, FileMode)> {
    let modes = preferred_modes(connection_mode);
    seq![
        (Seq::<char>::empty(), modes[0]),
        (Seq::<char>::empty(), modes[1]),
        (Seq::<char>::empty(), modes[2]),
        (company_file, modes[0]),
        (company_file, modes[1]),
        (company_file, modes[2]),
    ]
}

/// The ways to begin a session for a configured company file and
/// connection mode, in the order in which they are to be tried.
pub fn begin_session_attempts(company_file: &str, connection_mode: Option<&str>) -> (attempts: Vec<
    SessionAttempt,
>)
    ensures
        attempts_of(attempts@) == spec_begin_session_attempts(
            company_file@,
            match connection_mode {
                Some(mode) => Some(mode@),
                None => None,
            },
        ),
{
    let multi_first = match connection_mode {
        Some(mode) => crate::text::str_eq(mode, "multi-user"),
        None => false,
    };
    let (first, last) = if multi_first {
        (FileMode::MultiUser, FileMode::SingleUser)
    } else {
        (FileMode::SingleUser, FileMode::MultiUser)
    };
    let attempts = vec![
        SessionAttempt { company_file: String::new(), file_mode: first },
        SessionAttempt { company_file: String::new(), file_mode: FileMode::DoNotCare },
        SessionAttempt { company_file: String::new(), file_mode: last },
        SessionAttempt { company_file: company_file.to_owned(), file_mode: first },
        SessionAttempt { company_file: company_file.to_owned(), file_mode: FileMode::DoNotCare },
        SessionAttempt { company_file: company_file.to_owned(), file_mode: last },
    ];
    attempts
}

/// The session manager classes, the newest first.
pub open spec fn session_manager_classes() -> Seq<Seq<char>> {
    seq![
        "QBFC16.QBSessionManager"@,
        "QBFC15.QBSessionManager"@,
        "QBFC14.QBSessionManager"@,
        "QBFC13.QBSessionManager"@,
    ]
}

/// The request processor classes.
pub open spec fn request_processor_classes() -> Seq<Seq<char>> {
    seq!["QBXMLRP2.RequestProcessor"@]
}

/// The session manager family of server classes.
pub struct RequestProcessor2;

impl RequestProcessor2 {
    /// A lifecycle that selects among the session manager classes, the
    /// newest first.
    pub fn new() -> (lifecycle: ConnectionLifecycle)
        ensures
            lifecycle@ == LifecycleView::initial(session_manager_classes()),
            lifecycle@.wf(),
    {
        let candidates = vec![
            "QBFC16.QBSessionManager".to_owned(),
            "QBFC15.QBSessionManager".to_owned(),
            "QBFC14.QBSessionManager".to_owned(),
            "QBFC13.QBSessionManager".to_owned(),
        ];
        assert(texts_of(candidates@) =~= session_manager_classes());
        ConnectionLifecycle::new(candidates)
    }
}

impl QbxmlRequestProcessor {
    /// A lifecycle for the request processor class.
    pub fn new() -> (lifecycle: ConnectionLifecycle)
        ensures
            lifecycle@ == LifecycleView::initial(request_processor_classes()),
            lifecycle@.wf(),
    {
        let candidates = vec!["QBXMLRP2.RequestProcessor".to_owned()];
        assert(texts_of(candidates@) =~= request_processor_classes());
        ConnectionLifecycle::new(candidates)
    }
}

} // verus!
