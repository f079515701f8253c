//! What holds of every run of the connection lifecycle, proved over its
//! mathematical model.

use crate::dispatch::{marshaled, InvocationView, InvokeErrorView};
use crate::file_mode::FileMode;
use crate::lifecycle::{
    begin_plan, ConnectionHandle, EventView, LifecycleErrorView, LifecycleState, LifecycleView,
    OutcomeView, Pending, SessionStateError, StepView,
};
use crate::protocol::{
    spec_begin_session, spec_close_connection, spec_end_session, spec_selector,
};
use crate::safe_variant::{encode, VariantValue, VT_BSTR, VT_I4};
use vstd::prelude::*;

verus! {

/// Whether `event` tells how a call ended.
pub open spec fn is_call_event(event: EventView) -> bool {
    event is Returned || event is Failed
}

/// The lifecycle after it was told `events` one by one, and the steps it
/// gave on the way.
pub open spec fn run(v: LifecycleView, events: Seq<EventView>) -> (LifecycleView, Seq<StepView>)
    decreases events.len(),
{
    if events.len() == 0 {
        (v, Seq::empty())
    } else {
        let (next, step) = v.advance(events[0]);
        let (last, steps) = run(next, events.drop_first());
        (last, seq![step] + steps)
    }
}

/// A selection in which the candidates fail with `statuses`, one after the
/// other, and the next one is instantiated as `object`.
pub open spec fn failures_then_success(statuses: Seq<i32>, object: u64) -> Seq<EventView> {
    Seq::new(
        statuses.len() + 1,
        |i: int|
            if i < statuses.len() {
                EventView::InstantiateFailed { status: statuses[i] }
            } else {
                EventView::Instantiated { object }
            },
    )
}

/// A selection in which every candidate fails, with `statuses`.
pub open spec fn all_failures(statuses: Seq<i32>) -> Seq<EventView> {
    Seq::new(statuses.len(), |i: int| EventView::InstantiateFailed { status: statuses[i] })
}

/// A call and each of its alternates fail, with `errors`.
pub open spec fn call_failures(errors: Seq<InvokeErrorView>) -> Seq<EventView> {
    Seq::new(errors.len(), |i: int| EventView::Failed { error: errors[i] })
}

/// A lifecycle that has done nothing yet is well formed.
pub proof fn lemma_initial_is_well_formed(candidates: Seq<Seq<char>>)
    requires
        candidates.len() <= usize::MAX,
    ensures
        LifecycleView::initial(candidates).wf(),
{
}

/// Every operation keeps a well-formed lifecycle well formed: at most one
/// server object is held at a time, a ticket is held exactly while a
/// session is active, and a session is only ever active on an open
/// connection.
pub proof fn lemma_operations_keep_well_formed(
    v: LifecycleView,
    app_id: Seq<char>,
    app_name: Seq<char>,
    company_file: Seq<char>,
    file_mode: FileMode,
    fallbacks: Seq<(Seq<char>, FileMode)>,
    request: Seq<char>,
    event: EventView,
)
    requires
        v.wf(),
    ensures
        v.connect(app_id, app_name) matches Ok((after, _)) ==> after.wf(),
        v.begin_session(company_file, file_mode, fallbacks) matches Ok((after, _)) ==> after.wf(),
        v.process_request(request) matches Ok((after, _)) ==> after.wf(),
        v.get_current_company_file_name() matches Ok((after, _)) ==> after.wf(),
        v.end_session() matches Ok((after, _)) ==> after.wf(),
        v.close_connection() matches Ok((after, _)) ==> after.wf(),
        v.teardown().0.wf(),
        v.advance(event).0.wf(),
{
}

/// While the selection runs, a candidate that cannot be instantiated is
/// followed by the next one in the list; after the last one the selection
/// ends with the cause of every attempt, and the lifecycle stays
/// disconnected.
pub proof fn lemma_failed_candidate_is_followed_by_the_next(
    v: LifecycleView,
    candidate: usize,
    status: i32,
)
    requires
        v.wf(),
        v.pending == (Pending::Instantiating { candidate }),
    ensures
        ({
            let (after, step) = v.advance(EventView::InstantiateFailed { status });
            if candidate + 1 < v.candidates.len() {
                &&& step == StepView::Instantiate { candidate: (candidate + 1) as usize }
                &&& after.pending == Pending::Instantiating { candidate: (candidate + 1) as usize }
                &&& after.connection is None
            } else {
                &&& step matches StepView::Done {
                    outcome: OutcomeView::Failed {
                        error: LifecycleErrorView::CandidateExhausted { causes },
                    },
                }
                &&& causes.len() == v.candidates.len()
                &&& causes == after.failures
                &&& forall|i: int| 0 <= i < candidate ==> causes[i] == v.failures[i]
                &&& causes[candidate as int].status == status
                &&& after.state == LifecycleState::Disconnected
                &&& after.connection is None
                &&& after.pending == Pending::Idle
            }
        }),
{
}

/// Candidates are tried in the order of the list, the first one that can
/// be instantiated becomes the connection, and none after it is tried:
/// told of failures for the candidates `c`, `c + 1`, ... and then of a
/// success, the lifecycle asked for exactly those candidates and the one
/// that succeeded, and then went on to open the connection on it.
pub proof fn lemma_first_success_is_selected(
    v: LifecycleView,
    candidate: usize,
    statuses: Seq<i32>,
    object: u64,
)
    requires
        v.wf(),
        v.pending == (Pending::Instantiating { candidate }),
        candidate + statuses.len() < v.candidates.len(),
        object != 0,
    ensures
        ({
            let (after, steps) = run(v, failures_then_success(statuses, object));
            &&& steps.len() == statuses.len() + 1
            &&& forall|i: int|
                0 <= i < statuses.len() ==> #[trigger] steps[i] == StepView::Instantiate {
                    candidate: (candidate + i + 1) as usize,
                }
            &&& !(steps.last() is Instantiate)
            &&& !(after.pending is Instantiating)
            &&& after.connection == Some(
                ConnectionHandle { candidate: (candidate + statuses.len()) as usize, object },
            )
            &&& after.wf()
        }),
    decreases statuses.len(),
{
    let events = failures_then_success(statuses, object);
    if statuses.len() == 0 {
        let (next, step) = v.advance(events[0]);
        assert(events.drop_first() =~= Seq::<EventView>::empty());
        assert(run(next, events.drop_first()).1 =~= Seq::<StepView>::empty());
        assert(run(v, events).1 =~= seq![step]);
    } else {
        let (next, step) = v.advance(events[0]);
        let rest = statuses.drop_first();
        assert(events.drop_first() =~= failures_then_success(rest, object));
        lemma_first_success_is_selected(next, (candidate + 1) as usize, rest, object);
        let (after, steps) = run(next, failures_then_success(rest, object));
        assert(run(v, events).1 =~= seq![step] + steps);
        assert forall|i: int| 0 <= i < statuses.len() implies #[trigger] run(v, events).1[i]
            == (StepView::Instantiate { candidate: (candidate + i + 1) as usize }) by {
            if i > 0 {
                assert(run(v, events).1[i] == steps[i - 1]);
            }
        }
        assert(run(v, events).1.last() == steps.last());
    }
}

/// Where every candidate fails, each was tried once, in order, the
/// lifecycle stays disconnected, and the error holds the cause of each
/// attempt.
pub proof fn lemma_exhausted_selection_reports_every_cause(
    v: LifecycleView,
    candidate: usize,
    statuses: Seq<i32>,
)
    requires
        v.wf(),
        v.pending == (Pending::Instantiating { candidate }),
        candidate + statuses.len() == v.candidates.len(),
    ensures
        ({
            let (after, steps) = run(v, all_failures(statuses));
            &&& steps.len() == statuses.len()
            &&& forall|i: int|
                0 <= i < statuses.len() - 1 ==> #[trigger] steps[i] == StepView::Instantiate {
                    candidate: (candidate + i + 1) as usize,
                }
            &&& steps.last() matches StepView::Done {
                outcome: OutcomeView::Failed {
                    error: LifecycleErrorView::CandidateExhausted { causes },
                },
            }
            &&& causes.len() == v.candidates.len()
            &&& causes == after.failures
            &&& forall|i: int|
                0 <= i < statuses.len() ==> (#[trigger] causes[candidate + i]).status
                    == statuses[i]
            &&& after.state == LifecycleState::Disconnected
            &&& after.connection is None
            &&& after.pending == Pending::Idle
        }),
    decreases statuses.len(),
{
    let events = all_failures(statuses);
    let (next, step) = v.advance(events[0]);
    let rest = statuses.drop_first();
    assert(events.drop_first() =~= all_failures(rest));
    if statuses.len() == 1 {
        assert(run(next, events.drop_first()).1 =~= Seq::<StepView>::empty());
        assert(run(v, events).1 =~= seq![step]);
    } else {
        lemma_exhausted_selection_reports_every_cause(next, (candidate + 1) as usize, rest);
        let (after, steps) = run(next, all_failures(rest));
        assert(run(v, events).1 =~= seq![step] + steps);
        assert forall|i: int| 0 <= i < statuses.len() - 1 implies #[trigger] run(v, events).1[i]
            == (StepView::Instantiate { candidate: (candidate + i + 1) as usize }) by {
            if i > 0 {
                assert(run(v, events).1[i] == steps[i - 1]);
            }
        }
        assert(run(v, events).1.last() == steps.last());
        let causes = steps.last()->Done_outcome->Failed_error->CandidateExhausted_causes;
        assert forall|i: int| 0 <= i < statuses.len() implies (#[trigger] causes[candidate
            + i]).status == statuses[i] by {
            if i > 0 {
                assert(causes[(candidate + 1) + (i - 1)].status == rest[i - 1]);
            } else {
                assert(next.failures[candidate as int].status == statuses[0]);
                lemma_failures_are_kept(next, all_failures(rest), candidate as int);
            }
        }
    }
}

/// The failures noted so far stay as they are while the selection goes
/// on.
proof fn lemma_failures_are_kept(v: LifecycleView, events: Seq<EventView>, index: int)
    requires
        v.wf(),
        v.pending is Instantiating,
        0 <= index < v.failures.len(),
        forall|i: int| 0 <= i < events.len() ==> #[trigger] events[i] is InstantiateFailed,
    ensures
        run(v, events).0.failures.len() > index,
        run(v, events).0.failures[index] == v.failures[index],
    decreases events.len(),
{
    if events.len() > 0 {
        let (next, step) = v.advance(events[0]);
        assert(events[0] is InstantiateFailed);
        if next.pending is Instantiating {
            assert forall|i: int| 0 <= i < events.drop_first().len() implies (
            #[trigger] events.drop_first()[i]) is InstantiateFailed by {
                assert(events[i + 1] is InstantiateFailed);
            }
            lemma_failures_are_kept(next, events.drop_first(), index);
        } else {
            lemma_idle_ignores_events(next, events.drop_first());
        }
    }
}

/// A lifecycle with nothing in flight changes under no event.
proof fn lemma_idle_ignores_events(v: LifecycleView, events: Seq<EventView>)
    requires
        v.pending == Pending::Idle,
    ensures
        run(v, events).0 == v,
    decreases events.len(),
{
    if events.len() > 0 {
        lemma_idle_ignores_events(v, events.drop_first());
    }
}

/// Outside a selection no event makes the lifecycle ask for a candidate,
/// whatever it is told and however often: once a server object is chosen,
/// the candidates after it are never tried.
pub proof fn lemma_no_candidate_is_tried_outside_a_selection(
    v: LifecycleView,
    events: Seq<EventView>,
)
    requires
        !(v.pending is Instantiating),
    ensures
        run(v, events).1.len() == events.len(),
        forall|i: int| 0 <= i < events.len() ==> !(#[trigger] run(v, events).1[i] is Instantiate),
        !(run(v, events).0.pending is Instantiating),
    decreases events.len(),
{
    if events.len() > 0 {
        let (next, step) = v.advance(events[0]);
        lemma_no_candidate_is_tried_outside_a_selection(next, events.drop_first());
        let (last, steps) = run(next, events.drop_first());
        assert(run(v, events).1 =~= seq![step] + steps);
        assert forall|i: int| 0 <= i < events.len() implies !(#[trigger] run(v, events).1[i]
            is Instantiate) by {
            if i > 0 {
                assert(run(v, events).1[i] == steps[i - 1]);
            }
        }
    }
}

/// A selection can only start where no server object is held.
pub proof fn lemma_connect_is_refused_while_connected(
    v: LifecycleView,
    app_id: Seq<char>,
    app_name: Seq<char>,
)
    requires
        v.connection is Some,
    ensures
        v.connect(app_id, app_name) is Err,
{
}

/// Where a call and all its alternates fail, each alternate was tried
/// once, in order, the last failure is reported, and the lifecycle stands
/// where it stood before the operation: neither state nor ticket nor
/// connection changed.
pub proof fn lemma_failed_attempts_change_nothing(v: LifecycleView, errors: Seq<InvokeErrorView>)
    requires
        v.wf(),
        v.pending == Pending::Opening || v.pending == Pending::Beginning,
        errors.len() == v.alternates.len() + 1,
    ensures
        ({
            let (after, steps) = run(v, call_failures(errors));
            &&& steps.len() == errors.len()
            &&& forall|i: int|
                0 <= i < v.alternates.len() ==> #[trigger] steps[i] == StepView::Invoke {
                    object: v.connection->0.object,
                    call: v.alternates[i],
                }
            &&& steps.last() == StepView::Done {
                outcome: OutcomeView::Failed {
                    error: LifecycleErrorView::Invocation(errors.last()),
                },
            }
            &&& after.pending == Pending::Idle
            &&& after.state == v.state
            &&& after.ticket == v.ticket
            &&& after.connection == v.connection
            &&& after.wf()
        }),
    decreases errors.len(),
{
    let events = call_failures(errors);
    let (next, step) = v.advance(events[0]);
    let rest = errors.drop_first();
    assert(events.drop_first() =~= call_failures(rest));
    if errors.len() == 1 {
        assert(run(next, events.drop_first()).1 =~= Seq::<StepView>::empty());
        assert(run(v, events).1 =~= seq![step]);
    } else {
        assert(next.alternates =~= v.alternates.drop_first());
        lemma_failed_attempts_change_nothing(next, rest);
        let (after, steps) = run(next, call_failures(rest));
        assert(run(v, events).1 =~= seq![step] + steps);
        assert forall|i: int| 0 <= i < v.alternates.len() implies #[trigger] run(v, events).1[i]
            == (StepView::Invoke { object: v.connection->0.object, call: v.alternates[i] }) by {
            if i > 0 {
                assert(run(v, events).1[i] == steps[i - 1]);
                assert(next.alternates[i - 1] == v.alternates[i]);
            }
        }
        assert(run(v, events).1.last() == steps.last());
        assert(errors.last() == rest.last());
    }
}

/// Cleanup makes exactly these calls, in this order, whatever the server
/// answers: "end session" with the ticket if one is held, then "close
/// connection" if a server object is held. After the last answer nothing
/// is held any more.
pub proof fn lemma_teardown_ends_then_closes(v: LifecycleView, first: EventView, second: EventView)
    requires
        v.wf(),
        is_call_event(first),
        is_call_event(second),
    ensures
        ({
            let (torn, step) = v.teardown();
            match (v.ticket, v.connection) {
                (Some(ticket), Some(handle)) => {
                    let (ended, then) = torn.advance(first);
                    let (closed, last) = ended.advance(second);
                    &&& step == StepView::Invoke {
                        object: handle.object,
                        call: spec_end_session(ticket),
                    }
                    &&& torn.ticket is None
                    &&& then == StepView::Invoke {
                        object: handle.object,
                        call: spec_close_connection(),
                    }
                    &&& last == StepView::Done { outcome: OutcomeView::Disconnected }
                    &&& closed.state == LifecycleState::Disconnected
                    &&& closed.connection is None
                    &&& closed.ticket is None
                    &&& closed.pending == Pending::Idle
                },
                (None, Some(handle)) => {
                    let (closed, last) = torn.advance(first);
                    &&& step == StepView::Invoke {
                        object: handle.object,
                        call: spec_close_connection(),
                    }
                    &&& last == StepView::Done { outcome: OutcomeView::Disconnected }
                    &&& closed.state == LifecycleState::Disconnected
                    &&& closed.connection is None
                    &&& closed.ticket is None
                    &&& closed.pending == Pending::Idle
                },
                (_, None) => {
                    &&& step == StepView::Done { outcome: OutcomeView::Disconnected }
                    &&& torn.state == LifecycleState::Disconnected
                    &&& torn.connection is None
                    &&& torn.ticket is None
                    &&& torn.pending == Pending::Idle
                },
            }
        }),
{
}

/// If "begin session" fails on an open connection, with every fallback,
/// cleanup calls "close connection" once and "end session" not at all:
/// there is no ticket to end.
pub proof fn lemma_teardown_after_failed_begin(
    v: LifecycleView,
    company_file: Seq<char>,
    file_mode: FileMode,
    fallbacks: Seq<(Seq<char>, FileMode)>,
    errors: Seq<InvokeErrorView>,
    answer: EventView,
)
    requires
        v.wf(),
        v.pending == Pending::Idle,
        v.state == LifecycleState::Connected,
        errors.len() == fallbacks.len() + 1,
        is_call_event(answer),
    ensures
        v.begin_session(company_file, file_mode, fallbacks) is Ok,
        ({
            let (begun, _) = v.begin_session(company_file, file_mode, fallbacks)->Ok_0;
            let (failed, _) = run(begun, call_failures(errors));
            let (torn, step) = failed.teardown();
            let (closed, last) = torn.advance(answer);
            &&& failed.ticket is None
            &&& failed.state == LifecycleState::Connected
            &&& step == StepView::Invoke {
                object: v.connection->0.object,
                call: spec_close_connection(),
            }
            &&& last == StepView::Done { outcome: OutcomeView::Disconnected }
            &&& closed.connection is None
            &&& closed.state == LifecycleState::Disconnected
        }),
{
    let (begun, _) = v.begin_session(company_file, file_mode, fallbacks)->Ok_0;
    lemma_failed_attempts_change_nothing(begun, errors);
}

/// "Begin session" is always called with the company-file selector first
/// and the file-open mode second: in the first attempt and in every
/// fallback, for every selector and every mode. The wire parameter block
/// holds them in that order too, a string and then an integer.
pub proof fn lemma_begin_session_argument_order(
    v: LifecycleView,
    company_file: Seq<char>,
    file_mode: FileMode,
    fallbacks: Seq<(Seq<char>, FileMode)>,
)
    requires
        v.begin_session(company_file, file_mode, fallbacks) is Ok,
    ensures
        ({
            let (begun, step) = v.begin_session(company_file, file_mode, fallbacks)->Ok_0;
            &&& step matches StepView::Invoke { call, .. }
            &&& is_begin_session_of(call, company_file, file_mode)
            &&& begun.alternates.len() == fallbacks.len()
            &&& forall|k: int|
                0 <= k < fallbacks.len() ==> is_begin_session_of(
                    #[trigger] begun.alternates[k],
                    fallbacks[k].0,
                    fallbacks[k].1,
                )
        }),
{
    assert forall|k: int| 0 <= k < fallbacks.len() implies is_begin_session_of(
        #[trigger] begin_plan(fallbacks)[k],
        fallbacks[k].0,
        fallbacks[k].1,
    ) by {
        lemma_begin_session_call(fallbacks[k].0, fallbacks[k].1);
    }
    lemma_begin_session_call(company_file, file_mode);
}

/// Whether `call` is "begin session" with the selector of `company_file`
/// as its first argument and the number of `file_mode` as its second, and
/// is marshaled in that order.
pub open spec fn is_begin_session_of(
    call: InvocationView,
    company_file: Seq<char>,
    file_mode: FileMode,
) -> bool {
    &&& call.method == "BeginSession"@
    &&& call.args.len() == 2
    &&& call.args[0] == VariantValue::Text(spec_selector(company_file))
    &&& call.args[1] == VariantValue::Int32(file_mode.spec_code())
    &&& marshaled(call.args).len() == 2
    &&& marshaled(call.args)[0] == encode(VariantValue::Text(spec_selector(company_file)))
    &&& marshaled(call.args)[0].vt == VT_BSTR
    &&& marshaled(call.args)[1] == encode(VariantValue::Int32(file_mode.spec_code()))
    &&& marshaled(call.args)[1].vt == VT_I4
}

/// The "begin session" call of the interface has its arguments in the
/// declared order.
pub proof fn lemma_begin_session_call(company_file: Seq<char>, file_mode: FileMode)
    ensures
        is_begin_session_of(spec_begin_session(company_file, file_mode), company_file, file_mode),
{
}

/// A second "begin session" on a connection that holds a valid ticket is
/// refused, whatever file and mode it asks for; the lifecycle hands out no
/// call for it.
pub proof fn lemma_second_session_is_refused(
    v: LifecycleView,
    company_file: Seq<char>,
    file_mode: FileMode,
    fallbacks: Seq<(Seq<char>, FileMode)>,
)
    requires
        v.ticket is Some,
    ensures
        v.begin_session(company_file, file_mode, fallbacks) == Err::<
            (LifecycleView, StepView),
            SessionStateError,
        >(SessionStateError::SessionActive),
{
}

/// Once "end session" is handed out the ticket is gone, whether the
/// server accepts the call or not, and a request that needs a ticket is
/// refused from then on.
pub proof fn lemma_end_session_invalidates_the_ticket(
    v: LifecycleView,
    answer: EventView,
    request: Seq<char>,
)
    requires
        v.wf(),
        v.end_session() is Ok,
        is_call_event(answer),
    ensures
        ({
            let (ending, step) = v.end_session()->Ok_0;
            let (ended, _) = ending.advance(answer);
            &&& step == StepView::Invoke {
                object: v.connection->0.object,
                call: spec_end_session(v.ticket->0),
            }
            &&& ending.ticket is None
            &&& ending.process_request(request) is Err
            &&& ended.ticket is None
            &&& ended.state == LifecycleState::Ended
            &&& ended.process_request(request) == Err::<
                (LifecycleView, StepView),
                SessionStateError,
            >(SessionStateError::NoSession)
            &&& ended.close_connection() is Ok
        }),
{
}

/// "Close connection" gives up the server object even when "end session"
/// failed before it and even when it fails itself.
pub proof fn lemma_close_always_disconnects(v: LifecycleView, answer: EventView)
    requires
        v.wf(),
        v.close_connection() is Ok,
        is_call_event(answer),
    ensures
        ({
            let (closing, step) = v.close_connection()->Ok_0;
            let (closed, _) = closing.advance(answer);
            &&& step == StepView::Invoke {
                object: v.connection->0.object,
                call: spec_close_connection(),
            }
            &&& closed.state == LifecycleState::Disconnected
            &&& closed.connection is None
            &&& closed.pending == Pending::Idle
        }),
{
}

} // verus!
