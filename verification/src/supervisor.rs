//! The supervisor: sessions without end.
//!
//! The supervisor first makes sure that there is an adapter and that it is
//! ready. From then on it runs one session after the other: whenever an
//! attempt fails it reports the failure and starts the next attempt at
//! once, without a pause and without a limit. Only a missing adapter, or
//! one that does not become ready, makes it give up.

use crate::ident::service_id;
use crate::measurement::decoded;
use crate::session::{broken_stream, lemma_step_asks_pending, pending, readings_of};
use crate::session::{stage_of, transition};
use crate::session::{Command, Event, Outcome, Report, Session, SessionError, Stage};
use vstd::prelude::*;

verus! {

/// Why the supervisor gave up.
#[derive(Debug, PartialEq, Eq)]
pub enum Fatal {
    /// The machine has no adapter.
    AdapterNotFound,
    /// The adapter did not become ready; the text is the transport's account.
    AdapterUnavailable(String),
}

/// An operation that the supervisor asks its caller to perform.
#[derive(Clone, Copy, Debug, PartialEq, Eq)]
pub enum Request {
    /// Look for the machine's default adapter.
    FindAdapter,
    /// Wait until the adapter is ready.
    AwaitAdapter,
    /// Perform a command of the running session.
    Perform(Command),
}

/// What came of a request.
#[derive(Debug, PartialEq, Eq)]
pub enum Input<D> {
    /// Answer to [`Request::FindAdapter`]: whether there is an adapter.
    AdapterFound(bool),
    /// Answer to [`Request::AwaitAdapter`].
    AdapterReady(Result<(), String>),
    /// Answer to [`Request::Perform`]: the event that the command led to.
    Session(Event<D>),
}

/// How a turn left the supervisor.
#[derive(Debug, PartialEq, Eq)]
pub enum Next {
    /// Go on with this request.
    Do(Request),
    /// Give up; no attempt can succeed.
    Exit(Fatal),
}

/// What a turn hands to the caller.
#[derive(Debug, PartialEq, Eq)]
pub struct Turn {
    /// What to tell the user, in this order.
    pub reports: Vec<Report>,
    /// What to do next.
    pub next: Next,
}

/// The supervisor, by what it waits for.
#[derive(Debug, PartialEq, Eq)]
pub enum Supervisor<D> {
    /// Waiting to learn whether there is an adapter.
    FindingAdapter,
    /// Waiting for the adapter to become ready.
    AwaitingAdapter,
    /// Running an attempt.
    Running(Session<D>),
    /// Given up, for this reason.
    Stopped(Fatal),
}

/// A turn as contracts see it.
pub struct Decision<D> {
    /// The supervisor after the turn.
    pub supervisor: Supervisor<D>,
    /// What the turn reports, in order.
    pub reports: Seq<Report>,
    /// Whether the supervisor goes on, and with what.
    pub next: Next,
}

/// The request with which every attempt starts.
pub open spec fn first_request() -> Request {
    Request::Perform(Command::ListConnected { service: service_id() })
}

/// The request that a supervisor waits for an answer to; none once it has given up.
pub open spec fn awaited<D>(supervisor: Supervisor<D>) -> Option<Request> {
    match supervisor {
        Supervisor::FindingAdapter => Some(Request::FindAdapter),
        Supervisor::AwaitingAdapter => Some(Request::AwaitAdapter),
        Supervisor::Running(session) => match pending(session) {
            Some(command) => Some(Request::Perform(command)),
            None => None,
        },
        Supervisor::Stopped(_) => None,
    }
}

/// The turn that starts a new attempt after the reports given.
pub open spec fn restarts<D>(reports: Seq<Report>) -> Decision<D> {
    Decision {
        supervisor: Supervisor::Running(Session::Listing),
        reports,
        next: Next::Do(first_request()),
    }
}

/// The turn that gives up.
pub open spec fn gives_up<D>(fatal: Fatal) -> Decision<D> {
    Decision { supervisor: Supervisor::Stopped(fatal), reports: seq![], next: Next::Exit(fatal) }
}

/// What the supervisor does with an input.
///
/// While an attempt runs, the supervisor hands each event to the session.
/// A failure of the attempt is reported after the reports of the failing
/// step, with the stage that the attempt was in, and the next attempt
/// starts. Before the first attempt, an input
/// that does not answer the awaited request is passed over and the request
/// is made again.
pub open spec fn decision<D>(supervisor: Supervisor<D>, input: Input<D>) -> Decision<D> {
    match (supervisor, input) {
        (Supervisor::FindingAdapter, Input::AdapterFound(found)) => if found {
            Decision {
                supervisor: Supervisor::AwaitingAdapter,
                reports: seq![],
                next: Next::Do(Request::AwaitAdapter),
            }
        } else {
            gives_up(Fatal::AdapterNotFound)
        },
        (Supervisor::FindingAdapter, _) => Decision {
            supervisor: Supervisor::FindingAdapter,
            reports: seq![],
            next: Next::Do(Request::FindAdapter),
        },
        (Supervisor::AwaitingAdapter, Input::AdapterReady(Ok(_))) => restarts(seq![]),
        (Supervisor::AwaitingAdapter, Input::AdapterReady(Err(detail))) => gives_up(
            Fatal::AdapterUnavailable(detail),
        ),
        (Supervisor::AwaitingAdapter, _) => Decision {
            supervisor: Supervisor::AwaitingAdapter,
            reports: seq![],
            next: Next::Do(Request::AwaitAdapter),
        },
        (Supervisor::Running(session), Input::Session(event)) => {
            let step = transition(session, event);
            match step.outcome {
                Outcome::Continue(command) => Decision {
                    supervisor: Supervisor::Running(step.next),
                    reports: step.reports,
                    next: Next::Do(Request::Perform(command)),
                },
                Outcome::Failed(error) => restarts(
                    step.reports.push(
                        Report::ConnectionError { stage: stage_of(session), error },
                    ),
                ),
            }
        },
        (Supervisor::Running(session), _) => restarts(
            seq![
                Report::ConnectionError {
                    stage: stage_of(session),
                    error: SessionError::UnexpectedEvent,
                },
            ],
        ),
        (Supervisor::Stopped(fatal), _) => gives_up(fatal),
    }
}

/// Whether a turn and the supervisor it leaves stand for a decision.
pub open spec fn carries_out<D>(next: Supervisor<D>, turn: Turn, planned: Decision<D>) -> bool {
    &&& next == planned.supervisor
    &&& turn.reports@ =~= planned.reports
    &&& turn.next == planned.next
}

fn same_reason(fatal: &Fatal) -> (result: Fatal)
    ensures
        result == *fatal,
{
    match fatal {
        Fatal::AdapterNotFound => Fatal::AdapterNotFound,
        Fatal::AdapterUnavailable(detail) => Fatal::AdapterUnavailable(detail.clone()),
    }
}

fn restart<D>(reports: Vec<Report>) -> (result: (Supervisor<D>, Turn))
    ensures
        carries_out(result.0, result.1, restarts(reports@)),
{
    let session = Session::new();
    let command = session.pending().unwrap();
    (Supervisor::Running(session), Turn { reports, next: Next::Do(Request::Perform(command)) })
}

fn give_up<D>(fatal: Fatal) -> (result: (Supervisor<D>, Turn))
    ensures
        carries_out(result.0, result.1, gives_up(fatal)),
{
    let reason = same_reason(&fatal);
    (Supervisor::Stopped(fatal), Turn { reports: vec![], next: Next::Exit(reason) })
}

fn decide<D>(supervisor: Supervisor<D>, input: Input<D>) -> (result: (Supervisor<D>, Turn))
    ensures
        carries_out(result.0, result.1, decision(supervisor, input)),
{
    match (supervisor, input) {
        (Supervisor::FindingAdapter, Input::AdapterFound(found)) => {
            if found {
                (
                    Supervisor::AwaitingAdapter,
                    Turn { reports: vec![], next: Next::Do(Request::AwaitAdapter) },
                )
            } else {
                give_up(Fatal::AdapterNotFound)
            }
        },
        (Supervisor::FindingAdapter, _) => (
            Supervisor::FindingAdapter,
            Turn { reports: vec![], next: Next::Do(Request::FindAdapter) },
        ),
        (Supervisor::AwaitingAdapter, Input::AdapterReady(Ok(_))) => restart(vec![]),
        (Supervisor::AwaitingAdapter, Input::AdapterReady(Err(detail))) => give_up(
            Fatal::AdapterUnavailable(detail),
        ),
        (Supervisor::AwaitingAdapter, _) => (
            Supervisor::AwaitingAdapter,
            Turn { reports: vec![], next: Next::Do(Request::AwaitAdapter) },
        ),
        (Supervisor::Running(session), Input::Session(event)) => {
            let mut session = session;
            let stage = session.stage();
            let step = session.step(event);
            let mut reports = step.reports;
            match step.outcome {
                Outcome::Continue(command) => (
                    Supervisor::Running(session),
                    Turn { reports, next: Next::Do(Request::Perform(command)) },
                ),
                Outcome::Failed(error) => {
                    reports.push(Report::ConnectionError { stage, error });
                    restart(reports)
                },
            }
        },
        (Supervisor::Running(session), _) => restart(
            vec![
                Report::ConnectionError {
                    stage: session.stage(),
                    error: SessionError::UnexpectedEvent,
                },
            ],
        ),
        (Supervisor::Stopped(fatal), _) => give_up(fatal),
    }
}

impl<D> Supervisor<D> {
    /// A supervisor that has yet to find the adapter.
    pub fn new() -> (result: Self)
        ensures
            result == Supervisor::<D>::FindingAdapter,
    {
        Supervisor::FindingAdapter
    }

    /// The request that the supervisor waits for an answer to; `None` once
    /// it has given up.
    pub fn awaited(&self) -> (result: Option<Request>)
        ensures
            result == awaited(*self),
    {
        match self {
            Supervisor::FindingAdapter => Some(Request::FindAdapter),
            Supervisor::AwaitingAdapter => Some(Request::AwaitAdapter),
            Supervisor::Running(session) => match session.pending() {
                Some(command) => Some(Request::Perform(command)),
                None => None,
            },
            Supervisor::Stopped(_) => None,
        }
    }

    /// The session of the attempt that runs, if one does.
    pub fn session(&self) -> (result: Option<&Session<D>>)
        ensures
            match *self {
                Supervisor::Running(session) => result == Some(&session),
                _ => result is None,
            },
    {
        match self {
            Supervisor::Running(session) => Some(session),
            _ => None,
        }
    }

    /// Takes the answer to the awaited request and decides what follows.
    pub fn step(&mut self, input: Input<D>) -> (turn: Turn)
        ensures
            carries_out(*final(self), turn, decision(*old(self), input)),
    {
        let mut current = Supervisor::FindingAdapter;
        core::mem::swap(self, &mut current);
        let (next, turn) = decide(current, input);
        *self = next;
        turn
    }
}

/// What a run of inputs leaves behind.
pub struct Course<D> {
    /// The supervisor after the last input that was taken.
    pub last: Supervisor<D>,
    /// The reports of all turns, in the order they were made.
    pub reports: Seq<Report>,
    /// The requests that the turns made, in order.
    pub requests: Seq<Request>,
    /// The reason for which the supervisor gave up, if it did.
    pub exit: Option<Fatal>,
}

/// The course of a supervisor that is handed `inputs` one after the other.
/// It stops at the turn that gives up; inputs after it are not taken.
pub open spec fn oversee<D>(supervisor: Supervisor<D>, inputs: Seq<Input<D>>) -> Course<D>
    decreases inputs.len(),
{
    if inputs.len() == 0 {
        Course { last: supervisor, reports: seq![], requests: seq![], exit: None }
    } else {
        let first = decision(supervisor, inputs[0]);
        match first.next {
            Next::Exit(fatal) => Course {
                last: first.supervisor,
                reports: first.reports,
                requests: seq![],
                exit: Some(fatal),
            },
            Next::Do(request) => {
                let rest = oversee(first.supervisor, inputs.drop_first());
                Course {
                    last: rest.last,
                    reports: first.reports + rest.reports,
                    requests: seq![request] + rest.requests,
                    exit: rest.exit,
                }
            },
        }
    }
}

/// The events of a session as inputs of the supervisor that runs it.
pub open spec fn session_inputs<D>(events: Seq<Event<D>>) -> Seq<Input<D>> {
    Seq::new(events.len(), |i: int| Input::Session(events[i]))
}

/// A turn either gives up, and then leaves the supervisor stopped for that
/// reason, or makes exactly the request that the supervisor then waits for.
pub proof fn lemma_turn_asks_awaited<D>(supervisor: Supervisor<D>, input: Input<D>)
    ensures
        match decision(supervisor, input).next {
            Next::Do(request) => awaited(decision(supervisor, input).supervisor) == Some(request),
            Next::Exit(fatal) => decision(supervisor, input).supervisor == Supervisor::<D>::Stopped(
                fatal,
            ),
        },
{
    if let (Supervisor::Running(session), Input::Session(event)) = (supervisor, input) {
        lemma_step_asks_pending(session, event);
    }
}

/// The supervisor gives up in two cases only, and a supervisor that has
/// given up stays so: there is no adapter, or the adapter does not become
/// ready.
pub proof fn lemma_gives_up_without_adapter_only<D>(supervisor: Supervisor<D>, input: Input<D>)
    ensures
        decision(supervisor, input).next is Exit <==> {
            ||| supervisor is FindingAdapter && input == Input::<D>::AdapterFound(false)
            ||| supervisor is AwaitingAdapter && input matches Input::AdapterReady(Err(_))
            ||| supervisor is Stopped
        },
{
}

/// While an attempt runs no input makes the supervisor give up: after
/// every turn an attempt runs, and the turn makes a request.
pub proof fn lemma_running_goes_on<D>(session: Session<D>, input: Input<D>)
    ensures
        decision(Supervisor::Running(session), input).supervisor is Running,
        decision(Supervisor::Running(session), input).next is Do,
{
}

/// When a step of the running session fails, the supervisor reports what
/// the step reported, then the failure with the stage it came in, and
/// starts a new attempt at its first stage.
pub proof fn lemma_failure_restarts<D>(session: Session<D>, event: Event<D>)
    requires
        transition(session, event).outcome is Failed,
    ensures
        decision(Supervisor::Running(session), Input::Session(event)) == (Decision {
            supervisor: Supervisor::Running(Session::<D>::Listing),
            reports: transition(session, event).reports.push(
                Report::ConnectionError {
                    stage: stage_of(session),
                    error: transition(session, event).outcome->Failed_0,
                },
            ),
            next: Next::Do(first_request()),
        }),
{
}

/// When the stream of the running session delivers payloads that decode and
/// then a transport error, the readings are reported in the order of
/// arrival, the failure is reported after them, and a new attempt starts.
pub proof fn lemma_stream_error_restarts<D>(device: D, payloads: Seq<Vec<u8>>, detail: String)
    requires
        forall|i: int| 0 <= i < payloads.len() ==> decoded(#[trigger] payloads[i]@) is Ok,
    ensures
        oversee(
            Supervisor::Running(Session::Streaming(device)),
            session_inputs(broken_stream(payloads, detail)),
        ) == (Course {
            last: Supervisor::Running(Session::<D>::Listing),
            reports: readings_of(payloads).push(
                Report::ConnectionError {
                    stage: Stage::Stream,
                    error: SessionError::Transport(detail),
                },
            ),
            requests: Seq::new(
                payloads.len(),
                |i: int| Request::Perform(Command::NextNotification),
            ).push(first_request()),
            exit: None,
        }),
    decreases payloads.len(),
{
    let inputs = session_inputs(broken_stream::<D>(payloads, detail));
    let course = oversee(Supervisor::Running(Session::Streaming(device)), inputs);
    let reports = readings_of(payloads).push(
        Report::ConnectionError { stage: Stage::Stream, error: SessionError::Transport(detail) },
    );
    let requests = Seq::new(
        payloads.len(),
        |i: int| Request::Perform(Command::NextNotification),
    ).push(first_request());
    if payloads.len() == 0 {
        assert(oversee(Supervisor::Running(Session::<D>::Listing), inputs.drop_first()).reports
            =~= seq![]);
        assert(course.reports =~= reports);
        assert(course.requests =~= requests);
    } else {
        let later = payloads.drop_first();
        assert(decoded(payloads[0]@) is Ok);
        assert forall|i: int| 0 <= i < later.len() implies decoded(#[trigger] later[i]@) is Ok by {
            assert(later[i] == payloads[i + 1]);
        }
        lemma_stream_error_restarts(device, later, detail);
        assert(inputs.drop_first() =~= session_inputs(broken_stream::<D>(later, detail)));
        assert(course.reports =~= reports);
        assert(course.requests =~= requests);
    }
}

/// When the peripheral turns out to have no heart-rate service, the
/// supervisor does not give up: it reports the failure and starts one new
/// attempt, which, with no linked peripheral listed, begins a scan.
pub proof fn lemma_missing_service_retries<D>(device: D, listed: Vec<D>)
    requires
        listed@.len() == 0,
    ensures
        oversee(
            Supervisor::Running(Session::DiscoveringService(device)),
            seq![
                Input::Session(Event::ServicesFound(Ok(0))),
                Input::Session(Event::Listed(Ok(listed))),
            ],
        ) == (Course {
            last: Supervisor::Running(Session::<D>::StartingScan),
            reports: seq![
                Report::DiscoveredService,
                Report::ConnectionError {
                    stage: Stage::DiscoverService,
                    error: SessionError::NoService,
                },
                Report::StartingScan,
            ],
            requests: seq![
                first_request(),
                Request::Perform(Command::StartScan { service: service_id() }),
            ],
            exit: None,
        }),
{
    let inputs = seq![
        Input::Session(Event::ServicesFound(Ok(0))),
        Input::Session(Event::Listed(Ok(listed))),
    ];
    let i1 = inputs.drop_first();
    let i2 = i1.drop_first();
    assert(i2.len() == 0);
    assert(i1[0] == inputs[1]);
    let c2 = oversee(Supervisor::Running(Session::<D>::StartingScan), i2);
    let c1 = oversee(Supervisor::Running(Session::<D>::Listing), i1);
    let c0 = oversee(Supervisor::Running(Session::DiscoveringService(device)), inputs);
    assert(c1.reports =~= seq![Report::StartingScan]);
    assert(c1.requests =~= seq![Request::Perform(Command::StartScan { service: service_id() })]);
    assert(c0.reports =~= seq![
        Report::DiscoveredService,
        Report::ConnectionError { stage: Stage::DiscoverService, error: SessionError::NoService },
        Report::StartingScan,
    ]);
    assert(c0.requests =~= seq![
        first_request(),
        Request::Perform(Command::StartScan { service: service_id() }),
    ]);
}

} // verus!
