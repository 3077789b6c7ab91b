//! One attempt at a session with a heart-rate sensor.
//!
//! A session goes through its stages in order: acquire a peripheral, link to
//! it, secure the link, discover the service, discover the characteristic,
//! subscribe, and stream. It performs no operation itself. It names the next
//! operation as a [`Command`], its caller performs it and hands back what
//! came of it as an [`Event`], and [`Session::step`] decides what follows.
//! A live stream never ends, so the only way out of a session is a failure.

use crate::ident::{measurement_id, service_id};
use crate::ident::{heart_rate_measurement_id, heart_rate_service_id};
use crate::measurement::{decode, decoded, DecodeError, HeartRateReading};
use vstd::prelude::*;

verus! {

/// The stages of an attempt, in their order.
#[derive(Clone, Copy, Debug, PartialEq, Eq)]
pub enum Stage {
    /// Finding the peripheral: one that is linked already, or else the
    /// first that a scan finds.
    Acquire,
    /// Connecting the peripheral, unless it is connected.
    Link,
    /// Pairing the peripheral, unless it is paired.
    Secure,
    /// Asking the peripheral for the heart-rate service.
    DiscoverService,
    /// Asking the service for the measurement characteristic.
    DiscoverCharacteristic,
    /// Switching notifications on and taking them as they come.
    Stream,
    /// After the failure that ended the attempt.
    Ended,
}

/// Why an attempt ended.
#[derive(Debug, PartialEq, Eq)]
pub enum SessionError {
    /// The adapter or the peripheral reported an error; the text is theirs.
    Transport(String),
    /// The peripheral has no heart-rate service.
    NoService,
    /// The heart-rate service has no measurement characteristic.
    NoCharacteristic,
    /// A notification payload could not be decoded.
    Decode(DecodeError),
    /// The notification stream ended, which a live stream never does.
    StreamEnded,
    /// The event is not an answer to the command that was pending.
    UnexpectedEvent,
}

/// A step of progress worth telling the user.
#[derive(Debug, PartialEq, Eq)]
pub enum Report {
    /// No linked peripheral was found; a scan is about to start.
    StartingScan,
    /// The scan runs.
    ScanStarted,
    /// The scan found the peripheral that the session goes on with.
    FoundDevice,
    /// The peripheral is not linked; a connection is about to be made.
    Connecting,
    /// The peripheral is linked.
    Connected,
    /// The peripheral is not paired; pairing is about to start.
    Pairing,
    /// Pairing succeeded.
    PairingSucceeded,
    /// Pairing failed; the session goes on without it.
    PairingFailed(String),
    /// The query for the heart-rate service was answered.
    DiscoveredService,
    /// The query for the measurement characteristic was answered.
    DiscoveredCharacteristic,
    /// Notifications are switched on.
    NotificationsEnabled,
    /// A measurement arrived.
    Reading(HeartRateReading),
    /// The attempt failed in this stage and for this reason; a new one follows.
    ConnectionError { stage: Stage, error: SessionError },
}

/// An operation that the session asks its caller to perform.
#[derive(Clone, Copy, Debug, PartialEq, Eq)]
pub enum Command {
    /// List the linked peripherals that expose the service with this
    /// 128-bit identifier.
    ListConnected { service: u128 },
    /// Start a scan for peripherals that expose the service.
    StartScan { service: u128 },
    /// Wait for the next result of the scan.
    NextDiscovered,
    /// Ask whether the selected peripheral is linked.
    CheckLink,
    /// Connect the selected peripheral.
    Connect,
    /// Ask whether the selected peripheral is paired.
    CheckPairing,
    /// Pair the selected peripheral, with the trust agent.
    Pair,
    /// Ask the selected peripheral for the service.
    DiscoverServices { service: u128 },
    /// Ask the first service found for the characteristic.
    DiscoverCharacteristics { characteristic: u128 },
    /// Switch on notifications of the first characteristic found.
    Subscribe,
    /// Wait for the next item of the notification stream.
    NextNotification,
}

/// What came of a command. `D` is the caller's handle for a peripheral; a
/// text in an `Err` is the transport's account of its error.
#[derive(Debug, PartialEq, Eq)]
pub enum Event<D> {
    /// Answer to [`Command::ListConnected`]: the peripherals, in the order given.
    Listed(Result<Vec<D>, String>),
    /// Answer to [`Command::StartScan`].
    ScanStarted(Result<(), String>),
    /// Answer to [`Command::NextDiscovered`]: the next peripheral found.
    Discovered(Result<D, String>),
    /// Answer to [`Command::CheckLink`]: whether the peripheral is linked.
    LinkChecked(bool),
    /// Answer to [`Command::Connect`].
    Connected(Result<(), String>),
    /// Answer to [`Command::CheckPairing`]: whether the peripheral is paired.
    PairingChecked(Result<bool, String>),
    /// Answer to [`Command::Pair`].
    Paired(Result<(), String>),
    /// Answer to [`Command::DiscoverServices`]: how many services match.
    ServicesFound(Result<usize, String>),
    /// Answer to [`Command::DiscoverCharacteristics`]: how many characteristics match.
    CharacteristicsFound(Result<usize, String>),
    /// Answer to [`Command::Subscribe`].
    Subscribed(Result<(), String>),
    /// Answer to [`Command::NextNotification`]: a payload, a transport
    /// error, or `None` when the stream has ended.
    Notified(Option<Result<Vec<u8>, String>>),
}

/// How a step left the attempt.
#[derive(Debug, PartialEq, Eq)]
pub enum Outcome {
    /// The attempt goes on with this command.
    Continue(Command),
    /// The attempt is over.
    Failed(SessionError),
}

/// What a step hands to the caller.
#[derive(Debug, PartialEq, Eq)]
pub struct Step {
    /// What to tell the user, in this order.
    pub reports: Vec<Report>,
    /// What to do next.
    pub outcome: Outcome,
}

/// An attempt, by what it waits for. From [`Session::CheckingLink`] to
/// [`Session::Streaming`] it holds the peripheral that was selected.
#[derive(Debug, PartialEq, Eq)]
pub enum Session<D> {
    /// Acquire: waiting for the list of linked peripherals.
    Listing,
    /// Acquire: waiting for the scan to start.
    StartingScan,
    /// Acquire: waiting for the scan's first result.
    Scanning,
    /// Link: waiting to learn whether the peripheral is linked.
    CheckingLink(D),
    /// Link: waiting for the connection.
    Connecting(D),
    /// Secure: waiting to learn whether the peripheral is paired.
    CheckingPairing(D),
    /// Secure: waiting for the pairing to end.
    Pairing(D),
    /// Waiting for the services that match.
    DiscoveringService(D),
    /// Waiting for the characteristics that match.
    DiscoveringCharacteristic(D),
    /// Waiting for notifications to be switched on.
    Subscribing(D),
    /// Waiting for the next notification.
    Streaming(D),
    /// The attempt has failed.
    Ended,
}

/// A step as contracts see it: the session after it, and what it hands out.
pub struct Transition<D> {
    /// The session after the step.
    pub next: Session<D>,
    /// What the step reports, in order.
    pub reports: Seq<Report>,
    /// Whether the attempt goes on, and with what.
    pub outcome: Outcome,
}

/// The step that ends the attempt.
pub open spec fn fails<D>(reports: Seq<Report>, error: SessionError) -> Transition<D> {
    Transition { next: Session::Ended, reports, outcome: Outcome::Failed(error) }
}

/// The command that a session waits for an answer to; none once the attempt has failed.
pub open spec fn pending<D>(session: Session<D>) -> Option<Command> {
    match session {
        Session::Listing => Some(Command::ListConnected { service: service_id() }),
        Session::StartingScan => Some(Command::StartScan { service: service_id() }),
        Session::Scanning => Some(Command::NextDiscovered),
        Session::CheckingLink(_) => Some(Command::CheckLink),
        Session::Connecting(_) => Some(Command::Connect),
        Session::CheckingPairing(_) => Some(Command::CheckPairing),
        Session::Pairing(_) => Some(Command::Pair),
        Session::DiscoveringService(_) => Some(
            Command::DiscoverServices { service: service_id() },
        ),
        Session::DiscoveringCharacteristic(_) => Some(
            Command::DiscoverCharacteristics { characteristic: measurement_id() },
        ),
        Session::Subscribing(_) => Some(Command::Subscribe),
        Session::Streaming(_) => Some(Command::NextNotification),
        Session::Ended => None,
    }
}

/// The stage that a session is in.
pub open spec fn stage_of<D>(session: Session<D>) -> Stage {
    match session {
        Session::Listing | Session::StartingScan | Session::Scanning => Stage::Acquire,
        Session::CheckingLink(_) | Session::Connecting(_) => Stage::Link,
        Session::CheckingPairing(_) | Session::Pairing(_) => Stage::Secure,
        Session::DiscoveringService(_) => Stage::DiscoverService,
        Session::DiscoveringCharacteristic(_) => Stage::DiscoverCharacteristic,
        Session::Subscribing(_) | Session::Streaming(_) => Stage::Stream,
        Session::Ended => Stage::Ended,
    }
}

/// The peripheral that a session holds.
pub open spec fn selected<D>(session: Session<D>) -> Option<D> {
    match session {
        Session::CheckingLink(device)
        | Session::Connecting(device)
        | Session::CheckingPairing(device)
        | Session::Pairing(device)
        | Session::DiscoveringService(device)
        | Session::DiscoveringCharacteristic(device)
        | Session::Subscribing(device)
        | Session::Streaming(device) => Some(device),
        _ => None,
    }
}

/// The step that goes on: it leaves the session `next` and asks for the
/// command that `next` waits for.
pub open spec fn moves_to<D>(next: Session<D>, reports: Seq<Report>) -> Transition<D>
    recommends
        pending(next) is Some,
{
    Transition { next, reports, outcome: Outcome::Continue(pending(next)->0) }
}

/// What a session does with an event.
///
/// A transport error ends the attempt wherever it comes, except from
/// pairing: a failed pairing is reported and the attempt goes on. An event
/// that does not answer the pending command ends the attempt too.
pub open spec fn transition<D>(session: Session<D>, event: Event<D>) -> Transition<D> {
    match (session, event) {
        (Session::Listing, Event::Listed(Ok(devices))) => if devices@.len() > 0 {
            moves_to(Session::CheckingLink(devices@[0]), seq![])
        } else {
            moves_to(Session::StartingScan, seq![Report::StartingScan])
        },
        (Session::Listing, Event::Listed(Err(detail))) => fails(
            seq![],
            SessionError::Transport(detail),
        ),
        (Session::StartingScan, Event::ScanStarted(Ok(_))) => moves_to(
            Session::Scanning,
            seq![Report::ScanStarted],
        ),
        (Session::StartingScan, Event::ScanStarted(Err(detail))) => fails(
            seq![],
            SessionError::Transport(detail),
        ),
        (Session::Scanning, Event::Discovered(Ok(device))) => moves_to(
            Session::CheckingLink(device),
            seq![Report::FoundDevice],
        ),
        (Session::Scanning, Event::Discovered(Err(detail))) => fails(
            seq![],
            SessionError::Transport(detail),
        ),
        (Session::CheckingLink(device), Event::LinkChecked(linked)) => if linked {
            moves_to(Session::CheckingPairing(device), seq![Report::Connected])
        } else {
            moves_to(Session::Connecting(device), seq![Report::Connecting])
        },
        (Session::Connecting(device), Event::Connected(Ok(_))) => moves_to(
            Session::CheckingPairing(device),
            seq![Report::Connected],
        ),
        (Session::Connecting(_), Event::Connected(Err(detail))) => fails(
            seq![],
            SessionError::Transport(detail),
        ),
        (Session::CheckingPairing(device), Event::PairingChecked(Ok(paired))) => if paired {
            moves_to(Session::DiscoveringService(device), seq![])
        } else {
            moves_to(Session::Pairing(device), seq![Report::Pairing])
        },
        (Session::CheckingPairing(_), Event::PairingChecked(Err(detail))) => fails(
            seq![],
            SessionError::Transport(detail),
        ),
        (Session::Pairing(device), Event::Paired(Ok(_))) => moves_to(
            Session::DiscoveringService(device),
            seq![Report::PairingSucceeded],
        ),
        (Session::Pairing(device), Event::Paired(Err(detail))) => moves_to(
            Session::DiscoveringService(device),
            seq![Report::PairingFailed(detail)],
        ),
        (Session::DiscoveringService(device), Event::ServicesFound(Ok(count))) => if count > 0 {
            moves_to(Session::DiscoveringCharacteristic(device), seq![Report::DiscoveredService])
        } else {
            fails(seq![Report::DiscoveredService], SessionError::NoService)
        },
        (Session::DiscoveringService(_), Event::ServicesFound(Err(detail))) => fails(
            seq![],
            SessionError::Transport(detail),
        ),
        (
            Session::DiscoveringCharacteristic(device),
            Event::CharacteristicsFound(Ok(count)),
        ) => if count > 0 {
            moves_to(Session::Subscribing(device), seq![Report::DiscoveredCharacteristic])
        } else {
            fails(seq![Report::DiscoveredCharacteristic], SessionError::NoCharacteristic)
        },
        (Session::DiscoveringCharacteristic(_), Event::CharacteristicsFound(Err(detail))) => fails(
            seq![],
            SessionError::Transport(detail),
        ),
        (Session::Subscribing(device), Event::Subscribed(Ok(_))) => moves_to(
            Session::Streaming(device),
            seq![Report::NotificationsEnabled],
        ),
        (Session::Subscribing(_), Event::Subscribed(Err(detail))) => fails(
            seq![],
            SessionError::Transport(detail),
        ),
        (Session::Streaming(device), Event::Notified(Some(Ok(payload)))) => match decoded(
            payload@,
        ) {
            Ok(reading) => moves_to(Session::Streaming(device), seq![Report::Reading(reading)]),
            Err(error) => fails(seq![], SessionError::Decode(error)),
        },
        (Session::Streaming(_), Event::Notified(Some(Err(detail)))) => fails(
            seq![],
            SessionError::Transport(detail),
        ),
        (Session::Streaming(_), Event::Notified(None)) => fails(seq![], SessionError::StreamEnded),
        _ => fails(seq![], SessionError::UnexpectedEvent),
    }
}

/// Whether a step and the session it leaves stand for a transition.
pub open spec fn carries_out<D>(next: Session<D>, step: Step, planned: Transition<D>) -> bool {
    &&& next == planned.next
    &&& step.reports@ =~= planned.reports
    &&& step.outcome == planned.outcome
}

fn stop<D>(reports: Vec<Report>, error: SessionError) -> (result: (Session<D>, Step))
    ensures
        carries_out(result.0, result.1, fails(reports@, error)),
{
    (Session::Ended, Step { reports, outcome: Outcome::Failed(error) })
}

fn go<D>(next: Session<D>, reports: Vec<Report>) -> (result: (Session<D>, Step))
    requires
        pending(next) is Some,
    ensures
        carries_out(result.0, result.1, moves_to(next, reports@)),
{
    let command = next.pending().unwrap();
    (next, Step { reports, outcome: Outcome::Continue(command) })
}

fn advance<D>(session: Session<D>, event: Event<D>) -> (result: (Session<D>, Step))
    ensures
        carries_out(result.0, result.1, transition(session, event)),
{
    match (session, event) {
        (Session::Listing, Event::Listed(Ok(devices))) => {
            let mut devices = devices;
            if devices.len() > 0 {
                let first = devices.remove(0);
                go(Session::CheckingLink(first), vec![])
            } else {
                go(Session::StartingScan, vec![Report::StartingScan])
            }
        },
        (Session::Listing, Event::Listed(Err(detail))) => stop(
            vec![],
            SessionError::Transport(detail),
        ),
        (Session::StartingScan, Event::ScanStarted(Ok(_))) => go(
            Session::Scanning,
            vec![Report::ScanStarted],
        ),
        (Session::StartingScan, Event::ScanStarted(Err(detail))) => stop(
            vec![],
            SessionError::Transport(detail),
        ),
        (Session::Scanning, Event::Discovered(Ok(device))) => go(
            Session::CheckingLink(device),
            vec![Report::FoundDevice],
        ),
        (Session::Scanning, Event::Discovered(Err(detail))) => stop(
            vec![],
            SessionError::Transport(detail),
        ),
        (Session::CheckingLink(device), Event::LinkChecked(linked)) => {
            if linked {
                go(Session::CheckingPairing(device), vec![Report::Connected])
            } else {
                go(Session::Connecting(device), vec![Report::Connecting])
            }
        },
        (Session::Connecting(device), Event::Connected(Ok(_))) => go(
            Session::CheckingPairing(device),
            vec![Report::Connected],
        ),
        (Session::Connecting(_), Event::Connected(Err(detail))) => stop(
            vec![],
            SessionError::Transport(detail),
        ),
        (Session::CheckingPairing(device), Event::PairingChecked(Ok(paired))) => {
            if paired {
                go(Session::DiscoveringService(device), vec![])
            } else {
                go(Session::Pairing(device), vec![Report::Pairing])
            }
        },
        (Session::CheckingPairing(_), Event::PairingChecked(Err(detail))) => stop(
            vec![],
            SessionError::Transport(detail),
        ),
        (Session::Pairing(device), Event::Paired(Ok(_))) => go(
            Session::DiscoveringService(device),
            vec![Report::PairingSucceeded],
        ),
        (Session::Pairing(device), Event::Paired(Err(detail))) => go(
            Session::DiscoveringService(device),
            vec![Report::PairingFailed(detail)],
        ),
        (Session::DiscoveringService(device), Event::ServicesFound(Ok(count))) => {
            if count > 0 {
                go(Session::DiscoveringCharacteristic(device), vec![Report::DiscoveredService])
            } else {
                stop(vec![Report::DiscoveredService], SessionError::NoService)
            }
        },
        (Session::DiscoveringService(_), Event::ServicesFound(Err(detail))) => stop(
            vec![],
            SessionError::Transport(detail),
        ),
        (Session::DiscoveringCharacteristic(device), Event::CharacteristicsFound(Ok(count))) => {
            if count > 0 {
                go(Session::Subscribing(device), vec![Report::DiscoveredCharacteristic])
            } else {
                stop(vec![Report::DiscoveredCharacteristic], SessionError::NoCharacteristic)
            }
        },
        (Session::DiscoveringCharacteristic(_), Event::CharacteristicsFound(Err(detail))) => stop(
            vec![],
            SessionError::Transport(detail),
        ),
        (Session::Subscribing(device), Event::Subscribed(Ok(_))) => go(
            Session::Streaming(device),
            vec![Report::NotificationsEnabled],
        ),
        (Session::Subscribing(_), Event::Subscribed(Err(detail))) => stop(
            vec![],
            SessionError::Transport(detail),
        ),
        (Session::Streaming(device), Event::Notified(Some(Ok(payload)))) => {
            match decode(payload.as_slice()) {
                Ok(reading) => go(Session::Streaming(device), vec![Report::Reading(reading)]),
                Err(error) => stop(vec![], SessionError::Decode(error)),
            }
        },
        (Session::Streaming(_), Event::Notified(Some(Err(detail)))) => stop(
            vec![],
            SessionError::Transport(detail),
        ),
        (Session::Streaming(_), Event::Notified(None)) => stop(vec![], SessionError::StreamEnded),
        _ => stop(vec![], SessionError::UnexpectedEvent),
    }
}

impl<D> Session<D> {
    /// A new attempt, at its start.
    pub fn new() -> (result: Self)
        ensures
            result == Session::<D>::Listing,
    {
        Session::Listing
    }

    /// The command that the session waits for an answer to; `None` once
    /// the attempt has failed.
    pub fn pending(&self) -> (result: Option<Command>)
        ensures
            result == pending(*self),
    {
        match self {
            Session::Listing => Some(Command::ListConnected { service: heart_rate_service_id() }),
            Session::StartingScan => Some(Command::StartScan { service: heart_rate_service_id() }),
            Session::Scanning => Some(Command::NextDiscovered),
            Session::CheckingLink(_) => Some(Command::CheckLink),
            Session::Connecting(_) => Some(Command::Connect),
            Session::CheckingPairing(_) => Some(Command::CheckPairing),
            Session::Pairing(_) => Some(Command::Pair),
            Session::DiscoveringService(_) => Some(
                Command::DiscoverServices { service: heart_rate_service_id() },
            ),
            Session::DiscoveringCharacteristic(_) => Some(
                Command::DiscoverCharacteristics { characteristic: heart_rate_measurement_id() },
            ),
            Session::Subscribing(_) => Some(Command::Subscribe),
            Session::Streaming(_) => Some(Command::NextNotification),
            Session::Ended => None,
        }
    }

    /// The stage that the session is in.
    pub fn stage(&self) -> (result: Stage)
        ensures
            result == stage_of(*self),
    {
        match self {
            Session::Listing | Session::StartingScan | Session::Scanning => Stage::Acquire,
            Session::CheckingLink(_) | Session::Connecting(_) => Stage::Link,
            Session::CheckingPairing(_) | Session::Pairing(_) => Stage::Secure,
            Session::DiscoveringService(_) => Stage::DiscoverService,
            Session::DiscoveringCharacteristic(_) => Stage::DiscoverCharacteristic,
            Session::Subscribing(_) | Session::Streaming(_) => Stage::Stream,
            Session::Ended => Stage::Ended,
        }
    }

    /// The peripheral that the session has selected, from the moment it is
    /// acquired until the attempt fails.
    pub fn device(&self) -> (result: Option<&D>)
        ensures
            match selected(*self) {
                Some(device) => result == Some(&device),
                None => result is None,
            },
    {
        match self {
            Session::CheckingLink(device)
            | Session::Connecting(device)
            | Session::CheckingPairing(device)
            | Session::Pairing(device)
            | Session::DiscoveringService(device)
            | Session::DiscoveringCharacteristic(device)
            | Session::Subscribing(device)
            | Session::Streaming(device) => Some(device),
            _ => None,
        }
    }

    /// Takes the answer to the pending command and decides what follows.
    pub fn step(&mut self, event: Event<D>) -> (step: Step)
        ensures
            carries_out(*final(self), step, transition(*old(self), event)),
    {
        let mut current = Session::Ended;
        core::mem::swap(self, &mut current);
        let (next, step) = advance(current, event);
        *self = next;
        step
    }
}

/// What a run of events leaves behind.
pub struct Trace<D> {
    /// The session after the last event that was taken.
    pub last: Session<D>,
    /// The reports of all steps, in the order they were made.
    pub reports: Seq<Report>,
    /// The commands that the steps asked for, in order.
    pub commands: Seq<Command>,
    /// The failure that ended the run, if one did.
    pub failure: Option<SessionError>,
}

/// The trace of a session that is handed `events` one after the other. The
/// run stops at the first step that fails; events after it are not taken.
pub open spec fn run<D>(session: Session<D>, events: Seq<Event<D>>) -> Trace<D>
    decreases events.len(),
{
    if events.len() == 0 {
        Trace { last: session, reports: seq![], commands: seq![], failure: None }
    } else {
        let first = transition(session, events[0]);
        match first.outcome {
            Outcome::Failed(error) => Trace {
                last: first.next,
                reports: first.reports,
                commands: seq![],
                failure: Some(error),
            },
            Outcome::Continue(command) => {
                let rest = run(first.next, events.drop_first());
                Trace {
                    last: rest.last,
                    reports: first.reports + rest.reports,
                    commands: seq![command] + rest.commands,
                    failure: rest.failure,
                }
            },
        }
    }
}

/// The place of a session's state in the order of an attempt.
pub open spec fn rank<D>(session: Session<D>) -> nat {
    match session {
        Session::Listing => 0,
        Session::StartingScan => 1,
        Session::Scanning => 2,
        Session::CheckingLink(_) => 3,
        Session::Connecting(_) => 4,
        Session::CheckingPairing(_) => 5,
        Session::Pairing(_) => 6,
        Session::DiscoveringService(_) => 7,
        Session::DiscoveringCharacteristic(_) => 8,
        Session::Subscribing(_) => 9,
        Session::Streaming(_) => 10,
        Session::Ended => 11,
    }
}

/// A step either fails, and then leaves the session ended, or asks for
/// exactly the command that the session then waits for.
pub proof fn lemma_step_asks_pending<D>(session: Session<D>, event: Event<D>)
    ensures
        match transition(session, event).outcome {
            Outcome::Continue(command) => pending(transition(session, event).next) == Some(
                command,
            ),
            Outcome::Failed(_) => transition(session, event).next == Session::<D>::Ended,
        },
{
}

/// A session never goes back, and it leaves nothing out but what it may: a
/// step that does not fail leads to the next state in order, or from
/// streaming to streaming again. Only the scan, the connection and the
/// pairing can be passed over.
pub proof fn lemma_step_keeps_order<D>(session: Session<D>, event: Event<D>)
    requires
        transition(session, event).outcome is Continue,
    ensures
        ({
            let next = transition(session, event).next;
            if session is Streaming {
                next is Streaming
            } else if session is Listing {
                next is StartingScan || next is CheckingLink
            } else if session is CheckingLink {
                next is Connecting || next is CheckingPairing
            } else if session is CheckingPairing {
                next is Pairing || next is DiscoveringService
            } else {
                rank(next) == rank(session) + 1
            }
        }),
{
}

/// Once a peripheral is selected, every step that does not fail keeps it.
pub proof fn lemma_step_keeps_device<D>(session: Session<D>, event: Event<D>)
    requires
        selected(session) is Some,
        transition(session, event).outcome is Continue,
    ensures
        selected(transition(session, event).next) == selected(session),
{
}

/// An ended session takes no event: whatever comes fails as unexpected.
pub proof fn lemma_ended_stays_ended<D>(event: Event<D>)
    ensures
        transition(Session::<D>::Ended, event) == fails::<D>(
            seq![],
            SessionError::UnexpectedEvent,
        ),
{
}

/// With a peripheral that is listed as linked, is linked and is paired, and
/// that has the service and the characteristic, a session goes from its
/// start to the subscription without a scan, a connection or a pairing.
pub proof fn lemma_linked_device_is_reused<D>(
    devices: Vec<D>,
    services: usize,
    characteristics: usize,
)
    requires
        devices@.len() > 0,
        services > 0,
        characteristics > 0,
    ensures
        run(
            Session::<D>::Listing,
            seq![
                Event::Listed(Ok(devices)),
                Event::LinkChecked(true),
                Event::PairingChecked(Ok(true)),
                Event::ServicesFound(Ok(services)),
                Event::CharacteristicsFound(Ok(characteristics)),
            ],
        ) == (Trace {
            last: Session::Subscribing(devices@[0]),
            reports: seq![
                Report::Connected,
                Report::DiscoveredService,
                Report::DiscoveredCharacteristic,
            ],
            commands: seq![
                Command::CheckLink,
                Command::CheckPairing,
                Command::DiscoverServices { service: service_id() },
                Command::DiscoverCharacteristics { characteristic: measurement_id() },
                Command::Subscribe,
            ],
            failure: None,
        }),
{
    let events = seq![
        Event::Listed(Ok(devices)),
        Event::LinkChecked(true),
        Event::PairingChecked(Ok(true)),
        Event::ServicesFound(Ok(services)),
        Event::CharacteristicsFound(Ok(characteristics)),
    ];
    let device = devices@[0];
    let e1 = events.drop_first();
    let e2 = e1.drop_first();
    let e3 = e2.drop_first();
    let e4 = e3.drop_first();
    let e5 = e4.drop_first();
    assert(e5.len() == 0);
    let t5 = run(Session::Subscribing(device), e5);
    let t4 = run(Session::DiscoveringCharacteristic(device), e4);
    let t3 = run(Session::DiscoveringService(device), e3);
    let t2 = run(Session::CheckingPairing(device), e2);
    let t1 = run(Session::CheckingLink(device), e1);
    let t0 = run(Session::<D>::Listing, events);
    assert(e4[0] == events[4] && e3[0] == events[3] && e2[0] == events[2] && e1[0] == events[1]);
    assert(t4.last == t5.last && t4.failure == t5.failure);
    assert(t4.reports =~= seq![Report::DiscoveredCharacteristic]);
    assert(t4.commands =~= seq![Command::Subscribe]);
    assert(t3.reports =~= seq![Report::DiscoveredService, Report::DiscoveredCharacteristic]);
    assert(t3.commands =~= seq![
        Command::DiscoverCharacteristics { characteristic: measurement_id() },
        Command::Subscribe,
    ]);
    assert(t2.reports =~= t3.reports);
    assert(t2.commands =~= seq![
        Command::DiscoverServices { service: service_id() },
        Command::DiscoverCharacteristics { characteristic: measurement_id() },
        Command::Subscribe,
    ]);
    assert(t1.reports =~= seq![
        Report::Connected,
        Report::DiscoveredService,
        Report::DiscoveredCharacteristic,
    ]);
    assert(t1.commands =~= seq![
        Command::CheckPairing,
        Command::DiscoverServices { service: service_id() },
        Command::DiscoverCharacteristics { characteristic: measurement_id() },
        Command::Subscribe,
    ]);
    assert(t0.reports =~= t1.reports);
    assert(t0.commands =~= seq![
        Command::CheckLink,
        Command::CheckPairing,
        Command::DiscoverServices { service: service_id() },
        Command::DiscoverCharacteristics { characteristic: measurement_id() },
        Command::Subscribe,
    ]);
}

/// The events of a stream that delivers `payloads` and then breaks with a
/// transport error.
pub open spec fn broken_stream<D>(payloads: Seq<Vec<u8>>, detail: String) -> Seq<Event<D>> {
    Seq::new(
        payloads.len() + 1,
        |i: int|
            if i < payloads.len() {
                Event::Notified(Some(Ok(payloads[i])))
            } else {
                Event::Notified(Some(Err(detail)))
            },
    )
}

/// The reports of the readings that `payloads` decode to, in their order.
pub open spec fn readings_of(payloads: Seq<Vec<u8>>) -> Seq<Report> {
    Seq::new(payloads.len(), |i: int| Report::Reading(decoded(payloads[i]@)->Ok_0))
}

/// A stream that delivers payloads which decode, and then a transport
/// error, has each reading reported, in the order of arrival, before the
/// session fails, and it fails with that error.
pub proof fn lemma_stream_error_after_readings<D>(
    device: D,
    payloads: Seq<Vec<u8>>,
    detail: String,
)
    requires
        forall|i: int| 0 <= i < payloads.len() ==> decoded(#[trigger] payloads[i]@) is Ok,
    ensures
        run(Session::Streaming(device), broken_stream(payloads, detail)) == (Trace {
            last: Session::<D>::Ended,
            reports: readings_of(payloads),
            commands: Seq::new(payloads.len(), |i: int| Command::NextNotification),
            failure: Some(SessionError::Transport(detail)),
        }),
    decreases payloads.len(),
{
    let events = broken_stream::<D>(payloads, detail);
    let trace = run(Session::Streaming(device), events);
    if payloads.len() == 0 {
        assert(trace.reports =~= readings_of(payloads));
        assert(trace.commands =~= Seq::new(payloads.len(), |i: int| Command::NextNotification));
    } else {
        let later = payloads.drop_first();
        assert(decoded(payloads[0]@) is Ok);
        assert forall|i: int| 0 <= i < later.len() implies decoded(#[trigger] later[i]@) is Ok by {
            assert(later[i] == payloads[i + 1]);
        }
        lemma_stream_error_after_readings(device, later, detail);
        assert(events.drop_first() =~= broken_stream::<D>(later, detail));
        assert(trace.reports =~= readings_of(payloads));
        assert(trace.commands =~= Seq::new(payloads.len(), |i: int| Command::NextNotification));
    }
}

/// A peripheral without the service fails the attempt, whatever led to the
/// query, and the failure says so.
pub proof fn lemma_no_service_fails<D>(device: D)
    ensures
        transition(Session::DiscoveringService(device), Event::ServicesFound(Ok(0))) == fails::<D>(
            seq![Report::DiscoveredService],
            SessionError::NoService,
        ),
{
}

} // verus!
