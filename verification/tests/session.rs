use heart_rate::ident::{heart_rate_measurement_id, heart_rate_service_id};
use heart_rate::measurement::{DecodeError, HeartRateReading};
use heart_rate::session::{Command, Event, Outcome, Report, Session, SessionError, Stage, Step};

fn next(command: Command) -> Outcome {
    Outcome::Continue(command)
}

fn transport(detail: &str) -> SessionError {
    SessionError::Transport(detail.to_string())
}

fn step(reports: Vec<Report>, outcome: Outcome) -> Step {
    Step { reports, outcome }
}

#[test]
fn new_session_lists_linked_peripherals() {
    let session: Session<u32> = Session::new();
    assert_eq!(session, Session::Listing);
    assert_eq!(session.pending(), Some(Command::ListConnected { service: heart_rate_service_id() }));
    assert_eq!(session.device(), None);
}

#[test]
fn linked_and_paired_peripheral_skips_scan_and_pairing() {
    let mut session: Session<&str> = Session::new();
    let taken = session.step(Event::Listed(Ok(vec!["chest strap", "watch"])));
    assert_eq!(taken, step(vec![], next(Command::CheckLink)));
    assert_eq!(session.device(), Some(&"chest strap"));
    let taken = session.step(Event::LinkChecked(true));
    assert_eq!(taken, step(vec![Report::Connected], next(Command::CheckPairing)));
    let taken = session.step(Event::PairingChecked(Ok(true)));
    assert_eq!(
        taken,
        step(vec![], next(Command::DiscoverServices { service: heart_rate_service_id() }))
    );
    let taken = session.step(Event::ServicesFound(Ok(1)));
    assert_eq!(
        taken,
        step(
            vec![Report::DiscoveredService],
            next(Command::DiscoverCharacteristics { characteristic: heart_rate_measurement_id() })
        )
    );
    let taken = session.step(Event::CharacteristicsFound(Ok(1)));
    assert_eq!(taken, step(vec![Report::DiscoveredCharacteristic], next(Command::Subscribe)));
    assert_eq!(session, Session::Subscribing("chest strap"));
    let taken = session.step(Event::Subscribed(Ok(())));
    assert_eq!(taken, step(vec![Report::NotificationsEnabled], next(Command::NextNotification)));
    assert_eq!(session, Session::Streaming("chest strap"));
}

#[test]
fn no_linked_peripheral_starts_a_scan() {
    let mut session: Session<u8> = Session::new();
    let taken = session.step(Event::Listed(Ok(vec![])));
    assert_eq!(
        taken,
        step(vec![Report::StartingScan], next(Command::StartScan { service: heart_rate_service_id() }))
    );
    assert_eq!(session, Session::StartingScan);
    let taken = session.step(Event::ScanStarted(Ok(())));
    assert_eq!(taken, step(vec![Report::ScanStarted], next(Command::NextDiscovered)));
    assert_eq!(session, Session::Scanning);
    assert_eq!(session.device(), None);
    let taken = session.step(Event::Discovered(Ok(5)));
    assert_eq!(taken, step(vec![Report::FoundDevice], next(Command::CheckLink)));
    assert_eq!(session, Session::CheckingLink(5));
    assert_eq!(session.device(), Some(&5));
}

#[test]
fn unlinked_peripheral_is_connected() {
    let mut session = Session::CheckingLink('p');
    let taken = session.step(Event::LinkChecked(false));
    assert_eq!(taken, step(vec![Report::Connecting], next(Command::Connect)));
    assert_eq!(session, Session::Connecting('p'));
    let taken = session.step(Event::Connected(Ok(())));
    assert_eq!(taken, step(vec![Report::Connected], next(Command::CheckPairing)));
    assert_eq!(session, Session::CheckingPairing('p'));
}

#[test]
fn unpaired_peripheral_is_paired() {
    let mut session = Session::CheckingPairing('p');
    let taken = session.step(Event::PairingChecked(Ok(false)));
    assert_eq!(taken, step(vec![Report::Pairing], next(Command::Pair)));
    assert_eq!(session, Session::Pairing('p'));
    let taken = session.step(Event::Paired(Ok(())));
    assert_eq!(
        taken,
        step(
            vec![Report::PairingSucceeded],
            next(Command::DiscoverServices { service: heart_rate_service_id() })
        )
    );
    assert_eq!(session, Session::DiscoveringService('p'));
}

#[test]
fn failed_pairing_does_not_end_the_attempt() {
    let mut session = Session::Pairing('p');
    let taken = session.step(Event::Paired(Err("rejected".to_string())));
    assert_eq!(
        taken,
        step(
            vec![Report::PairingFailed("rejected".to_string())],
            next(Command::DiscoverServices { service: heart_rate_service_id() })
        )
    );
    assert_eq!(session, Session::DiscoveringService('p'));
}

#[test]
fn transport_error_ends_the_attempt_at_every_stage() {
    let cases: Vec<(Session<char>, Event<char>)> = vec![
        (Session::Listing, Event::Listed(Err("down".to_string()))),
        (Session::StartingScan, Event::ScanStarted(Err("down".to_string()))),
        (Session::Scanning, Event::Discovered(Err("down".to_string()))),
        (Session::Connecting('p'), Event::Connected(Err("down".to_string()))),
        (Session::CheckingPairing('p'), Event::PairingChecked(Err("down".to_string()))),
        (Session::DiscoveringService('p'), Event::ServicesFound(Err("down".to_string()))),
        (Session::DiscoveringCharacteristic('p'), Event::CharacteristicsFound(Err("down".to_string()))),
        (Session::Subscribing('p'), Event::Subscribed(Err("down".to_string()))),
        (Session::Streaming('p'), Event::Notified(Some(Err("down".to_string())))),
    ];
    for (mut session, event) in cases {
        let taken = session.step(event);
        assert_eq!(taken, step(vec![], Outcome::Failed(transport("down"))));
        assert_eq!(session, Session::Ended);
        assert_eq!(session.pending(), None);
        assert_eq!(session.device(), None);
    }
}

#[test]
fn peripheral_without_the_service_fails_the_attempt() {
    let mut session = Session::DiscoveringService('p');
    let taken = session.step(Event::ServicesFound(Ok(0)));
    assert_eq!(taken, step(vec![Report::DiscoveredService], Outcome::Failed(SessionError::NoService)));
    assert_eq!(session, Session::Ended);
}

#[test]
fn service_without_the_characteristic_fails_the_attempt() {
    let mut session = Session::DiscoveringCharacteristic('p');
    let taken = session.step(Event::CharacteristicsFound(Ok(0)));
    assert_eq!(
        taken,
        step(vec![Report::DiscoveredCharacteristic], Outcome::Failed(SessionError::NoCharacteristic))
    );
    assert_eq!(session, Session::Ended);
}

#[test]
fn several_matches_go_on_with_the_first() {
    let mut session = Session::DiscoveringService('p');
    let taken = session.step(Event::ServicesFound(Ok(3)));
    assert_eq!(taken.reports, vec![Report::DiscoveredService]);
    assert_eq!(session, Session::DiscoveringCharacteristic('p'));
    let taken = session.step(Event::CharacteristicsFound(Ok(usize::MAX)));
    assert_eq!(taken.outcome, next(Command::Subscribe));
}

#[test]
fn each_notification_is_decoded_and_reported() {
    let mut session = Session::Streaming('p');
    let taken = session.step(Event::Notified(Some(Ok(vec![0x06, 0x4B]))));
    let reading = HeartRateReading { heart_rate: 75, sensor_contact: Some(true) };
    assert_eq!(taken, step(vec![Report::Reading(reading)], next(Command::NextNotification)));
    assert_eq!(session, Session::Streaming('p'));
    let taken = session.step(Event::Notified(Some(Ok(vec![0x01, 0x2C, 0x01, 0xAA]))));
    let reading = HeartRateReading { heart_rate: 300, sensor_contact: None };
    assert_eq!(taken, step(vec![Report::Reading(reading)], next(Command::NextNotification)));
    assert_eq!(session, Session::Streaming('p'));
}

#[test]
fn malformed_notification_ends_the_attempt() {
    for payload in [vec![], vec![0x00], vec![0x07, 0x46]] {
        let mut session = Session::Streaming('p');
        let taken = session.step(Event::Notified(Some(Ok(payload))));
        assert_eq!(taken, step(vec![], Outcome::Failed(SessionError::Decode(DecodeError::TooShort))));
        assert_eq!(session, Session::Ended);
    }
}

#[test]
fn end_of_stream_ends_the_attempt() {
    let mut session = Session::Streaming('p');
    let taken = session.step(Event::Notified(None));
    assert_eq!(taken, step(vec![], Outcome::Failed(SessionError::StreamEnded)));
    assert_eq!(session, Session::Ended);
}

#[test]
fn stream_error_comes_after_the_readings_in_order() {
    let mut session = Session::Streaming('p');
    let mut reported = Vec::new();
    for rate in 60u8..70 {
        let taken = session.step(Event::Notified(Some(Ok(vec![0x00, rate]))));
        assert_eq!(taken.outcome, next(Command::NextNotification));
        reported.extend(taken.reports);
    }
    let taken = session.step(Event::Notified(Some(Err("link lost".to_string()))));
    assert_eq!(taken, step(vec![], Outcome::Failed(transport("link lost"))));
    let expected: Vec<Report> = (60u16..70)
        .map(|rate| Report::Reading(HeartRateReading { heart_rate: rate, sensor_contact: None }))
        .collect();
    assert_eq!(reported, expected);
    assert_eq!(session, Session::Ended);
}

#[test]
fn event_that_answers_another_command_ends_the_attempt() {
    let cases: Vec<(Session<char>, Event<char>)> = vec![
        (Session::Listing, Event::ScanStarted(Ok(()))),
        (Session::Listing, Event::Discovered(Ok('q'))),
        (Session::StartingScan, Event::Listed(Ok(vec!['q']))),
        (Session::Scanning, Event::LinkChecked(true)),
        (Session::CheckingLink('p'), Event::Connected(Ok(()))),
        (Session::Connecting('p'), Event::LinkChecked(true)),
        (Session::CheckingPairing('p'), Event::Paired(Ok(()))),
        (Session::Pairing('p'), Event::PairingChecked(Ok(true))),
        (Session::DiscoveringService('p'), Event::CharacteristicsFound(Ok(1))),
        (Session::DiscoveringCharacteristic('p'), Event::ServicesFound(Ok(1))),
        (Session::Subscribing('p'), Event::Notified(None)),
        (Session::Streaming('p'), Event::Subscribed(Ok(()))),
        (Session::Ended, Event::Listed(Ok(vec!['q']))),
        (Session::Ended, Event::Notified(Some(Ok(vec![0x00, 60])))),
    ];
    for (mut session, event) in cases {
        let taken = session.step(event);
        assert_eq!(taken, step(vec![], Outcome::Failed(SessionError::UnexpectedEvent)));
        assert_eq!(session, Session::Ended);
    }
}

#[test]
fn pending_command_is_the_one_the_step_asked_for() {
    let mut session: Session<u8> = Session::new();
    let events = vec![
        Event::Listed(Ok(vec![])),
        Event::ScanStarted(Ok(())),
        Event::Discovered(Ok(9)),
        Event::LinkChecked(false),
        Event::Connected(Ok(())),
        Event::PairingChecked(Ok(false)),
        Event::Paired(Err("no".to_string())),
        Event::ServicesFound(Ok(1)),
        Event::CharacteristicsFound(Ok(2)),
        Event::Subscribed(Ok(())),
        Event::Notified(Some(Ok(vec![0x00, 61]))),
    ];
    let mut asked = Vec::new();
    for event in events {
        let taken = session.step(event);
        match taken.outcome {
            Outcome::Continue(command) => {
                assert_eq!(session.pending(), Some(command));
                asked.push(command);
            }
            Outcome::Failed(error) => panic!("{error:?}"),
        }
    }
    assert_eq!(
        asked,
        vec![
            Command::StartScan { service: heart_rate_service_id() },
            Command::NextDiscovered,
            Command::CheckLink,
            Command::Connect,
            Command::CheckPairing,
            Command::Pair,
            Command::DiscoverServices { service: heart_rate_service_id() },
            Command::DiscoverCharacteristics { characteristic: heart_rate_measurement_id() },
            Command::Subscribe,
            Command::NextNotification,
            Command::NextNotification,
        ]
    );
    assert_eq!(session.device(), Some(&9));
}

#[test]
fn each_session_is_in_its_stage() {
    let stages: Vec<(Session<char>, Stage)> = vec![
        (Session::Listing, Stage::Acquire),
        (Session::StartingScan, Stage::Acquire),
        (Session::Scanning, Stage::Acquire),
        (Session::CheckingLink('p'), Stage::Link),
        (Session::Connecting('p'), Stage::Link),
        (Session::CheckingPairing('p'), Stage::Secure),
        (Session::Pairing('p'), Stage::Secure),
        (Session::DiscoveringService('p'), Stage::DiscoverService),
        (Session::DiscoveringCharacteristic('p'), Stage::DiscoverCharacteristic),
        (Session::Subscribing('p'), Stage::Stream),
        (Session::Streaming('p'), Stage::Stream),
        (Session::Ended, Stage::Ended),
    ];
    for (session, stage) in stages {
        assert_eq!(session.stage(), stage);
    }
}
