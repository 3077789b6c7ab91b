use heart_rate::measurement::{DecodeError, HeartRateReading};
use heart_rate::session::{Report, SessionError, Stage};
use heart_rate::supervisor::Fatal;
use heart_rate::text::{decimal_text, error_line, fatal_line, reading_line, report_line, stage_name};

#[test]
fn digits_are_written_one_by_one() {
    let written: Vec<String> = (0u16..10).map(decimal_text).collect();
    assert_eq!(written, vec!["0", "1", "2", "3", "4", "5", "6", "7", "8", "9"]);
}

#[test]
fn each_stage_has_its_name() {
    assert_eq!(stage_name(Stage::Acquire), "acquire");
    assert_eq!(stage_name(Stage::Link), "link");
    assert_eq!(stage_name(Stage::Secure), "secure");
    assert_eq!(stage_name(Stage::DiscoverService), "discover service");
    assert_eq!(stage_name(Stage::DiscoverCharacteristic), "discover characteristic");
    assert_eq!(stage_name(Stage::Stream), "stream");
    assert_eq!(stage_name(Stage::Ended), "ended");
}

#[test]
fn numbers_are_written_without_leading_zeros() {
    assert_eq!(decimal_text(0), "0");
    assert_eq!(decimal_text(7), "7");
    assert_eq!(decimal_text(10), "10");
    assert_eq!(decimal_text(72), "72");
    assert_eq!(decimal_text(300), "300");
    assert_eq!(decimal_text(1000), "1000");
    assert_eq!(decimal_text(65535), "65535");
    for number in [0u16, 9, 10, 99, 100, 101, 255, 256, 9999, 10000, 40004, 65535] {
        assert_eq!(decimal_text(number), number.to_string());
    }
}

#[test]
fn reading_line_shows_rate_and_contact() {
    let reading = HeartRateReading { heart_rate: 75, sensor_contact: Some(true) };
    assert_eq!(reading_line(&reading), "HeartRateValue: 75, SensorContactDetected: Some(true)");
    let reading = HeartRateReading { heart_rate: 70, sensor_contact: Some(false) };
    assert_eq!(reading_line(&reading), "HeartRateValue: 70, SensorContactDetected: Some(false)");
    let reading = HeartRateReading { heart_rate: 0, sensor_contact: None };
    assert_eq!(reading_line(&reading), "HeartRateValue: 0, SensorContactDetected: None");
    let reading = HeartRateReading { heart_rate: 65535, sensor_contact: None };
    assert_eq!(reading_line(&reading), "HeartRateValue: 65535, SensorContactDetected: None");
}

#[test]
fn each_report_has_its_line() {
    let device = "[Polar H10] 01:23";
    let reading = HeartRateReading { heart_rate: 64, sensor_contact: None };
    let lines: Vec<(Report, &str)> = vec![
        (Report::StartingScan, "Starting scan"),
        (Report::ScanStarted, "Scan started"),
        (Report::FoundDevice, "Found Device: [Polar H10] 01:23"),
        (Report::Connecting, "Connecting device: [Polar H10] 01:23"),
        (Report::Connected, "Connected"),
        (Report::Pairing, "Pairing"),
        (Report::PairingSucceeded, "Pairing success"),
        (Report::PairingFailed("timeout".to_string()), "Failed to pair: timeout"),
        (Report::DiscoveredService, "Discovered service"),
        (Report::DiscoveredCharacteristic, "Discovered characteristic"),
        (Report::NotificationsEnabled, "Enabled notification"),
        (Report::Reading(reading), "HeartRateValue: 64, SensorContactDetected: None"),
        (
            Report::ConnectionError { stage: Stage::Link, error: SessionError::Transport("refused".to_string()) },
            "Connection error: link: refused",
        ),
        (
            Report::ConnectionError { stage: Stage::Stream, error: SessionError::StreamEnded },
            "Connection error: stream: stream ended unexpectedly",
        ),
        (
            Report::ConnectionError { stage: Stage::DiscoverService, error: SessionError::NoService },
            "Connection error: discover service: device has no heart-rate service",
        ),
    ];
    for (report, line) in lines {
        assert_eq!(report_line(&report, device), line);
    }
}

#[test]
fn each_failure_has_its_account() {
    assert_eq!(error_line(&SessionError::Transport("x y".to_string())), "x y");
    assert_eq!(error_line(&SessionError::NoService), "device has no heart-rate service");
    assert_eq!(
        error_line(&SessionError::NoCharacteristic),
        "heart-rate service has no measurement characteristic"
    );
    assert_eq!(error_line(&SessionError::Decode(DecodeError::TooShort)), "measurement too short");
    assert_eq!(error_line(&SessionError::StreamEnded), "stream ended unexpectedly");
    assert_eq!(error_line(&SessionError::UnexpectedEvent), "unexpected event");
}

#[test]
fn each_fatal_reason_has_its_account() {
    assert_eq!(fatal_line(&Fatal::AdapterNotFound), "Bluetooth adapter not found");
    assert_eq!(fatal_line(&Fatal::AdapterUnavailable("powered off".to_string())), "powered off");
}
