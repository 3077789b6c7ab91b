//! What the user is told, as text: one line for each report of a session,
//! and one for the reason of giving up.

use crate::measurement::{DecodeError, HeartRateReading};
use crate::session::{Report, SessionError, Stage};
use crate::supervisor::Fatal;
use vstd::prelude::*;
use vstd::string::*;

verus! {

/// The character of a decimal digit.
pub open spec fn digit_char(digit: nat) -> char
    recommends
        digit < 10,
{
    if digit == 0 {
        '0'
    } else if digit == 1 {
        '1'
    } else if digit == 2 {
        '2'
    } else if digit == 3 {
        '3'
    } else if digit == 4 {
        '4'
    } else if digit == 5 {
        '5'
    } else if digit == 6 {
        '6'
    } else if digit == 7 {
        '7'
    } else if digit == 8 {
        '8'
    } else {
        '9'
    }
}

/// A number in decimal digits, without leading zeros.
pub open spec fn decimal(number: nat) -> Seq<char>
    decreases number,
{
    if number < 10 {
        seq![digit_char(number)]
    } else {
        decimal(number / 10).push(digit_char(number % 10))
    }
}

/// The text of one decimal digit.
pub(crate) fn digit_text(digit: u8) -> (result: &'static str)
    requires
        digit < 10,
    ensures
        result@ == seq![digit_char(digit as nat)],
{
    proof {
        reveal_strlit("0");
        reveal_strlit("1");
        reveal_strlit("2");
        reveal_strlit("3");
        reveal_strlit("4");
        reveal_strlit("5");
        reveal_strlit("6");
        reveal_strlit("7");
        reveal_strlit("8");
        reveal_strlit("9");
    }
    let text = match digit {
        0 => "0",
        1 => "1",
        2 => "2",
        3 => "3",
        4 => "4",
        5 => "5",
        6 => "6",
        7 => "7",
        8 => "8",
        _ => "9",
    };
    assert(text@ =~= seq![digit_char(digit as nat)]);
    text
}

/// Writes a number in decimal digits, without leading zeros.
pub fn decimal_text(number: u16) -> (result: String)
    ensures
        result@ == decimal(number as nat),
    decreases number,
{
    if number < 10 {
        String::from_str(digit_text(number as u8))
    } else {
        let mut text = decimal_text(number / 10);
        text.append(digit_text((number % 10) as u8));
        text
    }
}

/// The contact field of a reading as text.
pub open spec fn contact_text(contact: Option<bool>) -> Seq<char> {
    match contact {
        Some(true) => "Some(true)"@,
        Some(false) => "Some(false)"@,
        None => "None"@,
    }
}

/// The line that tells a reading.
pub open spec fn reading_text(reading: HeartRateReading) -> Seq<char> {
    "HeartRateValue: "@ + decimal(reading.heart_rate as nat) + ", SensorContactDetected: "@
        + contact_text(reading.sensor_contact)
}

/// The account of a failure. A transport error is told in the transport's words.
pub open spec fn error_text(error: SessionError) -> Seq<char> {
    match error {
        SessionError::Transport(detail) => detail@,
        SessionError::NoService => "device has no heart-rate service"@,
        SessionError::NoCharacteristic => "heart-rate service has no measurement characteristic"@,
        SessionError::Decode(DecodeError::TooShort) => "measurement too short"@,
        SessionError::StreamEnded => "stream ended unexpectedly"@,
        SessionError::UnexpectedEvent => "unexpected event"@,
    }
}

/// The name of a stage.
pub open spec fn stage_text(stage: Stage) -> Seq<char> {
    match stage {
        Stage::Acquire => "acquire"@,
        Stage::Link => "link"@,
        Stage::Secure => "secure"@,
        Stage::DiscoverService => "discover service"@,
        Stage::DiscoverCharacteristic => "discover characteristic"@,
        Stage::Stream => "stream"@,
        Stage::Ended => "ended"@,
    }
}

/// The line that tells a report. `device` describes the selected
/// peripheral; only the two reports that name it use it.
pub open spec fn report_text(report: Report, device: Seq<char>) -> Seq<char> {
    match report {
        Report::StartingScan => "Starting scan"@,
        Report::ScanStarted => "Scan started"@,
        Report::FoundDevice => "Found Device: "@ + device,
        Report::Connecting => "Connecting device: "@ + device,
        Report::Connected => "Connected"@,
        Report::Pairing => "Pairing"@,
        Report::PairingSucceeded => "Pairing success"@,
        Report::PairingFailed(detail) => "Failed to pair: "@ + detail@,
        Report::DiscoveredService => "Discovered service"@,
        Report::DiscoveredCharacteristic => "Discovered characteristic"@,
        Report::NotificationsEnabled => "Enabled notification"@,
        Report::Reading(reading) => reading_text(reading),
        Report::ConnectionError { stage, error } => "Connection error: "@ + stage_text(stage)
            + ": "@ + error_text(error),
    }
}

/// The account of why the supervisor gave up.
pub open spec fn fatal_text(fatal: Fatal) -> Seq<char> {
    match fatal {
        Fatal::AdapterNotFound => "Bluetooth adapter not found"@,
        Fatal::AdapterUnavailable(detail) => detail@,
    }
}

/// The name of a stage.
pub fn stage_name(stage: Stage) -> (result: &'static str)
    ensures
        result@ == stage_text(stage),
{
    match stage {
        Stage::Acquire => "acquire",
        Stage::Link => "link",
        Stage::Secure => "secure",
        Stage::DiscoverService => "discover service",
        Stage::DiscoverCharacteristic => "discover characteristic",
        Stage::Stream => "stream",
        Stage::Ended => "ended",
    }
}

/// Writes the line that tells a reading.
pub fn reading_line(reading: &HeartRateReading) -> (result: String)
    ensures
        result@ == reading_text(*reading),
{
    let mut line = String::from_str("HeartRateValue: ");
    let value = decimal_text(reading.heart_rate);
    line.append(value.as_str());
    line.append(", SensorContactDetected: ");
    let contact = match reading.sensor_contact {
        Some(true) => "Some(true)",
        Some(false) => "Some(false)",
        None => "None",
    };
    line.append(contact);
    line
}

/// Writes the account of a failure.
pub fn error_line(error: &SessionError) -> (result: String)
    ensures
        result@ == error_text(*error),
{
    match error {
        SessionError::Transport(detail) => detail.clone(),
        SessionError::NoService => String::from_str("device has no heart-rate service"),
        SessionError::NoCharacteristic => String::from_str(
            "heart-rate service has no measurement characteristic",
        ),
        SessionError::Decode(DecodeError::TooShort) => String::from_str("measurement too short"),
        SessionError::StreamEnded => String::from_str("stream ended unexpectedly"),
        SessionError::UnexpectedEvent => String::from_str("unexpected event"),
    }
}

/// Writes the line that tells a report about the peripheral described by `device`.
pub fn report_line(report: &Report, device: &str) -> (result: String)
    ensures
        result@ == report_text(*report, device@),
{
    match report {
        Report::StartingScan => String::from_str("Starting scan"),
        Report::ScanStarted => String::from_str("Scan started"),
        Report::FoundDevice => String::from_str("Found Device: ").concat(device),
        Report::Connecting => String::from_str("Connecting device: ").concat(device),
        Report::Connected => String::from_str("Connected"),
        Report::Pairing => String::from_str("Pairing"),
        Report::PairingSucceeded => String::from_str("Pairing success"),
        Report::PairingFailed(detail) => String::from_str("Failed to pair: ").concat(
            detail.as_str(),
        ),
        Report::DiscoveredService => String::from_str("Discovered service"),
        Report::DiscoveredCharacteristic => String::from_str("Discovered characteristic"),
        Report::NotificationsEnabled => String::from_str("Enabled notification"),
        Report::Reading(reading) => reading_line(reading),
        Report::ConnectionError { stage, error } => {
            let account = error_line(error);
            let mut line = String::from_str("Connection error: ");
            line.append(stage_name(*stage));
            line.append(": ");
            line.append(account.as_str());
            line
        },
    }
}

/// Writes the account of why the supervisor gave up.
pub fn fatal_line(fatal: &Fatal) -> (result: String)
    ensures
        result@ == fatal_text(*fatal),
{
    match fatal {
        Fatal::AdapterNotFound => String::from_str("Bluetooth adapter not found"),
        Fatal::AdapterUnavailable(detail) => detail.clone(),
    }
}

} // verus!
