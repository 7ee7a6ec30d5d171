//! What can go wrong in an operation on a relay board, and how it reads.

use crate::protocol::RelayStatus;
use crate::text::{decimal, hex_byte, push_decimal, push_hex_byte};
use i2cdev::linux::LinuxI2CError;
use vstd::prelude::*;
use vstd::std_specs::convert::FromSpecImpl;
use vstd::string::StringExecFns;

verus! {

/// `i2cdev::linux::LinuxI2CError`, the error of a transfer on a Linux I2C
/// bus. It is carried along as it came, and nothing is known of what it holds.
#[verifier::external_type_specification]
#[verifier::external_body]
pub struct ExLinuxI2CError(i2cdev::linux::LinuxI2CError);

/// Why an operation on a relay board failed.
#[derive(Debug)]
#[allow(inconsistent_fields)]
pub enum RelayError {
    /// A transfer on the bus failed.
    I2C(LinuxI2CError),
    /// The relay did not reach the commanded state within the attempts allowed.
    StateVerificationFailed { relay_num: Option<u8>, expected: bool, actual: bool, attempts: u16 },
    /// The relay was not confirmed in the expected status.
    VerificationFailed { relay_num: Option<u8>, expected: RelayStatus, attempts: u8 },
    /// The expected status was not confirmed in time.
    VerificationTimeout { relay_num: Option<u8>, expected: RelayStatus, timeout_ms: u64 },
    /// The operation had taken longer than allowed when a new attempt was due.
    Timeout { relay_num: Option<u8>, operation: String, duration_ms: u64 },
    /// The configuration cannot be used.
    InvalidConfiguration(String),
    /// The board has no relay of that number.
    InvalidRelayNumber { relay_num: u8, max_relays: u8 },
    /// The address is not one a board can be moved to.
    InvalidI2CAddress(u8),
}

pub type RelayResult<T> = Result<T, RelayError>;

/// A `RelayError` with its texts as sequences of characters.
#[allow(inconsistent_fields)]
pub enum RelayErrorView {
    I2C(LinuxI2CError),
    StateVerificationFailed { relay_num: Option<u8>, expected: bool, actual: bool, attempts: u16 },
    VerificationFailed { relay_num: Option<u8>, expected: RelayStatus, attempts: u8 },
    VerificationTimeout { relay_num: Option<u8>, expected: RelayStatus, timeout_ms: u64 },
    Timeout { relay_num: Option<u8>, operation: Seq<char>, duration_ms: u64 },
    InvalidConfiguration(Seq<char>),
    InvalidRelayNumber { relay_num: u8, max_relays: u8 },
    InvalidI2CAddress(u8),
}

impl View for RelayError {
    type V = RelayErrorView;

    open spec fn view(&self) -> RelayErrorView {
        match *self {
            RelayError::I2C(error) => RelayErrorView::I2C(error),
            RelayError::StateVerificationFailed { relay_num, expected, actual, attempts } =>
                RelayErrorView::StateVerificationFailed { relay_num, expected, actual, attempts },
            RelayError::VerificationFailed { relay_num, expected, attempts } =>
                RelayErrorView::VerificationFailed { relay_num, expected, attempts },
            RelayError::VerificationTimeout { relay_num, expected, timeout_ms } =>
                RelayErrorView::VerificationTimeout { relay_num, expected, timeout_ms },
            RelayError::Timeout { relay_num, operation, duration_ms } => RelayErrorView::Timeout {
                relay_num,
                operation: operation@,
                duration_ms,
            },
            RelayError::InvalidConfiguration(message) => RelayErrorView::InvalidConfiguration(
                message@,
            ),
            RelayError::InvalidRelayNumber { relay_num, max_relays } =>
                RelayErrorView::InvalidRelayNumber { relay_num, max_relays },
            RelayError::InvalidI2CAddress(address) => RelayErrorView::InvalidI2CAddress(address),
        }
    }
}

impl From<LinuxI2CError> for RelayError {
    fn from(error: LinuxI2CError) -> (wrapped: RelayError) {
        RelayError::I2C(error)
    }
}

impl FromSpecImpl<LinuxI2CError> for RelayError {
    open spec fn obeys_from_spec() -> bool {
        true
    }

    open spec fn from_spec(error: LinuxI2CError) -> RelayError {
        RelayError::I2C(error)
    }
}

/// How a message names the relay it is about.
pub open spec fn relay_label(relay_num: Option<u8>) -> Seq<char> {
    match relay_num {
        Some(number) => "relay "@ + decimal(number as nat),
        None => "relay"@,
    }
}

/// How a message names a state.
pub open spec fn state_label(on: bool) -> Seq<char> {
    if on {
        "ON"@
    } else {
        "OFF"@
    }
}

/// How a message names a status.
pub open spec fn status_label(status: RelayStatus) -> Seq<char> {
    match status {
        RelayStatus::On => "On"@,
        RelayStatus::Off => "Off"@,
    }
}

impl RelayErrorView {
    /// The message of an error. `detail` is what the bus said of its own
    /// error; only the message of a bus error holds it.
    pub open spec fn text(self, detail: Seq<char>) -> Seq<char> {
        match self {
            RelayErrorView::I2C(_) => "I2C error: "@ + detail,
            RelayErrorView::StateVerificationFailed { relay_num, expected, actual, attempts } =>
                "State verification failed for "@ + relay_label(relay_num) + ": expected "@
                    + state_label(expected) + ", got "@ + state_label(actual) + " after "@
                    + decimal(attempts as nat) + " attempts"@,
            RelayErrorView::VerificationFailed { relay_num, expected, attempts } =>
                "Verification failed for "@ + relay_label(relay_num) + ": expected "@
                    + status_label(expected) + " after "@ + decimal(attempts as nat)
                    + " attempts"@,
            RelayErrorView::VerificationTimeout { relay_num, expected, timeout_ms } =>
                "Verification timeout for "@ + relay_label(relay_num) + ": expected "@
                    + status_label(expected) + " after "@ + decimal(timeout_ms as nat) + "ms"@,
            RelayErrorView::Timeout { relay_num, operation, duration_ms } => "Timeout during "@
                + operation + " for "@ + relay_label(relay_num) + ": exceeded "@ + decimal(
                duration_ms as nat,
            ) + "ms"@,
            RelayErrorView::InvalidConfiguration(message) => "Invalid configuration: "@ + message,
            RelayErrorView::InvalidRelayNumber { relay_num, max_relays } =>
                "Invalid relay number "@ + decimal(relay_num as nat) + ": valid range is 1-"@
                    + decimal(max_relays as nat),
            RelayErrorView::InvalidI2CAddress(address) => "Invalid I2C address 0x"@ + hex_byte(
                address,
            ) + ": valid range is 0x08-0x77"@,
        }
    }
}

/// The text that `Display` of `i2cdev::linux::LinuxI2CError` writes for an
/// error. It is the bus library's own, and nothing is claimed of it.
#[verifier::external_body]
fn bus_error_text(error: &LinuxI2CError) -> String {
    format!("{}", error)
}

fn push_relay_label(text: &mut String, relay_num: Option<u8>)
    ensures
        final(text)@ == old(text)@ + relay_label(relay_num),
{
    match relay_num {
        Some(number) => {
            text.append("relay ");
            push_decimal(text, number as u64);
            assert(text@ =~= old(text)@ + relay_label(relay_num));
        },
        None => {
            text.append("relay");
        },
    }
}

fn push_state_label(text: &mut String, on: bool)
    ensures
        final(text)@ == old(text)@ + state_label(on),
{
    if on {
        text.append("ON");
    } else {
        text.append("OFF");
    }
}

fn push_status_label(text: &mut String, status: RelayStatus)
    ensures
        final(text)@ == old(text)@ + status_label(status),
{
    match status {
        RelayStatus::On => text.append("On"),
        RelayStatus::Off => text.append("Off"),
    }
}

impl RelayError {
    /// The message of this error, with `detail` for what the bus said of its own error.
    pub fn describe(&self, detail: &str) -> (text: String)
        ensures
            text@ == self@.text(detail@),
    {
        match self {
            RelayError::I2C(_) => {
                let mut text = String::from_str("I2C error: ");
                text.append(detail);
                text
            },
            RelayError::StateVerificationFailed { relay_num, expected, actual, attempts } => {
                let mut text = String::from_str("State verification failed for ");
                push_relay_label(&mut text, *relay_num);
                text.append(": expected ");
                push_state_label(&mut text, *expected);
                text.append(", got ");
                push_state_label(&mut text, *actual);
                text.append(" after ");
                push_decimal(&mut text, *attempts as u64);
                text.append(" attempts");
                text
            },
            RelayError::VerificationFailed { relay_num, expected, attempts } => {
                let mut text = String::from_str("Verification failed for ");
                push_relay_label(&mut text, *relay_num);
                text.append(": expected ");
                push_status_label(&mut text, *expected);
                text.append(" after ");
                push_decimal(&mut text, *attempts as u64);
                text.append(" attempts");
                text
            },
            RelayError::VerificationTimeout { relay_num, expected, timeout_ms } => {
                let mut text = String::from_str("Verification timeout for ");
                push_relay_label(&mut text, *relay_num);
                text.append(": expected ");
                push_status_label(&mut text, *expected);
                text.append(" after ");
                push_decimal(&mut text, *timeout_ms);
                text.append("ms");
                text
            },
            RelayError::Timeout { relay_num, operation, duration_ms } => {
                let mut text = String::from_str("Timeout during ");
                text.append(operation.as_str());
                text.append(" for ");
                push_relay_label(&mut text, *relay_num);
                text.append(": exceeded ");
                push_decimal(&mut text, *duration_ms);
                text.append("ms");
                text
            },
            RelayError::InvalidConfiguration(message) => {
                let mut text = String::from_str("Invalid configuration: ");
                text.append(message.as_str());
                text
            },
            RelayError::InvalidRelayNumber { relay_num, max_relays } => {
                let mut text = String::from_str("Invalid relay number ");
                push_decimal(&mut text, *relay_num as u64);
                text.append(": valid range is 1-");
                push_decimal(&mut text, *max_relays as u64);
                text
            },
            RelayError::InvalidI2CAddress(address) => {
                let mut text = String::from_str("Invalid I2C address 0x");
                push_hex_byte(&mut text, *address);
                text.append(": valid range is 0x08-0x77");
                text
            },
        }
    }

    /// The message of this error. For a bus error it ends in what the bus
    /// said of it.
    pub fn message(&self) -> (text: String)
        ensures
            exists|detail: Seq<char>| text@ == self@.text(detail),
            !(self is I2C) ==> text@ == self@.text(Seq::empty()),
    {
        match self {
            RelayError::I2C(error) => {
                let detail = bus_error_text(error);
                self.describe(detail.as_str())
            },
            _ => {
                proof {
                    reveal_strlit("");
                    assert(""@ =~= Seq::<char>::empty());
                }
                self.describe("")
            },
        }
    }
}

} // verus!
