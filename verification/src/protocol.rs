//! The bytes a Qwiic Relay board understands: bus addresses, commands,
//! registers and status values.

use vstd::prelude::*;
use vstd::std_specs::convert::FromSpecImpl;

verus! {

/// Bus addresses of the board variants, as shipped and with the address jumper closed.
#[derive(Clone, Copy, Debug, PartialEq, Eq, Structural)]
pub enum Addresses {
    SingleRelayDefault,
    SingleRelayJumperClosed,
    QuadRelayDefault,
    QuadRelayJumperClosed,
    DualSolidState,
    DualSolidStateJumperClosed,
    QuadSolidState,
    QuadSolidStateJumperClosed,
}

impl Addresses {
    /// The address on the bus.
    pub open spec fn value(self) -> u16 {
        match self {
            Addresses::SingleRelayDefault => 0x18,
            Addresses::SingleRelayJumperClosed => 0x19,
            Addresses::QuadRelayDefault => 0x6D,
            Addresses::QuadRelayJumperClosed => 0x6C,
            Addresses::DualSolidState => 0x0A,
            Addresses::DualSolidStateJumperClosed => 0x0B,
            Addresses::QuadSolidState => 0x08,
            Addresses::QuadSolidStateJumperClosed => 0x09,
        }
    }
}

impl From<Addresses> for u16 {
    fn from(address: Addresses) -> (value: u16) {
        match address {
            Addresses::SingleRelayDefault => 0x18,
            Addresses::SingleRelayJumperClosed => 0x19,
            Addresses::QuadRelayDefault => 0x6D,
            Addresses::QuadRelayJumperClosed => 0x6C,
            Addresses::DualSolidState => 0x0A,
            Addresses::DualSolidStateJumperClosed => 0x0B,
            Addresses::QuadSolidState => 0x08,
            Addresses::QuadSolidStateJumperClosed => 0x09,
        }
    }
}

impl FromSpecImpl<Addresses> for u16 {
    open spec fn obeys_from_spec() -> bool {
        true
    }

    open spec fn from_spec(address: Addresses) -> u16 {
        address.value()
    }
}

/// Command and register bytes of the boards with more than one relay.
#[derive(Clone, Copy, Debug, PartialEq, Eq, Structural)]
pub enum Command {
    /// Added to a relay number, gives the command that toggles that relay.
    DualQuadToggleBase,
    ToggleRelayOne,
    ToggleRelayTwo,
    ToggleRelayThree,
    ToggleRelayFour,
    RelayOneStatus,
    RelayTwoStatus,
    RelayThreeStatus,
    RelayFourStatus,
    TurnAllOff,
    TurnAllOn,
    ToggleAll,
}

impl Command {
    /// The byte sent to the board.
    pub open spec fn code(self) -> u8 {
        match self {
            Command::DualQuadToggleBase => 0x00,
            Command::ToggleRelayOne => 0x01,
            Command::ToggleRelayTwo => 0x02,
            Command::ToggleRelayThree => 0x03,
            Command::ToggleRelayFour => 0x04,
            Command::RelayOneStatus => 0x05,
            Command::RelayTwoStatus => 0x06,
            Command::RelayThreeStatus => 0x07,
            Command::RelayFourStatus => 0x08,
            Command::TurnAllOff => 0x0A,
            Command::TurnAllOn => 0x0B,
            Command::ToggleAll => 0x0C,
        }
    }
}

impl From<Command> for u8 {
    fn from(command: Command) -> (code: u8) {
        match command {
            Command::DualQuadToggleBase => 0x00,
            Command::ToggleRelayOne => 0x01,
            Command::ToggleRelayTwo => 0x02,
            Command::ToggleRelayThree => 0x03,
            Command::ToggleRelayFour => 0x04,
            Command::RelayOneStatus => 0x05,
            Command::RelayTwoStatus => 0x06,
            Command::RelayThreeStatus => 0x07,
            Command::RelayFourStatus => 0x08,
            Command::TurnAllOff => 0x0A,
            Command::TurnAllOn => 0x0B,
            Command::ToggleAll => 0x0C,
        }
    }
}

impl FromSpecImpl<Command> for u8 {
    open spec fn obeys_from_spec() -> bool {
        true
    }

    open spec fn from_spec(command: Command) -> u8 {
        command.code()
    }
}

/// Command and register bytes of the single-relay board.
#[derive(Clone, Copy, Debug, PartialEq, Eq, Structural)]
pub enum RelayState {
    Off,
    On,
    SingleFirmwareVersion,
    SingleStatusVersion,
}

impl RelayState {
    /// The byte sent to the board.
    pub open spec fn code(self) -> u8 {
        match self {
            RelayState::Off => 0x00,
            RelayState::On => 0x01,
            RelayState::SingleFirmwareVersion => 0x04,
            RelayState::SingleStatusVersion => 0x05,
        }
    }
}

impl From<RelayState> for u8 {
    fn from(state: RelayState) -> (code: u8) {
        match state {
            RelayState::Off => 0x00,
            RelayState::On => 0x01,
            RelayState::SingleFirmwareVersion => 0x04,
            RelayState::SingleStatusVersion => 0x05,
        }
    }
}

impl FromSpecImpl<RelayState> for u8 {
    open spec fn obeys_from_spec() -> bool {
        true
    }

    open spec fn from_spec(state: RelayState) -> u8 {
        state.code()
    }
}

/// What a status register says of its relay.
#[derive(Clone, Copy, Debug, PartialEq, Eq, Structural)]
pub enum RelayStatus {
    Off,
    On,
}

impl RelayStatus {
    /// The status a register byte stands for: any byte but zero means on.
    pub open spec fn of_byte(byte: u8) -> RelayStatus {
        if byte != 0 {
            RelayStatus::On
        } else {
            RelayStatus::Off
        }
    }

    pub open spec fn of_bool(on: bool) -> RelayStatus {
        if on {
            RelayStatus::On
        } else {
            RelayStatus::Off
        }
    }

    pub open spec fn is_on(self) -> bool {
        self == RelayStatus::On
    }

    /// The byte of a status: 1 for on, 0 for off.
    pub open spec fn byte(self) -> u8 {
        match self {
            RelayStatus::Off => 0,
            RelayStatus::On => 1,
        }
    }
}

impl From<bool> for RelayStatus {
    fn from(value: bool) -> (status: RelayStatus) {
        if value {
            RelayStatus::On
        } else {
            RelayStatus::Off
        }
    }
}

impl FromSpecImpl<bool> for RelayStatus {
    open spec fn obeys_from_spec() -> bool {
        true
    }

    open spec fn from_spec(value: bool) -> RelayStatus {
        RelayStatus::of_bool(value)
    }
}

impl From<RelayStatus> for bool {
    fn from(status: RelayStatus) -> (on: bool) {
        match status {
            RelayStatus::On => true,
            RelayStatus::Off => false,
        }
    }
}

impl FromSpecImpl<RelayStatus> for bool {
    open spec fn obeys_from_spec() -> bool {
        true
    }

    open spec fn from_spec(status: RelayStatus) -> bool {
        status.is_on()
    }
}

impl From<u8> for RelayStatus {
    fn from(value: u8) -> (status: RelayStatus) {
        if value != 0 {
            RelayStatus::On
        } else {
            RelayStatus::Off
        }
    }
}

impl FromSpecImpl<u8> for RelayStatus {
    open spec fn obeys_from_spec() -> bool {
        true
    }

    open spec fn from_spec(value: u8) -> RelayStatus {
        RelayStatus::of_byte(value)
    }
}

impl From<RelayStatus> for u8 {
    fn from(status: RelayStatus) -> (byte: u8) {
        match status {
            RelayStatus::Off => 0,
            RelayStatus::On => 1,
        }
    }
}

impl FromSpecImpl<RelayStatus> for u8 {
    open spec fn obeys_from_spec() -> bool {
        true
    }

    open spec fn from_spec(status: RelayStatus) -> u8 {
        status.byte()
    }
}

/// Register that holds the firmware version.
pub const FIRMWARE_VERSION_REGISTER: u8 = 0x04;

/// Added to a relay number, gives the register that holds that relay's status.
pub const STATUS_REGISTER_BASE: u8 = 0x04;

/// Register that holds the status of the relay of a single-relay board.
pub const SINGLE_STATUS_REGISTER: u8 = 0x05;

/// Register through which a board is given a new bus address.
pub const CHANGE_ADDRESS_COMMAND: u8 = 0xC7;

/// Lowest bus address a board can be moved to; the ones below are reserved.
pub const LOWEST_ADDRESS: u8 = 0x08;

/// Highest bus address a board can be moved to; the ones above are reserved.
pub const HIGHEST_ADDRESS: u8 = 0x77;

/// Milliseconds a board needs to store a new address.
pub const ADDRESS_SETTLE_MS: u64 = 100;

pub open spec fn spec_address_allowed(address: u8) -> bool {
    LOWEST_ADDRESS <= address <= HIGHEST_ADDRESS
}

/// Whether a board can be moved to this bus address.
#[verifier::when_used_as_spec(spec_address_allowed)]
pub fn address_allowed(address: u8) -> (allowed: bool)
    ensures
        allowed == spec_address_allowed(address),
{
    LOWEST_ADDRESS <= address && address <= HIGHEST_ADDRESS
}

pub open spec fn spec_status_register(relay_num: Option<u8>) -> u8 {
    match relay_num {
        Some(number) => ((STATUS_REGISTER_BASE + number) % 256) as u8,
        None => SINGLE_STATUS_REGISTER,
    }
}

/// The register that holds the status of a relay. Register addresses are one
/// byte wide, so the sum wraps; below relay 252 it never does.
#[verifier::when_used_as_spec(spec_status_register)]
pub fn status_register(relay_num: Option<u8>) -> (register: u8)
    ensures
        register == spec_status_register(relay_num),
{
    match relay_num {
        Some(number) => if number <= u8::MAX - STATUS_REGISTER_BASE {
            STATUS_REGISTER_BASE + number
        } else {
            number - (u8::MAX - STATUS_REGISTER_BASE) - 1
        },
        None => SINGLE_STATUS_REGISTER,
    }
}

pub open spec fn spec_switch_command(relay_num: Option<u8>, on: bool) -> u8 {
    match relay_num {
        Some(number) => number,
        None => if on {
            RelayState::On.code()
        } else {
            RelayState::Off.code()
        },
    }
}

/// The command that changes the state of a relay: a numbered relay is
/// toggled, the relay of a single-relay board is told the state to take.
#[verifier::when_used_as_spec(spec_switch_command)]
pub fn switch_command(relay_num: Option<u8>, on: bool) -> (command: u8)
    ensures
        command == spec_switch_command(relay_num, on),
{
    match relay_num {
        Some(number) => number,
        None => if on {
            u8::from(RelayState::On)
        } else {
            u8::from(RelayState::Off)
        },
    }
}

pub open spec fn spec_broadcast_command(on: bool) -> u8 {
    if on {
        Command::TurnAllOn.code()
    } else {
        Command::TurnAllOff.code()
    }
}

/// The command that puts every relay of the board in one state.
#[verifier::when_used_as_spec(spec_broadcast_command)]
pub fn broadcast_command(on: bool) -> (command: u8)
    ensures
        command == spec_broadcast_command(on),
{
    if on {
        u8::from(Command::TurnAllOn)
    } else {
        u8::from(Command::TurnAllOff)
    }
}

/// A status survives the way through a boolean and back, and so does a
/// boolean through a status. A register byte comes back only if it is 0 or 1:
/// every other byte reads as on, and on is written as 1.
pub proof fn lemma_status_round_trips(byte: u8, on: bool, status: RelayStatus)
    ensures
        RelayStatus::of_bool(RelayStatus::of_byte(byte).is_on()) == RelayStatus::of_byte(byte),
        RelayStatus::of_byte(byte).is_on() <==> byte != 0,
        RelayStatus::of_byte(byte).byte() == byte <==> byte <= 1,
        byte != 0 ==> RelayStatus::of_byte(byte).byte() == 1,
        RelayStatus::of_bool(on).is_on() == on,
        RelayStatus::of_bool(status.is_on()) == status,
        RelayStatus::of_byte(status.byte()) == status,
        RelayStatus::On.byte() == 1,
{
}

} // verus!
