//! An operation on a relay board, as the sequence of requests it makes.
//!
//! Every request is for one thing that only the outside world can do: read a
//! register, write to the bus, pause, or read the clock. What follows a
//! request depends on how it was answered, and the functions of this module
//! say how: they are the whole of what an operation does.

use crate::config::QwiicRelayConfig;
use crate::error::RelayErrorView;
use crate::protocol::{
    address_allowed, broadcast_command, status_register, switch_command, RelayStatus,
    ADDRESS_SETTLE_MS, CHANGE_ADDRESS_COMMAND, FIRMWARE_VERSION_REGISTER,
};
use i2cdev::linux::LinuxI2CError;
use vstd::prelude::*;
use vstd::string::StringExecFns;

verus! {

/// The operations that confirm a state, by the names their timeouts carry.
#[derive(Clone, Copy, Debug, PartialEq, Eq, Structural)]
pub enum Operation {
    SetRelayOn,
    SetRelayOff,
    ToggleRelay,
    SetAllRelaysOn,
    SetAllRelaysOff,
}

impl Operation {
    /// The name of the operation.
    pub open spec fn name(self) -> Seq<char> {
        match self {
            Operation::SetRelayOn => "set_relay_on"@,
            Operation::SetRelayOff => "set_relay_off"@,
            Operation::ToggleRelay => "toggle_relay"@,
            Operation::SetAllRelaysOn => "set_all_relays_on"@,
            Operation::SetAllRelaysOff => "set_all_relays_off"@,
        }
    }

    /// The name of the operation, as a string.
    pub fn to_name(self) -> (name: String)
        ensures
            name@ == self.name(),
    {
        match self {
            Operation::SetRelayOn => String::from_str("set_relay_on"),
            Operation::SetRelayOff => String::from_str("set_relay_off"),
            Operation::ToggleRelay => String::from_str("toggle_relay"),
            Operation::SetAllRelaysOn => String::from_str("set_all_relays_on"),
            Operation::SetAllRelaysOff => String::from_str("set_all_relays_off"),
        }
    }

    pub open spec fn spec_setting(on: bool) -> Operation {
        if on {
            Operation::SetRelayOn
        } else {
            Operation::SetRelayOff
        }
    }

    /// The operation that puts one relay in a state.
    #[verifier::when_used_as_spec(spec_setting)]
    pub fn setting(on: bool) -> (operation: Operation)
        ensures
            operation == Self::spec_setting(on),
    {
        if on {
            Operation::SetRelayOn
        } else {
            Operation::SetRelayOff
        }
    }

    pub open spec fn spec_setting_all(on: bool) -> Operation {
        if on {
            Operation::SetAllRelaysOn
        } else {
            Operation::SetAllRelaysOff
        }
    }

    /// The operation that puts every relay in a state.
    #[verifier::when_used_as_spec(spec_setting_all)]
    pub fn setting_all(on: bool) -> (operation: Operation)
        ensures
            operation == Self::spec_setting_all(on),
    {
        if on {
            Operation::SetAllRelaysOn
        } else {
            Operation::SetAllRelaysOff
        }
    }

    pub open spec fn spec_on_all(self) -> bool {
        self == Operation::SetAllRelaysOn || self == Operation::SetAllRelaysOff
    }

    /// Whether the operation is on every relay of the board.
    #[verifier::when_used_as_spec(spec_on_all)]
    pub fn on_all(self) -> (all: bool)
        ensures
            all == self.spec_on_all(),
    {
        match self {
            Operation::SetAllRelaysOn | Operation::SetAllRelaysOff => true,
            Operation::SetRelayOn | Operation::SetRelayOff | Operation::ToggleRelay => false,
        }
    }
}

/// A length of time to pause for.
#[derive(Clone, Copy, Debug, PartialEq, Eq, Structural)]
pub enum Delay {
    Micros(u32),
    Millis(u64),
}

impl Delay {
    pub open spec fn spec_is_zero(self) -> bool {
        match self {
            Delay::Micros(micros) => micros == 0,
            Delay::Millis(millis) => millis == 0,
        }
    }

    /// Whether there is nothing to wait for.
    #[verifier::when_used_as_spec(spec_is_zero)]
    pub fn is_zero(self) -> (zero: bool)
        ensures
            zero == self.spec_is_zero(),
    {
        match self {
            Delay::Micros(micros) => micros == 0,
            Delay::Millis(millis) => millis == 0,
        }
    }
}

/// What a write puts on the bus.
#[derive(Clone, Copy, Debug, PartialEq, Eq, Structural)]
pub enum Transfer {
    /// A single command byte.
    Command(u8),
    /// A value for a register.
    Register { register: u8, value: u8 },
}

/// What an operation hands back when it succeeds.
#[derive(Clone, Copy, Debug, PartialEq, Eq, Structural)]
pub enum Reply {
    /// The operation has nothing to tell.
    Done,
    /// The status of the relay asked about.
    Status(RelayStatus),
    /// The firmware version of the board.
    Version(u8),
}

/// A relay on its way to a state, and how far the operation has come.
#[derive(Clone, Copy, Debug, PartialEq, Eq, Structural)]
pub struct Switching {
    pub operation: Operation,
    /// The configuration as it was when the operation began.
    pub config: QwiicRelayConfig,
    /// The relay to switch; for an operation on all relays, the one being confirmed.
    pub relay_num: Option<u8>,
    /// The state the relay is to take.
    pub expected: bool,
    /// Attempts that have failed so far.
    pub attempt: u8,
    /// Whether the attempt begins by reading the state, to write only if it differs.
    pub probe: bool,
    /// Clock reading, in nanoseconds, taken when the confirming began.
    pub started: u64,
}

impl Switching {
    pub open spec fn spec_confirms(&self) -> bool {
        self.config.verification.enabled()
    }

    /// Whether the state is read back after it was written.
    #[verifier::when_used_as_spec(spec_confirms)]
    pub fn confirms(&self) -> (confirms: bool)
        ensures
            confirms == self.spec_confirms(),
    {
        self.config.verification.enabled()
    }

    pub open spec fn spec_last_attempt(&self) -> bool {
        self.attempt >= self.config.verification.max_retries
    }

    /// Whether this attempt is the last one allowed.
    #[verifier::when_used_as_spec(spec_last_attempt)]
    pub fn last_attempt(&self) -> (last: bool)
        ensures
            last == self.spec_last_attempt(),
    {
        self.attempt >= self.config.verification.max_retries
    }

    /// The attempt after this one, which reads the state before it writes.
    pub open spec fn repeated(self) -> Switching {
        Switching { attempt: (self.attempt + 1) as u8, probe: true, ..self }
    }

    /// The first attempt on a relay.
    pub open spec fn from_start(self, relay_num: Option<u8>) -> Switching {
        Switching { relay_num, attempt: 0, probe: true, ..self }
    }
}

/// What a register is read for.
#[derive(Clone, Copy, Debug, PartialEq, Eq, Structural)]
pub enum Reading {
    /// To tell the status of a relay.
    Status { register: u8 },
    /// To tell the firmware version.
    Version,
    /// To learn the state that a toggle is to leave.
    Observe(Switching),
    /// To learn whether the relay needs switching at all.
    Probe(Switching),
    /// To confirm that the relay took the state.
    Confirm(Switching),
}

/// What is written to the bus.
#[derive(Clone, Copy, Debug, PartialEq, Eq, Structural)]
pub enum Writing {
    /// A command of the caller's, followed by the write delay.
    Raw { command: u8, delay_us: u32 },
    /// The new bus address of the board.
    Address { address: u8 },
    /// The command that switches one relay.
    Switch(Switching),
    /// The command that switches every relay.
    Broadcast(Switching),
}

/// What a pause is for.
#[derive(Clone, Copy, Debug, PartialEq, Eq, Structural)]
pub enum Pausing {
    /// The last step of an operation that has otherwise succeeded.
    Closing { delay: Delay },
    /// The write delay after a relay was switched.
    WriteDelay(Switching),
    /// The time the relay needs to change its state.
    StateChange(Switching),
    /// The wait before the state is read back.
    Verification(Switching),
    /// The wait before the attempt that is described, after one that failed.
    Retry(Switching),
    /// The write delay after all relays were switched.
    BroadcastWriteDelay(Switching),
    /// The time the relays need to change state after all were switched.
    BroadcastStateChange(Switching),
}

/// What the clock is read for.
#[derive(Clone, Copy, Debug, PartialEq, Eq, Structural)]
pub enum Timing {
    /// To note when the confirming of a relay began.
    Start(Switching),
    /// To see, before an attempt, whether the time allowed is over.
    Check(Switching),
}

/// The next step of an operation: a request to the outside world, or the result.
pub enum ActionView {
    Read(Reading),
    Write(Writing),
    Pause(Pausing),
    Clock(Timing),
    Finish(Result<Reply, RelayErrorView>),
}

impl Reading {
    pub open spec fn spec_register(&self) -> u8 {
        match *self {
            Reading::Status { register } => register,
            Reading::Version => FIRMWARE_VERSION_REGISTER,
            Reading::Observe(switching) | Reading::Probe(switching) | Reading::Confirm(
                switching,
            ) => status_register(switching.relay_num),
        }
    }

    /// The register to read.
    #[verifier::when_used_as_spec(spec_register)]
    pub fn register(&self) -> (register: u8)
        ensures
            register == self.spec_register(),
    {
        match self {
            Reading::Status { register } => *register,
            Reading::Version => FIRMWARE_VERSION_REGISTER,
            Reading::Observe(switching) | Reading::Probe(switching) | Reading::Confirm(
                switching,
            ) => status_register(switching.relay_num),
        }
    }
}

impl Writing {
    pub open spec fn spec_transfer(&self) -> Transfer {
        match *self {
            Writing::Raw { command, .. } => Transfer::Command(command),
            Writing::Address { address } => Transfer::Register {
                register: CHANGE_ADDRESS_COMMAND,
                value: address,
            },
            Writing::Switch(switching) => Transfer::Command(
                switch_command(switching.relay_num, switching.expected),
            ),
            Writing::Broadcast(switching) => Transfer::Command(
                broadcast_command(switching.expected),
            ),
        }
    }

    /// What to put on the bus.
    #[verifier::when_used_as_spec(spec_transfer)]
    pub fn transfer(&self) -> (transfer: Transfer)
        ensures
            transfer == self.spec_transfer(),
    {
        match self {
            Writing::Raw { command, .. } => Transfer::Command(*command),
            Writing::Address { address } => Transfer::Register {
                register: CHANGE_ADDRESS_COMMAND,
                value: *address,
            },
            Writing::Switch(switching) => Transfer::Command(
                switch_command(switching.relay_num, switching.expected),
            ),
            Writing::Broadcast(switching) => Transfer::Command(
                broadcast_command(switching.expected),
            ),
        }
    }
}

impl Pausing {
    pub open spec fn spec_delay(&self) -> Delay {
        match *self {
            Pausing::Closing { delay } => delay,
            Pausing::WriteDelay(switching) | Pausing::BroadcastWriteDelay(switching) => Delay::Micros(
                switching.config.write_delay_us,
            ),
            Pausing::StateChange(switching) | Pausing::BroadcastStateChange(switching) => Delay::Millis(
                switching.config.state_change_delay_ms as u64,
            ),
            Pausing::Verification(switching) => Delay::Millis(
                switching.config.verification.verification_delay_ms,
            ),
            Pausing::Retry(switching) => Delay::Millis(
                switching.config.verification.retry_delay_ms,
            ),
        }
    }

    /// How long to pause.
    #[verifier::when_used_as_spec(spec_delay)]
    pub fn delay(&self) -> (delay: Delay)
        ensures
            delay == self.spec_delay(),
    {
        match self {
            Pausing::Closing { delay } => *delay,
            Pausing::WriteDelay(switching) | Pausing::BroadcastWriteDelay(switching) => Delay::Micros(
                switching.config.write_delay_us,
            ),
            Pausing::StateChange(switching) | Pausing::BroadcastStateChange(switching) => Delay::Millis(
                switching.config.state_change_delay_ms as u64,
            ),
            Pausing::Verification(switching) => Delay::Millis(
                switching.config.verification.verification_delay_ms,
            ),
            Pausing::Retry(switching) => Delay::Millis(
                switching.config.verification.retry_delay_ms,
            ),
        }
    }
}

impl ActionView {
    /// The operation has succeeded with nothing to tell.
    pub open spec fn done() -> ActionView {
        ActionView::Finish(Ok(Reply::Done))
    }

    /// The operation has failed on the bus.
    pub open spec fn bus_failure(error: LinuxI2CError) -> ActionView {
        ActionView::Finish(Err(RelayErrorView::I2C(error)))
    }

    /// The operation is on a relay that the board does not have.
    pub open spec fn no_such_relay(config: QwiicRelayConfig, number: u8) -> ActionView {
        ActionView::Finish(
            Err(
                RelayErrorView::InvalidRelayNumber {
                    relay_num: number,
                    max_relays: config.relay_count,
                },
            ),
        )
    }
}

/// A pause, unless there is nothing to wait for: a delay of zero is skipped.
pub open spec fn pause_or(pausing: Pausing, otherwise: ActionView) -> ActionView {
    if pausing.delay().is_zero() {
        otherwise
    } else {
        ActionView::Pause(pausing)
    }
}

/// Nanoseconds between two clock readings; none if the clock did not advance.
pub open spec fn elapsed_nanos(started: u64, now: u64) -> nat {
    if now >= started {
        (now - started) as nat
    } else {
        0
    }
}

/// Whether more time has passed than the milliseconds allowed.
pub open spec fn timed_out(nanos: nat, timeout_ms: u64) -> bool {
    nanos > timeout_ms * 1_000_000
}

/// The confirming of a relay begins: the clock is read for the starting time.
pub open spec fn confirm_from_start(switching: Switching) -> ActionView {
    ActionView::Clock(Timing::Start(switching))
}

/// An attempt begins with a look at the clock.
pub open spec fn attempt(switching: Switching) -> ActionView {
    ActionView::Clock(Timing::Check(switching))
}

/// The write delay, then what follows it.
pub open spec fn settle_after_write(switching: Switching) -> ActionView {
    pause_or(Pausing::WriteDelay(switching), settle_state_change(switching))
}

/// The time to change state, then what follows it.
pub open spec fn settle_state_change(switching: Switching) -> ActionView {
    pause_or(Pausing::StateChange(switching), settle_before_confirm(switching))
}

/// The wait before the read-back, then the read-back.
pub open spec fn settle_before_confirm(switching: Switching) -> ActionView {
    pause_or(Pausing::Verification(switching), ActionView::Read(Reading::Confirm(switching)))
}

/// An attempt has failed with `error`: the last attempt ends the operation
/// with it, any other is repeated after the retry delay.
pub open spec fn fail_or_retry(switching: Switching, error: RelayErrorView) -> ActionView {
    if switching.last_attempt() {
        ActionView::Finish(Err(error))
    } else {
        pause_or(Pausing::Retry(switching.repeated()), attempt(switching.repeated()))
    }
}

/// The error of a relay that was read back in the wrong state.
pub open spec fn mismatch(switching: Switching, actual: bool) -> RelayErrorView {
    RelayErrorView::StateVerificationFailed {
        relay_num: switching.relay_num,
        expected: switching.expected,
        actual,
        attempts: (switching.attempt + 1) as u16,
    }
}

/// The error of an operation that ran out of time.
pub open spec fn out_of_time(switching: Switching, nanos: nat) -> RelayErrorView {
    RelayErrorView::Timeout {
        relay_num: switching.relay_num,
        operation: switching.operation.name(),
        duration_ms: (nanos / 1_000_000) as u64,
    }
}

/// The relay is confirmed in its state. An operation on all relays goes on
/// to the next relay, any other is done.
pub open spec fn confirmed(switching: Switching) -> ActionView {
    match switching.relay_num {
        Some(number) if switching.operation.on_all() && number < switching.config.relay_count =>
            confirm_from_start(switching.from_start(Some((number + 1) as u8))),
        _ => ActionView::done(),
    }
}

/// All relays were switched and had their time: each is confirmed in turn,
/// from the first, unless nothing is to be confirmed.
pub open spec fn after_broadcast(switching: Switching) -> ActionView {
    if switching.confirms() && switching.config.relay_count >= 1 {
        confirm_from_start(switching.from_start(Some(1)))
    } else {
        ActionView::done()
    }
}

/// The time to change state after all relays were switched, then what follows.
pub open spec fn broadcast_state_change(switching: Switching) -> ActionView {
    pause_or(Pausing::BroadcastStateChange(switching), after_broadcast(switching))
}

/// What follows a register read that was answered with `outcome`.
pub open spec fn read_answered(reading: Reading, outcome: Result<u8, LinuxI2CError>) -> ActionView {
    match reading {
        Reading::Status { .. } => match outcome {
            Ok(byte) => ActionView::Finish(Ok(Reply::Status(RelayStatus::of_byte(byte)))),
            Err(error) => ActionView::bus_failure(error),
        },
        Reading::Version => match outcome {
            Ok(byte) => ActionView::Finish(Ok(Reply::Version(byte))),
            Err(error) => ActionView::bus_failure(error),
        },
        Reading::Observe(switching) => match outcome {
            Ok(byte) => {
                let toggled = Switching { expected: byte == 0, probe: false, ..switching };
                if toggled.confirms() {
                    confirm_from_start(toggled)
                } else {
                    ActionView::Write(Writing::Switch(toggled))
                }
            },
            Err(error) => ActionView::bus_failure(error),
        },
        Reading::Probe(switching) => match outcome {
            Ok(byte) => if (byte != 0) != switching.expected {
                ActionView::Write(Writing::Switch(switching))
            } else if switching.confirms() {
                settle_before_confirm(switching)
            } else {
                ActionView::done()
            },
            Err(error) => if switching.confirms() {
                fail_or_retry(switching, RelayErrorView::I2C(error))
            } else {
                ActionView::bus_failure(error)
            },
        },
        Reading::Confirm(switching) => match outcome {
            Ok(byte) => if (byte != 0) == switching.expected {
                confirmed(switching)
            } else {
                fail_or_retry(switching, mismatch(switching, byte != 0))
            },
            Err(error) => fail_or_retry(switching, RelayErrorView::I2C(error)),
        },
    }
}

/// What follows a write that was answered with `outcome`.
pub open spec fn write_answered(writing: Writing, outcome: Result<(), LinuxI2CError>) -> ActionView {
    match writing {
        Writing::Raw { delay_us, .. } => match outcome {
            Ok(_) => pause_or(Pausing::Closing { delay: Delay::Micros(delay_us) }, ActionView::done()),
            Err(error) => ActionView::bus_failure(error),
        },
        Writing::Address { .. } => match outcome {
            Ok(_) => ActionView::Pause(Pausing::Closing { delay: Delay::Millis(ADDRESS_SETTLE_MS) }),
            Err(error) => ActionView::bus_failure(error),
        },
        Writing::Switch(switching) => match outcome {
            Ok(_) => if switching.confirms() {
                settle_after_write(switching)
            } else {
                pause_or(
                    Pausing::Closing { delay: Delay::Micros(switching.config.write_delay_us) },
                    ActionView::done(),
                )
            },
            Err(error) => if switching.confirms() {
                fail_or_retry(switching, RelayErrorView::I2C(error))
            } else {
                ActionView::bus_failure(error)
            },
        },
        Writing::Broadcast(switching) => match outcome {
            Ok(_) => pause_or(
                Pausing::BroadcastWriteDelay(switching),
                broadcast_state_change(switching),
            ),
            Err(error) => ActionView::bus_failure(error),
        },
    }
}

/// What follows a pause.
pub open spec fn pause_over(pausing: Pausing) -> ActionView {
    match pausing {
        Pausing::Closing { .. } => ActionView::done(),
        Pausing::WriteDelay(switching) => settle_state_change(switching),
        Pausing::StateChange(switching) => settle_before_confirm(switching),
        Pausing::Verification(switching) => ActionView::Read(Reading::Confirm(switching)),
        Pausing::Retry(switching) => attempt(switching),
        Pausing::BroadcastWriteDelay(switching) => broadcast_state_change(switching),
        Pausing::BroadcastStateChange(switching) => after_broadcast(switching),
    }
}

/// What follows a look at the clock that read `now` nanoseconds.
pub open spec fn clock_answered(timing: Timing, now: u64) -> ActionView {
    match timing {
        Timing::Start(switching) => attempt(Switching { started: now, ..switching }),
        Timing::Check(switching) => {
            let nanos = elapsed_nanos(switching.started, now);
            if timed_out(nanos, switching.config.verification.timeout_ms) {
                ActionView::Finish(Err(out_of_time(switching, nanos)))
            } else if switching.probe {
                ActionView::Read(Reading::Probe(switching))
            } else {
                ActionView::Write(Writing::Switch(switching))
            }
        },
    }
}

/// The state of an operation that has only begun.
pub open spec fn beginning(
    operation: Operation,
    config: QwiicRelayConfig,
    relay_num: Option<u8>,
    expected: bool,
) -> Switching {
    Switching { operation, config, relay_num, expected, attempt: 0, probe: true, started: 0 }
}

/// The first step of waiting for the board to start up.
pub open spec fn start_init(config: QwiicRelayConfig) -> ActionView {
    pause_or(
        Pausing::Closing { delay: Delay::Millis(config.init_delay_ms as u64) },
        ActionView::done(),
    )
}

/// The first step of reading the status of a relay.
pub open spec fn start_get(config: QwiicRelayConfig, relay_num: Option<u8>) -> ActionView {
    match relay_num {
        Some(number) if !config.accepts(relay_num) => ActionView::no_such_relay(config, number),
        _ => ActionView::Read(Reading::Status { register: status_register(relay_num) }),
    }
}

/// The first step of reading the firmware version.
pub open spec fn start_get_version() -> ActionView {
    ActionView::Read(Reading::Version)
}

/// The first step of writing a command of the caller's.
pub open spec fn start_write_byte(config: QwiicRelayConfig, command: u8) -> ActionView {
    ActionView::Write(Writing::Raw { command, delay_us: config.write_delay_us })
}

/// The first step of putting a relay in a state.
pub open spec fn start_set(config: QwiicRelayConfig, relay_num: Option<u8>, on: bool) -> ActionView {
    let switching = beginning(Operation::setting(on), config, relay_num, on);
    match relay_num {
        Some(number) if !config.accepts(relay_num) => ActionView::no_such_relay(config, number),
        _ => if switching.confirms() {
            confirm_from_start(switching)
        } else {
            ActionView::Read(Reading::Probe(switching))
        },
    }
}

/// The first step of putting a relay in the state it is not in.
pub open spec fn start_toggle(config: QwiicRelayConfig, relay_num: Option<u8>) -> ActionView {
    match relay_num {
        Some(number) if !config.accepts(relay_num) => ActionView::no_such_relay(config, number),
        _ => ActionView::Read(
            Reading::Observe(beginning(Operation::ToggleRelay, config, relay_num, false)),
        ),
    }
}

/// The first step of putting every relay in one state.
pub open spec fn start_set_all(config: QwiicRelayConfig, on: bool) -> ActionView {
    ActionView::Write(Writing::Broadcast(beginning(Operation::setting_all(on), config, None, on)))
}

/// The first step of moving the board to another bus address.
pub open spec fn start_change_address(address: u8) -> ActionView {
    if address_allowed(address) {
        ActionView::Write(Writing::Address { address })
    } else {
        ActionView::Finish(Err(RelayErrorView::InvalidI2CAddress(address)))
    }
}

/// An operation that names a relay outside of 1 to `relay_count` ends at its
/// first step, with the number and the count in its error: nothing is asked
/// of the bus.
pub proof fn lemma_missing_relay_is_refused(config: QwiicRelayConfig, number: u8, on: bool)
    requires
        number < 1 || number > config.relay_count,
    ensures
        start_set(config, Some(number), on) == ActionView::no_such_relay(config, number),
        start_toggle(config, Some(number)) == ActionView::no_such_relay(config, number),
        start_get(config, Some(number)) == ActionView::no_such_relay(config, number),
{
}

/// A board is moved to an address from 0x08 to 0x77 by one write, of the
/// address to the register for it. Any other address ends the operation at
/// its first step, with the address in its error: nothing is asked of the bus.
pub proof fn lemma_only_free_addresses_are_written(address: u8)
    ensures
        0x08 <= address <= 0x77 ==> start_change_address(address) == ActionView::Write(
            Writing::Address { address },
        ) && (Writing::Address { address }).transfer() == (Transfer::Register {
            register: 0xC7,
            value: address,
        }),
        address < 0x08 || address > 0x77 ==> start_change_address(address) == ActionView::Finish(
            Err(RelayErrorView::InvalidI2CAddress(address)),
        ),
{
}

} // verus!
