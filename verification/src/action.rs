//! The steps of an operation, as they are handed out.
//!
//! An `Action` is either a request or the result of the operation. A request
//! is for one thing that only the owner of the bus can do. It says what is to
//! be done, and its `answer` method takes what came of it and returns the
//! next `Action`.

use crate::error::{RelayError, RelayErrorView, RelayResult};
use crate::operation::{
    after_broadcast, attempt, broadcast_state_change, clock_answered, confirm_from_start,
    confirmed, fail_or_retry, mismatch, pause_or, pause_over, read_answered, settle_after_write,
    settle_before_confirm, settle_state_change, write_answered, ActionView, Delay, Pausing,
    Reading, Reply, Switching, Timing, Transfer, Writing,
};
use crate::protocol::{RelayStatus, ADDRESS_SETTLE_MS};
use i2cdev::linux::LinuxI2CError;
use vstd::prelude::*;

verus! {

/// A register to read. The byte read, or the error of the bus, is the answer.
pub struct ReadRequest {
    reading: Reading,
}

/// Something to write to the bus. Whether the write succeeded is the answer.
pub struct WriteRequest {
    writing: Writing,
}

/// A time to let pass.
pub struct PauseRequest {
    pausing: Pausing,
}

/// A look at a clock that never runs backwards. Its reading in nanoseconds,
/// counted from any fixed moment, is the answer.
pub struct ClockRequest {
    timing: Timing,
}

/// The next step of an operation.
pub enum Action {
    Read(ReadRequest),
    Write(WriteRequest),
    Pause(PauseRequest),
    Clock(ClockRequest),
    /// The operation is over, with this result.
    Finish(RelayResult<Reply>),
}

impl View for ReadRequest {
    type V = Reading;

    closed spec fn view(&self) -> Reading {
        self.reading
    }
}

impl View for WriteRequest {
    type V = Writing;

    closed spec fn view(&self) -> Writing {
        self.writing
    }
}

impl View for PauseRequest {
    type V = Pausing;

    closed spec fn view(&self) -> Pausing {
        self.pausing
    }
}

impl View for ClockRequest {
    type V = Timing;

    closed spec fn view(&self) -> Timing {
        self.timing
    }
}

/// The view of a result: that of its error.
pub open spec fn result_view(result: RelayResult<Reply>) -> Result<Reply, RelayErrorView> {
    match result {
        Ok(reply) => Ok(reply),
        Err(error) => Err(error@),
    }
}

impl View for Action {
    type V = ActionView;

    open spec fn view(&self) -> ActionView {
        match *self {
            Action::Read(request) => ActionView::Read(request@),
            Action::Write(request) => ActionView::Write(request@),
            Action::Pause(request) => ActionView::Pause(request@),
            Action::Clock(request) => ActionView::Clock(request@),
            Action::Finish(result) => ActionView::Finish(result_view(result)),
        }
    }
}

impl Action {
    pub(crate) fn read(reading: Reading) -> (action: Action)
        ensures
            action@ == ActionView::Read(reading),
    {
        Action::Read(ReadRequest { reading })
    }

    pub(crate) fn write(writing: Writing) -> (action: Action)
        ensures
            action@ == ActionView::Write(writing),
    {
        Action::Write(WriteRequest { writing })
    }

    pub(crate) fn pause(pausing: Pausing) -> (action: Action)
        ensures
            action@ == ActionView::Pause(pausing),
    {
        Action::Pause(PauseRequest { pausing })
    }

    pub(crate) fn clock(timing: Timing) -> (action: Action)
        ensures
            action@ == ActionView::Clock(timing),
    {
        Action::Clock(ClockRequest { timing })
    }

    pub(crate) fn done() -> (action: Action)
        ensures
            action@ == ActionView::done(),
    {
        Action::Finish(Ok(Reply::Done))
    }

    pub(crate) fn bus_failure(error: LinuxI2CError) -> (action: Action)
        ensures
            action@ == ActionView::bus_failure(error),
    {
        Action::Finish(Err(RelayError::I2C(error)))
    }

    pub(crate) fn pause_or(pausing: Pausing, otherwise: Action) -> (action: Action)
        ensures
            action@ == pause_or(pausing, otherwise@),
    {
        if pausing.delay().is_zero() {
            otherwise
        } else {
            Action::pause(pausing)
        }
    }

    pub(crate) fn confirm_from_start(switching: Switching) -> (action: Action)
        ensures
            action@ == confirm_from_start(switching),
    {
        Action::clock(Timing::Start(switching))
    }
}

fn before_confirm(switching: Switching) -> (action: Action)
    ensures
        action@ == settle_before_confirm(switching),
{
    Action::pause_or(Pausing::Verification(switching), Action::read(Reading::Confirm(switching)))
}

fn state_change(switching: Switching) -> (action: Action)
    ensures
        action@ == settle_state_change(switching),
{
    Action::pause_or(Pausing::StateChange(switching), before_confirm(switching))
}

fn after_write(switching: Switching) -> (action: Action)
    ensures
        action@ == settle_after_write(switching),
{
    Action::pause_or(Pausing::WriteDelay(switching), state_change(switching))
}

fn failed(switching: Switching, error: RelayError) -> (action: Action)
    ensures
        action@ == fail_or_retry(switching, error@),
{
    if switching.last_attempt() {
        Action::Finish(Err(error))
    } else {
        let repeated = Switching { attempt: switching.attempt + 1, probe: true, ..switching };
        Action::pause_or(Pausing::Retry(repeated), Action::clock(Timing::Check(repeated)))
    }
}

fn mismatched(switching: &Switching, actual: bool) -> (error: RelayError)
    ensures
        error@ == mismatch(*switching, actual),
{
    RelayError::StateVerificationFailed {
        relay_num: switching.relay_num,
        expected: switching.expected,
        actual,
        attempts: switching.attempt as u16 + 1,
    }
}

fn relay_confirmed(switching: Switching) -> (action: Action)
    ensures
        action@ == confirmed(switching),
{
    match switching.relay_num {
        Some(number) if switching.operation.on_all() && number < switching.config.relay_count => {
            Action::confirm_from_start(
                Switching { relay_num: Some(number + 1), attempt: 0, probe: true, ..switching },
            )
        },
        _ => Action::done(),
    }
}

fn broadcast_over(switching: Switching) -> (action: Action)
    ensures
        action@ == after_broadcast(switching),
{
    if switching.confirms() && switching.config.relay_count >= 1 {
        Action::confirm_from_start(
            Switching { relay_num: Some(1), attempt: 0, probe: true, ..switching },
        )
    } else {
        Action::done()
    }
}

fn broadcast_settle(switching: Switching) -> (action: Action)
    ensures
        action@ == broadcast_state_change(switching),
{
    Action::pause_or(Pausing::BroadcastStateChange(switching), broadcast_over(switching))
}

impl ReadRequest {
    /// The register to read.
    pub fn register(&self) -> (register: u8)
        ensures
            register == self@.register(),
    {
        self.reading.register()
    }

    /// The step that follows the read.
    pub fn answer(self, outcome: Result<u8, LinuxI2CError>) -> (next: Action)
        ensures
            next@ == read_answered(self@, outcome),
    {
        match self.reading {
            Reading::Status { .. } => match outcome {
                Ok(byte) => Action::Finish(Ok(Reply::Status(RelayStatus::from(byte)))),
                Err(error) => Action::bus_failure(error),
            },
            Reading::Version => match outcome {
                Ok(byte) => Action::Finish(Ok(Reply::Version(byte))),
                Err(error) => Action::bus_failure(error),
            },
            Reading::Observe(switching) => match outcome {
                Ok(byte) => {
                    let toggled = Switching { expected: byte == 0, probe: false, ..switching };
                    if toggled.confirms() {
                        Action::confirm_from_start(toggled)
                    } else {
                        Action::write(Writing::Switch(toggled))
                    }
                },
                Err(error) => Action::bus_failure(error),
            },
            Reading::Probe(switching) => match outcome {
                Ok(byte) => if (byte != 0) != switching.expected {
                    Action::write(Writing::Switch(switching))
                } else if switching.confirms() {
                    before_confirm(switching)
                } else {
                    Action::done()
                },
                Err(error) => if switching.confirms() {
                    failed(switching, RelayError::I2C(error))
                } else {
                    Action::bus_failure(error)
                },
            },
            Reading::Confirm(switching) => match outcome {
                Ok(byte) => if (byte != 0) == switching.expected {
                    relay_confirmed(switching)
                } else {
                    failed(switching, mismatched(&switching, byte != 0))
                },
                Err(error) => failed(switching, RelayError::I2C(error)),
            },
        }
    }
}

impl WriteRequest {
    /// What to put on the bus.
    pub fn transfer(&self) -> (transfer: Transfer)
        ensures
            transfer == self@.transfer(),
    {
        self.writing.transfer()
    }

    /// The step that follows the write.
    pub fn answer(self, outcome: Result<(), LinuxI2CError>) -> (next: Action)
        ensures
            next@ == write_answered(self@, outcome),
    {
        match self.writing {
            Writing::Raw { delay_us, .. } => match outcome {
                Ok(_) => Action::pause_or(
                    Pausing::Closing { delay: Delay::Micros(delay_us) },
                    Action::done(),
                ),
                Err(error) => Action::bus_failure(error),
            },
            Writing::Address { .. } => match outcome {
                Ok(_) => Action::pause(
                    Pausing::Closing { delay: Delay::Millis(ADDRESS_SETTLE_MS) },
                ),
                Err(error) => Action::bus_failure(error),
            },
            Writing::Switch(switching) => match outcome {
                Ok(_) => if switching.confirms() {
                    after_write(switching)
                } else {
                    Action::pause_or(
                        Pausing::Closing { delay: Delay::Micros(switching.config.write_delay_us) },
                        Action::done(),
                    )
                },
                Err(error) => if switching.confirms() {
                    failed(switching, RelayError::I2C(error))
                } else {
                    Action::bus_failure(error)
                },
            },
            Writing::Broadcast(switching) => match outcome {
                Ok(_) => Action::pause_or(
                    Pausing::BroadcastWriteDelay(switching),
                    broadcast_settle(switching),
                ),
                Err(error) => Action::bus_failure(error),
            },
        }
    }
}

impl PauseRequest {
    /// How long to pause.
    pub fn delay(&self) -> (delay: Delay)
        ensures
            delay == self@.delay(),
    {
        self.pausing.delay()
    }

    /// The step that follows the pause.
    pub fn answer(self) -> (next: Action)
        ensures
            next@ == pause_over(self@),
    {
        match self.pausing {
            Pausing::Closing { .. } => Action::done(),
            Pausing::WriteDelay(switching) => state_change(switching),
            Pausing::StateChange(switching) => before_confirm(switching),
            Pausing::Verification(switching) => Action::read(Reading::Confirm(switching)),
            Pausing::Retry(switching) => Action::clock(Timing::Check(switching)),
            Pausing::BroadcastWriteDelay(switching) => broadcast_settle(switching),
            Pausing::BroadcastStateChange(switching) => broadcast_over(switching),
        }
    }
}

impl ClockRequest {
    /// The step that follows a reading of `now` nanoseconds.
    pub fn answer(self, now: u64) -> (next: Action)
        ensures
            next@ == clock_answered(self@, now),
    {
        match self.timing {
            Timing::Start(switching) => Action::clock(
                Timing::Check(Switching { started: now, ..switching }),
            ),
            Timing::Check(switching) => {
                let nanos = if now >= switching.started {
                    now - switching.started
                } else {
                    0
                };
                let allowed = switching.config.verification.timeout_ms as u128 * 1_000_000;
                if nanos as u128 > allowed {
                    Action::Finish(
                        Err(
                            RelayError::Timeout {
                                relay_num: switching.relay_num,
                                operation: switching.operation.to_name(),
                                duration_ms: nanos / 1_000_000,
                            },
                        ),
                    )
                } else if switching.probe {
                    Action::read(Reading::Probe(switching))
                } else {
                    Action::write(Writing::Switch(switching))
                }
            },
        }
    }
}

} // verus!
