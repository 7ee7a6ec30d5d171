//! Every operation ends, whatever the bus and the clock answer.
//!
//! Each step of an operation is given the number of requests that can at
//! most still follow it, the step itself included. Every answer to a request
//! leads to a step with a smaller number, so no operation goes on for ever,
//! and the number at its first step bounds the requests it makes.

use crate::config::QwiicRelayConfig;
use crate::operation::{
    clock_answered, pause_over, read_answered, start_change_address, start_get,
    start_get_version, start_init, start_set, start_set_all, start_toggle, start_write_byte,
    write_answered, ActionView, Pausing, Reading, Switching, Timing, Writing,
};
use i2cdev::linux::LinuxI2CError;
use vstd::prelude::*;

verus! {

/// The requests of one attempt, at most: a look at the clock, a read, a
/// write, three pauses, the read-back, and the pause before the next attempt.
pub open spec fn attempt_requests() -> int {
    8
}

/// The requests that confirming one relay makes, at most: a look at the
/// clock for the start, and every attempt that the policy allows.
pub open spec fn relay_requests(config: QwiicRelayConfig) -> int {
    1 + attempt_requests() * (config.verification.max_retries + 1)
}

impl Switching {
    /// The attempts that can still be made, the one under way included.
    pub open spec fn attempts_left(self) -> int {
        if self.attempt <= self.config.verification.max_retries {
            self.config.verification.max_retries - self.attempt + 1
        } else {
            1
        }
    }

    /// The relays that an operation on all relays has still to go on to.
    pub open spec fn relays_left(self) -> int {
        match self.relay_num {
            Some(number) if self.operation.on_all() && number < self.config.relay_count =>
                self.config.relay_count - number,
            _ => 0,
        }
    }

    /// The requests that can still follow, `in_attempt` of them in the attempt under way.
    pub open spec fn requests_left(self, in_attempt: int) -> int {
        in_attempt + attempt_requests() * (self.attempts_left() - 1) + self.relays_left()
            * relay_requests(self.config)
    }
}

/// The requests that can at most still follow, this step included.
pub open spec fn requests_left(action: ActionView) -> int {
    match action {
        ActionView::Finish(_) => 0,
        ActionView::Read(Reading::Status { .. }) | ActionView::Read(Reading::Version) => 1,
        ActionView::Read(Reading::Observe(switching)) => 2 + switching.requests_left(8),
        ActionView::Read(Reading::Probe(switching)) => switching.requests_left(7),
        ActionView::Read(Reading::Confirm(switching)) => switching.requests_left(2),
        ActionView::Write(Writing::Raw { .. }) | ActionView::Write(Writing::Address { .. }) => 2,
        ActionView::Write(Writing::Switch(switching)) => switching.requests_left(6),
        ActionView::Write(Writing::Broadcast(switching)) => 3 + switching.config.relay_count
            * relay_requests(switching.config),
        ActionView::Pause(Pausing::Closing { .. }) => 1,
        ActionView::Pause(Pausing::WriteDelay(switching)) => switching.requests_left(5),
        ActionView::Pause(Pausing::StateChange(switching)) => switching.requests_left(4),
        ActionView::Pause(Pausing::Verification(switching)) => switching.requests_left(3),
        ActionView::Pause(Pausing::Retry(switching)) => 1 + switching.requests_left(8),
        ActionView::Pause(Pausing::BroadcastWriteDelay(switching)) => 2
            + switching.config.relay_count * relay_requests(switching.config),
        ActionView::Pause(Pausing::BroadcastStateChange(switching)) => 1
            + switching.config.relay_count * relay_requests(switching.config),
        ActionView::Clock(Timing::Start(switching)) => 1 + switching.requests_left(8),
        ActionView::Clock(Timing::Check(switching)) => switching.requests_left(8),
    }
}

/// What the outside world may answer to a request, whichever it is.
pub struct Answers {
    /// The answer to a register read.
    pub read: Result<u8, LinuxI2CError>,
    /// The answer to a write.
    pub written: Result<(), LinuxI2CError>,
    /// The answer to a look at the clock.
    pub now: u64,
}

/// The step that follows `action` under these answers.
pub open spec fn answered(action: ActionView, answers: Answers) -> ActionView {
    match action {
        ActionView::Read(reading) => read_answered(reading, answers.read),
        ActionView::Write(writing) => write_answered(writing, answers.written),
        ActionView::Pause(pausing) => pause_over(pausing),
        ActionView::Clock(timing) => clock_answered(timing, answers.now),
        ActionView::Finish(_) => action,
    }
}

/// The step reached when one request after the other was answered from a list.
pub open spec fn answered_in_turn(action: ActionView, answers: Seq<Answers>) -> ActionView
    decreases answers.len(),
{
    if answers.len() == 0 {
        action
    } else {
        answered_in_turn(answered(action, answers[0]), answers.drop_first())
    }
}

/// Going on to the next relay takes what was set aside for the relays left.
proof fn lemma_next_relay(switching: Switching, number: u8)
    requires
        switching.relay_num == Some(number),
        switching.operation.on_all(),
        number < switching.config.relay_count,
    ensures
        1 + switching.from_start(Some((number + 1) as u8)).requests_left(8)
            == switching.relays_left() * relay_requests(switching.config),
{
    let next = switching.from_start(Some((number + 1) as u8));
    let each = relay_requests(switching.config);
    assert(next.relays_left() == switching.relays_left() - 1);
    assert((switching.relays_left() - 1) * each + each == switching.relays_left() * each)
        by (nonlinear_arith);
}

/// Confirming from the first relay takes no more than was set aside for all relays.
proof fn lemma_first_relay(switching: Switching)
    requires
        switching.config.relay_count >= 1,
    ensures
        1 + switching.from_start(Some(1)).requests_left(8) <= switching.config.relay_count
            * relay_requests(switching.config),
{
    let first = switching.from_start(Some(1));
    let each = relay_requests(switching.config);
    let count = switching.config.relay_count as int;
    assert(first.relays_left() <= count - 1);
    assert(first.relays_left() * each <= (count - 1) * each) by (nonlinear_arith)
        requires
            first.relays_left() <= count - 1,
            each >= 0,
    ;
    assert((count - 1) * each + each == count * each) by (nonlinear_arith);
}

/// No step is given a negative number.
proof fn lemma_requests_left_is_a_count(action: ActionView)
    ensures
        0 <= requests_left(action),
{
    assert(forall|switching: Switching|
        0 <= #[trigger] switching.relays_left() * relay_requests(switching.config))
        by (nonlinear_arith)
        requires
            forall|switching: Switching|
                0 <= #[trigger] switching.relays_left() && 0 <= relay_requests(switching.config),
    ;
    assert(forall|config: QwiicRelayConfig|
        0 <= config.relay_count * #[trigger] relay_requests(config)) by (nonlinear_arith)
        requires
            forall|config: QwiicRelayConfig| 0 <= #[trigger] relay_requests(config),
    ;
}

/// Whatever the answer to a request, fewer requests can follow the next step
/// than could follow this one; and none follows the end of an operation.
pub proof fn lemma_every_answer_brings_the_end_nearer(action: ActionView, answers: Answers)
    ensures
        0 <= requests_left(action),
        action is Finish ==> requests_left(action) == 0,
        !(action is Finish) ==> requests_left(answered(action, answers)) < requests_left(action),
{
    lemma_requests_left_is_a_count(action);
    match action {
        ActionView::Read(Reading::Confirm(switching)) => {
            if let Some(number) = switching.relay_num {
                if switching.operation.on_all() && number < switching.config.relay_count {
                    lemma_next_relay(switching, number);
                }
            }
        },
        ActionView::Write(Writing::Broadcast(switching))
        | ActionView::Pause(Pausing::BroadcastWriteDelay(switching))
        | ActionView::Pause(Pausing::BroadcastStateChange(switching)) => {
            if switching.config.relay_count >= 1 {
                lemma_first_relay(switching);
            }
        },
        _ => {},
    }
}

/// No operation goes on for ever: whatever the answers, a step is the end of
/// its operation once as many requests were answered as could follow it.
pub proof fn lemma_every_operation_ends(action: ActionView, answers: Seq<Answers>)
    requires
        answers.len() >= requests_left(action),
    ensures
        answered_in_turn(action, answers) is Finish,
    decreases answers.len(),
{
    let first = if answers.len() > 0 {
        answers[0]
    } else {
        arbitrary()
    };
    lemma_every_answer_brings_the_end_nearer(action, first);
    lemma_every_answer_brings_the_end_nearer(answered(action, first), first);
    if answers.len() > 0 {
        lemma_every_operation_ends(answered(action, first), answers.drop_first());
    }
}

/// The requests that an operation makes at most, by its first step: one for
/// reading a status or the version, two for a write of the caller's or a new
/// address, and for an operation that puts relays in a state what its attempts
/// and relays allow.
pub proof fn lemma_operations_are_bounded(
    config: QwiicRelayConfig,
    relay_num: Option<u8>,
    on: bool,
    byte: u8,
)
    ensures
        requests_left(start_init(config)) <= 1,
        requests_left(start_get(config, relay_num)) <= 1,
        requests_left(start_get_version()) <= 1,
        requests_left(start_write_byte(config, byte)) <= 2,
        requests_left(start_change_address(byte)) <= 2,
        requests_left(start_set(config, relay_num, on)) <= relay_requests(config),
        requests_left(start_toggle(config, relay_num)) <= 1 + relay_requests(config),
        requests_left(start_set_all(config, on)) <= 3 + config.relay_count * relay_requests(
            config,
        ),
{
}

} // verus!
