//! Finding the shortest delays a board works with.
//!
//! Four timings are tried, the fastest first. A timing passes if relay 1 can
//! be turned on and off three times under it, each state confirmed by a read
//! after the time the relay is given to change state. The first timing that
//! passes is kept with a margin added; if none passes, the configuration
//! stays as it was.

use crate::action::{result_view, Action};
use crate::config::QwiicRelayConfig;
use crate::error::{RelayErrorView, RelayResult};
use crate::operation::{start_get, start_set, ActionView, Delay, Reply};
use crate::protocol::RelayStatus;
use crate::relay::QwiicRelay;
use vstd::prelude::*;

verus! {

/// Number of timings that are tried.
pub const CANDIDATES: u8 = 4;

/// Times a relay is turned on and off under one timing.
pub const ROUNDS: u8 = 3;

/// What the delays grow by from one timing to the next.
pub const STEP: u32 = 5;

/// What is added to the delays of the timing that passed.
pub const MARGIN: u32 = 2;

/// The relay that is switched.
pub const TEST_RELAY: u8 = 1;

/// A timing under test.
#[derive(Clone, Copy, Debug, PartialEq, Eq, Structural)]
pub struct Trial {
    /// The configuration to go back to if no timing passes.
    pub fallback: QwiicRelayConfig,
    /// The timing, counted from zero.
    pub candidate: u8,
    /// The rounds that the timing has passed.
    pub round: u8,
}

/// The operation whose result a trial waits for.
#[derive(Clone, Copy, Debug, PartialEq, Eq, Structural)]
pub enum Awaited {
    /// The relay is being turned on.
    SwitchedOn,
    /// The relay is being read, and should be on.
    ReadOn,
    /// The relay is being turned off.
    SwitchedOff,
    /// The relay is being read, and should be off.
    ReadOff,
    /// The timing has passed, and the relay is turned off for good.
    Parked,
}

/// The pause whose end a trial waits for.
#[derive(Clone, Copy, Debug, PartialEq, Eq, Structural)]
pub enum Settling {
    /// The relay was turned on and is given time to change state.
    AfterOn,
    /// The relay was turned off and is given time to change state.
    AfterOff,
}

/// The next step of the search.
pub enum TuningView {
    /// An operation to carry out to its end.
    Run { action: ActionView, trial: Trial, awaited: Awaited },
    /// A time to let pass.
    Pause { delay: Delay, trial: Trial, settling: Settling },
    /// The search is over: whether a timing passed, and the configuration to go on with.
    Finish { optimized: bool, config: QwiicRelayConfig },
}

impl Trial {
    /// The delay under test, in microseconds after a write and in
    /// milliseconds for a change of state.
    pub open spec fn delay(self) -> u32 {
        (STEP * (self.candidate + 1)) as u32
    }

    /// The configuration under test.
    pub open spec fn tested(self) -> QwiicRelayConfig {
        QwiicRelayConfig {
            write_delay_us: self.delay(),
            state_change_delay_ms: self.delay(),
            ..self.fallback
        }
    }

    /// The configuration to keep if the timing passes.
    pub open spec fn tuned(self) -> QwiicRelayConfig {
        QwiicRelayConfig {
            write_delay_us: (self.delay() + MARGIN) as u32,
            state_change_delay_ms: (self.delay() + MARGIN) as u32,
            ..self.fallback
        }
    }

    /// A round begins: the relay is turned on.
    pub open spec fn round_begins(self) -> TuningView {
        TuningView::Run {
            action: start_set(self.tested(), Some(TEST_RELAY), true),
            trial: self,
            awaited: Awaited::SwitchedOn,
        }
    }

    /// The timing has failed: the next one is tried from its first round, and
    /// after the last the search ends with the configuration as it was.
    pub open spec fn fails(self) -> TuningView {
        if self.candidate + 1 < CANDIDATES {
            Trial { candidate: (self.candidate + 1) as u8, round: 0, ..self }.round_begins()
        } else {
            TuningView::Finish { optimized: false, config: self.fallback }
        }
    }

    /// A round is passed: another begins, and after the last the relay is
    /// turned off under the configuration that will be kept.
    pub open spec fn round_passed(self) -> TuningView {
        if self.round + 1 < ROUNDS {
            Trial { round: (self.round + 1) as u8, ..self }.round_begins()
        } else {
            TuningView::Run {
                action: start_set(self.tuned(), Some(TEST_RELAY), false),
                trial: self,
                awaited: Awaited::Parked,
            }
        }
    }

    /// The pause that gives the relay time to change state.
    pub open spec fn settles(self, settling: Settling) -> TuningView {
        TuningView::Pause { delay: Delay::Millis(self.delay() as u64), trial: self, settling }
    }

    /// The read that follows a pause.
    pub open spec fn reads(self, awaited: Awaited) -> TuningView {
        TuningView::Run { action: start_get(self.tested(), Some(TEST_RELAY)), trial: self, awaited }
    }
}

/// The first step of the search.
pub open spec fn start_tuning(config: QwiicRelayConfig) -> TuningView {
    Trial { fallback: config, candidate: 0, round: 0 }.round_begins()
}

/// Whether a read found the relay in the given status.
pub open spec fn read_as(result: Result<Reply, RelayErrorView>, status: RelayStatus) -> bool {
    result == Ok::<Reply, RelayErrorView>(Reply::Status(status))
}

/// What follows an operation that ended with `result`.
pub open spec fn run_answered(
    trial: Trial,
    awaited: Awaited,
    result: Result<Reply, RelayErrorView>,
) -> TuningView {
    match awaited {
        Awaited::SwitchedOn => if result is Ok {
            trial.settles(Settling::AfterOn)
        } else {
            trial.fails()
        },
        Awaited::ReadOn => if read_as(result, RelayStatus::On) {
            TuningView::Run {
                action: start_set(trial.tested(), Some(TEST_RELAY), false),
                trial,
                awaited: Awaited::SwitchedOff,
            }
        } else {
            trial.fails()
        },
        Awaited::SwitchedOff => if result is Ok {
            trial.settles(Settling::AfterOff)
        } else {
            trial.fails()
        },
        Awaited::ReadOff => if read_as(result, RelayStatus::Off) {
            trial.round_passed()
        } else {
            trial.fails()
        },
        Awaited::Parked => TuningView::Finish { optimized: true, config: trial.tuned() },
    }
}

/// What follows a pause.
pub open spec fn pause_answered(trial: Trial, settling: Settling) -> TuningView {
    match settling {
        Settling::AfterOn => trial.reads(Awaited::ReadOn),
        Settling::AfterOff => trial.reads(Awaited::ReadOff),
    }
}

/// A trial that waits for the result of an operation.
pub struct RunRequest {
    trial: Trial,
    awaited: Awaited,
}

/// A trial that waits for the end of a pause.
pub struct SettleRequest {
    trial: Trial,
    settling: Settling,
}

/// The next step of the search for a timing.
pub enum Tuning {
    /// Carry out the operation that begins with `action`, and answer `run`
    /// with its result.
    Run { action: Action, run: RunRequest },
    /// Let `delay` pass, and answer `pause`.
    Pause { delay: Delay, pause: SettleRequest },
    /// The search is over: whether a timing passed, and the configuration to
    /// go on with.
    Finish { optimized: bool, config: QwiicRelayConfig },
}

impl View for Tuning {
    type V = TuningView;

    open spec fn view(&self) -> TuningView {
        match *self {
            Tuning::Run { action, run } => TuningView::Run {
                action: action@,
                trial: run.trial(),
                awaited: run.awaited(),
            },
            Tuning::Pause { delay, pause } => TuningView::Pause {
                delay,
                trial: pause.trial(),
                settling: pause.settling(),
            },
            Tuning::Finish { optimized, config } => TuningView::Finish { optimized, config },
        }
    }
}

fn tested_delay(trial: &Trial) -> (delay: u32)
    ensures
        delay == trial.delay(),
{
    STEP * (trial.candidate as u32 + 1)
}

fn tested_config(trial: &Trial) -> (config: QwiicRelayConfig)
    ensures
        config == trial.tested(),
{
    let delay = tested_delay(trial);
    QwiicRelayConfig { write_delay_us: delay, state_change_delay_ms: delay, ..trial.fallback }
}

fn tuned_config(trial: &Trial) -> (config: QwiicRelayConfig)
    ensures
        config == trial.tuned(),
{
    let delay = tested_delay(trial) + MARGIN;
    QwiicRelayConfig { write_delay_us: delay, state_change_delay_ms: delay, ..trial.fallback }
}

fn begin_round(trial: Trial) -> (next: Tuning)
    ensures
        next@ == trial.round_begins(),
{
    let relay = QwiicRelay::new(tested_config(&trial));
    Tuning::Run {
        action: relay.set_relay_on(Some(TEST_RELAY)),
        run: RunRequest { trial, awaited: Awaited::SwitchedOn },
    }
}

fn fail(trial: Trial) -> (next: Tuning)
    ensures
        next@ == trial.fails(),
{
    if trial.candidate < CANDIDATES - 1 {
        begin_round(Trial { candidate: trial.candidate + 1, round: 0, ..trial })
    } else {
        Tuning::Finish { optimized: false, config: trial.fallback }
    }
}

fn pass_round(trial: Trial) -> (next: Tuning)
    ensures
        next@ == trial.round_passed(),
{
    if trial.round < ROUNDS - 1 {
        begin_round(Trial { round: trial.round + 1, ..trial })
    } else {
        let relay = QwiicRelay::new(tuned_config(&trial));
        Tuning::Run {
            action: relay.set_relay_off(Some(TEST_RELAY)),
            run: RunRequest { trial, awaited: Awaited::Parked },
        }
    }
}

fn settle(trial: Trial, settling: Settling) -> (next: Tuning)
    ensures
        next@ == trial.settles(settling),
{
    Tuning::Pause {
        delay: Delay::Millis(tested_delay(&trial) as u64),
        pause: SettleRequest { trial, settling },
    }
}

fn read(trial: Trial, awaited: Awaited) -> (next: Tuning)
    ensures
        next@ == trial.reads(awaited),
{
    let relay = QwiicRelay::new(tested_config(&trial));
    Tuning::Run {
        action: relay.get_relay_state(Some(TEST_RELAY)),
        run: RunRequest { trial, awaited },
    }
}

fn found(result: &RelayResult<Reply>, status: RelayStatus) -> (found: bool)
    ensures
        found == read_as(result_view(*result), status),
{
    match result {
        Ok(Reply::Status(read)) => *read == status,
        _ => false,
    }
}

impl RunRequest {
    pub closed spec fn trial(self) -> Trial {
        self.trial
    }

    pub closed spec fn awaited(self) -> Awaited {
        self.awaited
    }

    /// The step that follows the operation, which ended with `result`.
    pub fn answer(self, result: RelayResult<Reply>) -> (next: Tuning)
        ensures
            next@ == run_answered(self.trial(), self.awaited(), result_view(result)),
    {
        let trial = self.trial;
        match self.awaited {
            Awaited::SwitchedOn => if result.is_ok() {
                settle(trial, Settling::AfterOn)
            } else {
                fail(trial)
            },
            Awaited::ReadOn => if found(&result, RelayStatus::On) {
                let relay = QwiicRelay::new(tested_config(&trial));
                Tuning::Run {
                    action: relay.set_relay_off(Some(TEST_RELAY)),
                    run: RunRequest { trial, awaited: Awaited::SwitchedOff },
                }
            } else {
                fail(trial)
            },
            Awaited::SwitchedOff => if result.is_ok() {
                settle(trial, Settling::AfterOff)
            } else {
                fail(trial)
            },
            Awaited::ReadOff => if found(&result, RelayStatus::Off) {
                pass_round(trial)
            } else {
                fail(trial)
            },
            Awaited::Parked => Tuning::Finish { optimized: true, config: tuned_config(&trial) },
        }
    }
}

impl SettleRequest {
    pub closed spec fn trial(self) -> Trial {
        self.trial
    }

    pub closed spec fn settling(self) -> Settling {
        self.settling
    }

    /// The step that follows the pause.
    pub fn answer(self) -> (next: Tuning)
        ensures
            next@ == pause_answered(self.trial(), self.settling()),
    {
        match self.settling {
            Settling::AfterOn => read(self.trial, Awaited::ReadOn),
            Settling::AfterOff => read(self.trial, Awaited::ReadOff),
        }
    }
}

impl QwiicRelay {
    /// Begins the search for the shortest delays the board works with. The
    /// configuration of `self` is the one to fall back on; the search ends
    /// with the configuration to go on with.
    pub fn auto_detect_timing(&self) -> (next: Tuning)
        ensures
            next@ == start_tuning(self.config),
    {
        begin_round(Trial { fallback: self.config, candidate: 0, round: 0 })
    }
}

impl TuningView {
    /// Whether this step belongs to a search that falls back on `config`:
    /// it is a trial that does, or the end with that configuration or with
    /// one that differs from it in the two delays a timing consists of.
    pub open spec fn falls_back_on(self, config: QwiicRelayConfig) -> bool {
        match self {
            TuningView::Run { trial, .. } | TuningView::Pause { trial, .. } => trial.fallback
                == config,
            TuningView::Finish { optimized, config: kept } => if optimized {
                kept == (QwiicRelayConfig {
                    write_delay_us: kept.write_delay_us,
                    state_change_delay_ms: kept.state_change_delay_ms,
                    ..config
                })
            } else {
                kept == config
            },
        }
    }
}

/// A search never loses the configuration it began with: every step of it
/// falls back on that configuration, so a search in which no timing passed
/// ends with it, and one in which a timing passed ends with a configuration
/// that differs from it in the two delays only.
pub proof fn lemma_search_keeps_its_fallback(
    trial: Trial,
    awaited: Awaited,
    settling: Settling,
    result: Result<Reply, RelayErrorView>,
)
    ensures
        start_tuning(trial.fallback).falls_back_on(trial.fallback),
        run_answered(trial, awaited, result).falls_back_on(trial.fallback),
        pause_answered(trial, settling).falls_back_on(trial.fallback),
{
}

} // verus!
