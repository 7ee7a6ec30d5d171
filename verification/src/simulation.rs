//! A relay board that does as it is told, for reasoning about operations.
//!
//! The board answers every request at once and without error: a read with
//! the state of the relay, a write by switching, a look at the clock with the
//! next of a given list of readings. What an operation comes to on such a
//! board is stated and proved here.

use crate::config::QwiicRelayConfig;
use crate::error::RelayErrorView;
use crate::operation::{
    after_broadcast, beginning, clock_answered, confirm_from_start, confirmed, elapsed_nanos,
    pause_over, read_answered, start_get, start_set, start_set_all, start_toggle, timed_out,
    write_answered, ActionView, Operation, Reply, Switching, Transfer, Writing,
};
use crate::protocol::{
    broadcast_command, status_register, Command, RelayState, RelayStatus, STATUS_REGISTER_BASE,
};
use i2cdev::linux::LinuxI2CError;
use vstd::prelude::*;

verus! {

/// The first of a list of clock readings; a clock with no readings left reads zero.
pub open spec fn next_tick(ticks: Seq<u64>) -> u64 {
    if ticks.len() > 0 {
        ticks[0]
    } else {
        0
    }
}

/// The clock readings that come after the first.
pub open spec fn later_ticks(ticks: Seq<u64>) -> Seq<u64> {
    if ticks.len() > 0 {
        ticks.drop_first()
    } else {
        ticks
    }
}

/// Nanoseconds between the first two clock readings. An operation that
/// confirms a state reads the clock once for the start and once before the
/// first attempt.
pub open spec fn first_wait(ticks: Seq<u64>) -> nat {
    elapsed_nanos(next_tick(ticks), next_tick(later_ticks(ticks)))
}

/// A simulated relay board with a clock, and a count of the transfers it has served.
pub struct SimulatedBoard {
    /// A single-relay board is told the state to take; the relays of other
    /// boards are toggled by number.
    pub single: bool,
    /// The state of each relay; relay `n` is at index `n - 1`.
    pub relays: Seq<bool>,
    /// The relays of a stuck board stay as they are, whatever is written.
    pub stuck: bool,
    /// The clock readings still to come, in nanoseconds.
    pub ticks: Seq<u64>,
    /// Register reads served.
    pub reads: nat,
    /// Writes served.
    pub writes: nat,
}

impl SimulatedBoard {
    /// A board of one to four relays; a single-relay board has one.
    pub open spec fn wf(self) -> bool {
        &&& 1 <= self.relays.len() <= 4
        &&& self.single ==> self.relays.len() == 1
    }

    /// Whether the board has a relay of this number; `None` is the relay of a
    /// single-relay board.
    pub open spec fn has(self, relay_num: Option<u8>) -> bool {
        match relay_num {
            Some(number) => !self.single && 1 <= number <= self.relays.len(),
            None => self.single,
        }
    }

    /// The state of a relay that the board has.
    pub open spec fn state(self, relay_num: Option<u8>) -> bool {
        match relay_num {
            Some(number) => self.relays[number - 1],
            None => self.relays[0],
        }
    }

    /// The relays with one of them in a given state.
    pub open spec fn with_state(self, relay_num: Option<u8>, on: bool) -> Seq<bool> {
        match relay_num {
            Some(number) => self.relays.update(number - 1, on),
            None => self.relays.update(0, on),
        }
    }

    /// The byte in a register: the status of a relay in its status register,
    /// zero elsewhere.
    pub open spec fn register(self, register: u8) -> u8 {
        let index = register - STATUS_REGISTER_BASE - 1;
        if 0 <= index < self.relays.len() && self.relays[index] {
            1
        } else {
            0
        }
    }

    /// The relays after a command.
    pub open spec fn commanded(self, command: u8) -> Seq<bool> {
        if self.stuck {
            self.relays
        } else if self.single && command == RelayState::On.code() {
            self.relays.update(0, true)
        } else if self.single && command == RelayState::Off.code() {
            self.relays.update(0, false)
        } else if !self.single && 1 <= command <= self.relays.len() {
            self.relays.update(command - 1, !self.relays[command - 1])
        } else if command == Command::TurnAllOn.code() {
            Seq::new(self.relays.len(), |i: int| true)
        } else if command == Command::TurnAllOff.code() {
            Seq::new(self.relays.len(), |i: int| false)
        } else if command == Command::ToggleAll.code() {
            Seq::new(self.relays.len(), |i: int| !self.relays[i])
        } else {
            self.relays
        }
    }

    /// The board after a write.
    pub open spec fn written(self, transfer: Transfer) -> SimulatedBoard {
        match transfer {
            Transfer::Command(command) => SimulatedBoard {
                relays: self.commanded(command),
                writes: self.writes + 1,
                ..self
            },
            Transfer::Register { .. } => SimulatedBoard { writes: self.writes + 1, ..self },
        }
    }

    /// The next clock reading.
    pub open spec fn now(self) -> u64 {
        next_tick(self.ticks)
    }

    /// The board with another list of clock readings to come.
    pub open spec fn with_ticks(self, ticks: Seq<u64>) -> SimulatedBoard {
        SimulatedBoard { ticks, ..self }
    }

    /// The board after it has answered a request, and the step that follows
    /// from the answer.
    pub open spec fn serve(self, action: ActionView) -> (SimulatedBoard, ActionView) {
        match action {
            ActionView::Read(reading) => (
                SimulatedBoard { reads: self.reads + 1, ..self },
                read_answered(reading, Ok(self.register(reading.register()))),
            ),
            ActionView::Write(writing) => (
                self.written(writing.transfer()),
                write_answered(writing, Ok(())),
            ),
            ActionView::Pause(pausing) => (self, pause_over(pausing)),
            ActionView::Clock(timing) => (
                SimulatedBoard { ticks: later_ticks(self.ticks), ..self },
                clock_answered(timing, self.now()),
            ),
            ActionView::Finish(_) => (self, action),
        }
    }

    /// The board and the step reached after at most `steps` requests of an
    /// operation were answered.
    pub open spec fn run(self, action: ActionView, steps: nat) -> (SimulatedBoard, ActionView)
        decreases steps,
    {
        if steps == 0 || action is Finish {
            (self, action)
        } else {
            let (board, next) = self.serve(action);
            board.run(next, (steps - 1) as nat)
        }
    }
}

/// More requests than an operation on one relay makes of a board that
/// answers without error and confirms at the first attempt.
pub open spec fn enough() -> nat {
    10
}

/// Whether an operation under this configuration finds its time over at the
/// first look at the clock.
pub open spec fn late_at_once(config: QwiicRelayConfig, ticks: Seq<u64>) -> bool {
    &&& config.verification.enabled()
    &&& timed_out(first_wait(ticks), config.verification.timeout_ms)
}

/// The end of an operation that found its time over at the first look at the clock.
pub open spec fn late_end(
    operation: Operation,
    relay_num: Option<u8>,
    ticks: Seq<u64>,
) -> ActionView {
    ActionView::Finish(
        Err(
            RelayErrorView::Timeout {
                relay_num,
                operation: operation.name(),
                duration_ms: (first_wait(ticks) / 1_000_000) as u64,
            },
        ),
    )
}

/// On a board that has the relay, its status register is the one the board
/// keeps its state in, and the command that switches it is the one the board
/// switches it by.
proof fn lemma_board_speaks_protocol(board: SimulatedBoard, relay_num: Option<u8>)
    requires
        board.wf(),
        board.has(relay_num),
    ensures
        status_register(relay_num) == STATUS_REGISTER_BASE + (match relay_num {
            Some(number) => number as int,
            None => 1,
        }),
{
}

/// Putting a relay in a state, on a board that does as it is told.
///
/// The operation ends within `enough()` requests. If the time allowed is
/// over at the first look at the clock, it ends with a timeout and the
/// relays are as they were. Otherwise it succeeds: the relay is in the state
/// asked for, every other relay is as it was, and one write was made if the
/// relay was in the other state, none if it was not.
pub proof fn lemma_set_reaches_state(
    board: SimulatedBoard,
    config: QwiicRelayConfig,
    relay_num: Option<u8>,
    on: bool,
)
    requires
        board.wf(),
        !board.stuck,
        board.has(relay_num),
        config.accepts(relay_num),
    ensures
        ({
            let (after, end) = board.run(start_set(config, relay_num, on), enough());
            &&& after.wf() && !after.stuck && after.has(relay_num)
            &&& if late_at_once(config, board.ticks) {
                &&& end == late_end(Operation::setting(on), relay_num, board.ticks)
                &&& after.relays == board.relays
                &&& after.writes == board.writes
            } else {
                &&& end == ActionView::done()
                &&& after.relays == board.with_state(relay_num, on)
                &&& after.state(relay_num) == on
                &&& after.writes == board.writes + (if board.state(relay_num) == on {
                    0nat
                } else {
                    1nat
                })
            }
        }),
{
    lemma_board_speaks_protocol(board, relay_num);
    reveal_with_fuel(SimulatedBoard::run, 11);
    let (after, end) = board.run(start_set(config, relay_num, on), enough());
    if !late_at_once(config, board.ticks) {
        assert(after.relays =~= board.with_state(relay_num, on));
    }
}

/// A relay that was put in a state is read in that state: if setting it
/// succeeds on a board that does as it is told, reading it afterwards gives
/// the state that was asked for.
pub proof fn lemma_get_after_set(
    board: SimulatedBoard,
    config: QwiicRelayConfig,
    relay_num: Option<u8>,
    on: bool,
)
    requires
        board.wf(),
        !board.stuck,
        board.has(relay_num),
        config.accepts(relay_num),
    ensures
        ({
            let (after, end) = board.run(start_set(config, relay_num, on), enough());
            end == ActionView::done() ==> after.run(start_get(config, relay_num), enough()).1
                == ActionView::Finish(Ok(Reply::Status(RelayStatus::of_bool(on))))
        }),
{
    lemma_set_reaches_state(board, config, relay_num, on);
    let (after, end) = board.run(start_set(config, relay_num, on), enough());
    reveal_with_fuel(SimulatedBoard::run, 2);
}

/// Putting a relay twice in the same state switches it at most once: if the
/// first operation succeeds on a board that does as it is told, the second,
/// whatever the clock reads by then, writes nothing and leaves the relay in
/// that state.
pub proof fn lemma_set_twice_switches_once(
    board: SimulatedBoard,
    config: QwiicRelayConfig,
    relay_num: Option<u8>,
    on: bool,
    ticks: Seq<u64>,
)
    requires
        board.wf(),
        !board.stuck,
        board.has(relay_num),
        config.accepts(relay_num),
    ensures
        ({
            let (once, first) = board.run(start_set(config, relay_num, on), enough());
            let (twice, second) = once.with_ticks(ticks).run(
                start_set(config, relay_num, on),
                enough(),
            );
            first == ActionView::done() ==> {
                &&& once.writes <= board.writes + 1
                &&& twice.writes == once.writes
                &&& twice.relays == once.relays
                &&& twice.state(relay_num) == on
            }
        }),
{
    lemma_set_reaches_state(board, config, relay_num, on);
    let (once, first) = board.run(start_set(config, relay_num, on), enough());
    if first == ActionView::done() {
        assert(late_end(Operation::setting(on), relay_num, board.ticks) != ActionView::done());
        lemma_set_reaches_state(once.with_ticks(ticks), config, relay_num, on);
        assert(once.with_state(relay_num, on) =~= once.relays);
    }
}

/// Toggling a relay, on a board that does as it is told.
///
/// The state is read once. If the time allowed is then over at the first
/// look at the clock, the operation ends with a timeout and the relays are as
/// they were. Otherwise it succeeds with exactly one write: the relay is in
/// the state it was not in, and every other relay is as it was.
pub proof fn lemma_toggle_flips(
    board: SimulatedBoard,
    config: QwiicRelayConfig,
    relay_num: Option<u8>,
)
    requires
        board.wf(),
        !board.stuck,
        board.has(relay_num),
        config.accepts(relay_num),
    ensures
        ({
            let (after, end) = board.run(start_toggle(config, relay_num), enough());
            &&& after.wf() && !after.stuck && after.has(relay_num)
            &&& if late_at_once(config, board.ticks) {
                &&& end == late_end(Operation::ToggleRelay, relay_num, board.ticks)
                &&& after.relays == board.relays
                &&& after.writes == board.writes
            } else {
                &&& end == ActionView::done()
                &&& after.relays == board.with_state(relay_num, !board.state(relay_num))
                &&& after.state(relay_num) == !board.state(relay_num)
                &&& after.writes == board.writes + 1
            }
        }),
{
    lemma_board_speaks_protocol(board, relay_num);
    reveal_with_fuel(SimulatedBoard::run, 11);
    let (after, end) = board.run(start_toggle(config, relay_num), enough());
    if !late_at_once(config, board.ticks) {
        assert(after.relays =~= board.with_state(relay_num, !board.state(relay_num)));
    }
}

/// A relay that was turned off and then toggled is on, and toggled once more
/// it is off again, with every relay as it was after the turning off:
/// toggling twice undoes itself. This holds on a board that does as it is
/// told, whatever the clock reads, of operations that succeed.
pub proof fn lemma_toggle_twice_restores(
    board: SimulatedBoard,
    config: QwiicRelayConfig,
    relay_num: Option<u8>,
    ticks_of_first: Seq<u64>,
    ticks_of_second: Seq<u64>,
)
    requires
        board.wf(),
        !board.stuck,
        board.has(relay_num),
        config.accepts(relay_num),
    ensures
        ({
            let (off, set) = board.run(start_set(config, relay_num, false), enough());
            let (once, first) = off.with_ticks(ticks_of_first).run(
                start_toggle(config, relay_num),
                enough(),
            );
            let (twice, second) = once.with_ticks(ticks_of_second).run(
                start_toggle(config, relay_num),
                enough(),
            );
            &&& set == ActionView::done() && first == ActionView::done() ==> once.state(relay_num)
            &&& set == ActionView::done() && first == ActionView::done() && second
                == ActionView::done() ==> !twice.state(relay_num) && twice.relays == off.relays
        }),
{
    lemma_set_reaches_state(board, config, relay_num, false);
    let (off, set) = board.run(start_set(config, relay_num, false), enough());
    assert(late_end(Operation::SetRelayOff, relay_num, board.ticks) != ActionView::done());
    lemma_toggle_flips(off.with_ticks(ticks_of_first), config, relay_num);
    let (once, first) = off.with_ticks(ticks_of_first).run(
        start_toggle(config, relay_num),
        enough(),
    );
    assert(late_end(Operation::ToggleRelay, relay_num, ticks_of_first) != ActionView::done());
    lemma_toggle_flips(once.with_ticks(ticks_of_second), config, relay_num);
    let (twice, second) = once.with_ticks(ticks_of_second).run(
        start_toggle(config, relay_num),
        enough(),
    );
    assert(late_end(Operation::ToggleRelay, relay_num, ticks_of_second) != ActionView::done());
    if set == ActionView::done() && first == ActionView::done() && second == ActionView::done() {
        assert(twice.relays =~= off.relays);
    }
}

/// Without verification a relay is never read back: on any board, stuck or
/// not, putting a relay in a state succeeds after exactly one register read,
/// the one that tells whether a write is needed, and at most one write.
pub proof fn lemma_unverified_set_reads_once(
    board: SimulatedBoard,
    config: QwiicRelayConfig,
    relay_num: Option<u8>,
    on: bool,
)
    requires
        board.wf(),
        board.has(relay_num),
        config.accepts(relay_num),
        !config.verification.enabled(),
    ensures
        ({
            let (after, end) = board.run(start_set(config, relay_num, on), enough());
            &&& end == ActionView::done()
            &&& after.reads == board.reads + 1
            &&& after.writes == board.writes + (if board.state(relay_num) == on {
                0nat
            } else {
                1nat
            })
        }),
{
    reveal_with_fuel(SimulatedBoard::run, 11);
}

/// Without verification nothing is read once the relay was written to,
/// whether the write succeeded or failed: the operation is over, at the
/// latest after one pause.
pub proof fn lemma_unverified_write_is_last(
    switching: Switching,
    outcome: Result<(), LinuxI2CError>,
)
    requires
        !switching.confirms(),
    ensures
        ({
            let next = write_answered(Writing::Switch(switching), outcome);
            match next {
                ActionView::Finish(_) => true,
                ActionView::Pause(pausing) => pause_over(pausing) is Finish,
                _ => false,
            }
        }),
{
}

/// With no retry allowed, a relay that stays in the other state is reported
/// after a single attempt: on a stuck board, unless the time allowed is over
/// at once, putting a relay in the state it is not in fails with the state
/// that was expected, the state that was read back, and one attempt.
pub proof fn lemma_single_attempt_reports_mismatch(
    board: SimulatedBoard,
    config: QwiicRelayConfig,
    relay_num: Option<u8>,
    on: bool,
)
    requires
        board.wf(),
        board.stuck,
        board.has(relay_num),
        board.state(relay_num) != on,
        config.accepts(relay_num),
        config.verification.enabled(),
        config.verification.max_retries == 0,
        !late_at_once(config, board.ticks),
    ensures
        board.run(start_set(config, relay_num, on), enough()).1 == ActionView::Finish(
            Err(
                RelayErrorView::StateVerificationFailed {
                    relay_num,
                    expected: on,
                    actual: !on,
                    attempts: 1,
                },
            ),
        ),
{
    reveal_with_fuel(SimulatedBoard::run, 11);
}

/// An operation whose time is over at the first look at the clock ends with
/// a timeout before anything is asked of the bus, however many retries are
/// allowed. This holds on any board.
pub proof fn lemma_late_set_times_out(
    board: SimulatedBoard,
    config: QwiicRelayConfig,
    relay_num: Option<u8>,
    on: bool,
)
    requires
        config.accepts(relay_num),
        late_at_once(config, board.ticks),
    ensures
        ({
            let (after, end) = board.run(start_set(config, relay_num, on), enough());
            &&& end == late_end(Operation::setting(on), relay_num, board.ticks)
            &&& after.reads == board.reads
            &&& after.writes == board.writes
            &&& after.relays == board.relays
        }),
{
    reveal_with_fuel(SimulatedBoard::run, 4);
}

/// With a timeout of zero, any time at all between the first two clock
/// readings is too long: the operation ends with a timeout, with nothing
/// read or written, and no retry is made.
pub proof fn lemma_zero_timeout_times_out(
    board: SimulatedBoard,
    config: QwiicRelayConfig,
    relay_num: Option<u8>,
    on: bool,
)
    requires
        config.accepts(relay_num),
        config.verification.enabled(),
        config.verification.timeout_ms == 0,
        first_wait(board.ticks) > 0,
    ensures
        ({
            let (after, end) = board.run(start_set(config, relay_num, on), enough());
            &&& end == late_end(Operation::setting(on), relay_num, board.ticks)
            &&& after.reads == board.reads
            &&& after.writes == board.writes
            &&& after.relays == board.relays
        }),
{
    lemma_late_set_times_out(board, config, relay_num, on);
}

/// Answering some requests and then some more is answering them all.
proof fn lemma_run_in_two(board: SimulatedBoard, action: ActionView, first: nat, rest: nat)
    ensures
        board.run(action, first + rest) == ({
            let (between, next) = board.run(action, first);
            between.run(next, rest)
        }),
    decreases first,
{
    reveal_with_fuel(SimulatedBoard::run, 2);
    if first != 0 && !(action is Finish) {
        let (served, next) = board.serve(action);
        lemma_run_in_two(served, next, (first - 1) as nat, rest);
    }
}

/// Whether an operation has ended well or has run out of time.
pub open spec fn done_or_late(end: ActionView) -> bool {
    end == ActionView::done() || end matches ActionView::Finish(
        Err(RelayErrorView::Timeout { .. }),
    )
}

/// On a board whose relays are all in the state expected, it and the relays
/// after it are confirmed in turn without a write, unless the time runs out.
proof fn lemma_relays_confirmed_in_turn(
    board: SimulatedBoard,
    switching: Switching,
    number: u8,
    steps: nat,
)
    requires
        board.wf(),
        !board.single,
        switching.operation.on_all(),
        switching.confirms(),
        switching.attempt == 0,
        switching.probe,
        switching.relay_num == Some(number),
        switching.config.relay_count == board.relays.len(),
        1 <= number <= board.relays.len(),
        forall|index: int| 0 <= index < board.relays.len() ==> board.relays[index] == switching.expected,
        steps >= 5 * (board.relays.len() - number + 1),
    ensures
        ({
            let (after, end) = board.run(confirm_from_start(switching), steps);
            &&& after.relays == board.relays
            &&& after.writes == board.writes
            &&& done_or_late(end)
        }),
    decreases board.relays.len() - number,
{
    let start = confirm_from_start(switching);
    let first: nat = if switching.config.verification.verification_delay_ms == 0 {
        4
    } else {
        5
    };
    let (between, next) = board.run(start, first);
    lemma_run_in_two(board, start, first, (steps - first) as nat);
    reveal_with_fuel(SimulatedBoard::run, 6);
    assert(status_register(switching.relay_num) == STATUS_REGISTER_BASE + number);
    let timed = Switching { started: board.now(), ..switching };
    assert(next == confirmed(timed) || (next is Finish && done_or_late(next)));
    assert(between.relays == board.relays);
    if !(next is Finish) {
        lemma_relays_confirmed_in_turn(
            between,
            timed.from_start(Some((number + 1) as u8)),
            (number + 1) as u8,
            (steps - first) as nat,
        );
    }
}

/// More requests than an operation on all relays makes of a board of up to
/// four relays that answers without error and confirms at the first attempt.
pub open spec fn enough_for_all() -> nat {
    24
}

/// Putting every relay in one state, on a board that does as it is told.
///
/// One write is made, and after it every relay is in the state asked for.
/// Without verification nothing is read and the operation succeeds. With
/// verification it succeeds unless the time allowed for a relay runs out.
pub proof fn lemma_set_all_reaches_state(board: SimulatedBoard, config: QwiicRelayConfig, on: bool)
    requires
        board.wf(),
        !board.stuck,
        !board.single,
        config.relay_count == board.relays.len(),
    ensures
        ({
            let (after, end) = board.run(start_set_all(config, on), enough_for_all());
            &&& after.relays.len() == board.relays.len()
            &&& forall|index: int| 0 <= index < after.relays.len() ==> after.relays[index] == on
            &&& after.writes == board.writes + 1
            &&& done_or_late(end)
            &&& !config.verification.enabled() ==> end == ActionView::done() && after.reads
                == board.reads
        }),
{
    let start = start_set_all(config, on);
    let switching = beginning(Operation::setting_all(on), config, None, on);
    let first: nat = (if config.write_delay_us == 0 {
        1nat
    } else {
        2nat
    }) + (if config.state_change_delay_ms == 0 {
        0nat
    } else {
        1nat
    });
    let (between, next) = board.run(start, first);
    lemma_run_in_two(board, start, first, (enough_for_all() - first) as nat);
    reveal_with_fuel(SimulatedBoard::run, 4);
    assert(next == after_broadcast(switching));
    assert(between.relays == board.commanded(broadcast_command(on)));
    if config.verification.enabled() {
        lemma_relays_confirmed_in_turn(
            between,
            switching.from_start(Some(1)),
            1,
            (enough_for_all() - first) as nat,
        );
    }
}

} // verus!
