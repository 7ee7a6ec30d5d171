use i2cdev::linux::LinuxI2CError;
use qwiic_relay_rs::{
    Action, Delay, QwiicRelay, QwiicRelayConfig, RelayError, RelayResult, RelayStatus, Reply,
    Transfer, Tuning, VerificationConfig, VerificationMode,
};

/// What was asked of the bus, the clock and the sleeper, in order.
#[derive(Clone, Copy, Debug, PartialEq)]
enum Asked {
    Read(u8),
    Write(Transfer),
    Pause(Delay),
    Clock,
}

/// A relay board that does as it is told, unless told otherwise.
struct Board {
    single: bool,
    relays: Vec<bool>,
    /// Writes that are acknowledged but change nothing.
    ignored_writes: usize,
    /// Reads, counted from 0, that fail on the bus.
    failing_reads: Vec<usize>,
    /// Writes, counted from 0, that fail on the bus.
    failing_writes: Vec<usize>,
    version: u8,
    ticks: Vec<u64>,
    reads: usize,
    writes: usize,
    asked: Vec<Asked>,
}

impl Board {
    fn new(relays: usize) -> Board {
        Board {
            single: false,
            relays: vec![false; relays],
            ignored_writes: 0,
            failing_reads: vec![],
            failing_writes: vec![],
            version: 0x13,
            ticks: vec![],
            reads: 0,
            writes: 0,
            asked: vec![],
        }
    }

    fn single() -> Board {
        Board { single: true, ..Board::new(1) }
    }

    fn stuck(relays: usize) -> Board {
        Board { ignored_writes: usize::MAX, ..Board::new(relays) }
    }

    fn with_ticks(mut self, ticks: &[u64]) -> Board {
        self.ticks = ticks.to_vec();
        self
    }

    fn read(&mut self, register: u8) -> Result<u8, LinuxI2CError> {
        self.asked.push(Asked::Read(register));
        let index = self.reads;
        self.reads += 1;
        if self.failing_reads.contains(&index) {
            return Err(LinuxI2CError::Errno(5));
        }
        if register == 0x04 {
            return Ok(self.version);
        }
        let relay = register as usize - 5;
        Ok(if relay < self.relays.len() && self.relays[relay] { 1 } else { 0 })
    }

    fn write(&mut self, transfer: Transfer) -> Result<(), LinuxI2CError> {
        self.asked.push(Asked::Write(transfer));
        let index = self.writes;
        self.writes += 1;
        if self.failing_writes.contains(&index) {
            return Err(LinuxI2CError::Errno(121));
        }
        if self.ignored_writes > 0 {
            self.ignored_writes -= 1;
            return Ok(());
        }
        if let Transfer::Command(command) = transfer {
            let command = command as usize;
            if self.single && command <= 1 {
                self.relays[0] = command == 1;
            } else if !self.single && 1 <= command && command <= self.relays.len() {
                self.relays[command - 1] = !self.relays[command - 1];
            } else if command == 0x0A {
                self.relays.iter_mut().for_each(|relay| *relay = false);
            } else if command == 0x0B {
                self.relays.iter_mut().for_each(|relay| *relay = true);
            } else if command == 0x0C {
                self.relays.iter_mut().for_each(|relay| *relay = !*relay);
            }
        }
        Ok(())
    }

    fn clock(&mut self) -> u64 {
        self.asked.push(Asked::Clock);
        if self.ticks.is_empty() {
            0
        } else {
            self.ticks.remove(0)
        }
    }

    /// Answers the requests of an operation until it is over.
    fn carry_out(&mut self, first: Action) -> RelayResult<Reply> {
        let mut action = first;
        loop {
            action = match action {
                Action::Read(request) => {
                    let outcome = self.read(request.register());
                    request.answer(outcome)
                }
                Action::Write(request) => {
                    let outcome = self.write(request.transfer());
                    request.answer(outcome)
                }
                Action::Pause(request) => {
                    self.asked.push(Asked::Pause(request.delay()));
                    request.answer()
                }
                Action::Clock(request) => {
                    let now = self.clock();
                    request.answer(now)
                }
                Action::Finish(result) => return result,
            };
        }
    }
}

/// Carries out the search for a timing on a board.
fn tune(board: &mut Board, first: Tuning) -> (bool, QwiicRelayConfig) {
    let mut step = first;
    loop {
        step = match step {
            Tuning::Run { action, run } => {
                let result = board.carry_out(action);
                run.answer(result)
            }
            Tuning::Pause { delay, pause } => {
                board.asked.push(Asked::Pause(delay));
                pause.answer()
            }
            Tuning::Finish { optimized, config } => return (optimized, config),
        };
    }
}

fn strict(relays: u8) -> QwiicRelay {
    QwiicRelay::new(QwiicRelayConfig::new(relays))
}

fn unverified(relays: u8) -> QwiicRelay {
    QwiicRelay::new(QwiicRelayConfig::with_verification(relays, VerificationConfig::disabled()))
}

fn policies() -> [VerificationConfig; 3] {
    [VerificationConfig::strict(), VerificationConfig::lenient(), VerificationConfig::disabled()]
}

#[test]
fn set_on_then_get_reads_on() {
    for policy in policies() {
        for count in 1..=4u8 {
            for number in 1..=count {
                let relay = QwiicRelay::new(QwiicRelayConfig::with_verification(count, policy));
                let mut board = Board::new(count as usize);
                let set = board.carry_out(relay.set_relay_on(Some(number)));
                assert!(matches!(set, Ok(Reply::Done)));
                let got = board.carry_out(relay.get_relay_state(Some(number)));
                assert!(matches!(got, Ok(Reply::Status(RelayStatus::On))));
                for other in 1..=count {
                    assert_eq!(board.relays[other as usize - 1], other == number);
                }
                assert_eq!(board.writes, 1);

                let again = board.carry_out(relay.set_relay_on(Some(number)));
                assert!(matches!(again, Ok(Reply::Done)));
                assert_eq!(board.writes, 1);
                assert!(board.relays[number as usize - 1]);
            }
        }
    }
}

#[test]
fn set_off_then_get_reads_off() {
    let relay = strict(4);
    let mut board = Board::new(4);
    board.relays = vec![true, true, true, true];
    assert!(matches!(board.carry_out(relay.set_relay_off(Some(3))), Ok(Reply::Done)));
    assert_eq!(board.relays, vec![true, true, false, true]);
    let got = board.carry_out(relay.get_relay_state(Some(3)));
    assert!(matches!(got, Ok(Reply::Status(RelayStatus::Off))));
    assert!(matches!(
        board.carry_out(relay.set_relay(Some(3), RelayStatus::Off)),
        Ok(Reply::Done)
    ));
    assert_eq!(board.writes, 1);
}

#[test]
fn toggle_after_set_off_turns_on_and_back() {
    for policy in policies() {
        let relay = QwiicRelay::new(QwiicRelayConfig::with_verification(4, policy));
        let mut board = Board::new(4);
        board.relays = vec![true, false, true, false];
        assert!(matches!(board.carry_out(relay.set_relay_off(Some(1))), Ok(Reply::Done)));
        let after_off = board.relays.clone();
        assert!(matches!(board.carry_out(relay.toggle_relay(Some(1))), Ok(Reply::Done)));
        assert_eq!(board.relays, vec![true, false, true, false]);
        assert!(matches!(board.carry_out(relay.toggle_relay(Some(1))), Ok(Reply::Done)));
        assert_eq!(board.relays, after_off);
        assert_eq!(board.writes, 3);
    }
}

#[test]
fn toggle_reads_once_before_it_writes() {
    let relay = strict(2);
    let mut board = Board::new(2);
    assert!(matches!(board.carry_out(relay.toggle_relay(Some(2))), Ok(Reply::Done)));
    assert_eq!(
        board.asked,
        vec![
            Asked::Read(0x06),
            Asked::Clock,
            Asked::Clock,
            Asked::Write(Transfer::Command(0x02)),
            Asked::Pause(Delay::Micros(10)),
            Asked::Pause(Delay::Millis(10)),
            Asked::Pause(Delay::Millis(20)),
            Asked::Read(0x06),
        ]
    );

    let relay = unverified(2);
    let mut board = Board::new(2);
    assert!(matches!(board.carry_out(relay.toggle_relay(Some(1))), Ok(Reply::Done)));
    assert_eq!(
        board.asked,
        vec![
            Asked::Read(0x05),
            Asked::Write(Transfer::Command(0x01)),
            Asked::Pause(Delay::Micros(10)),
        ]
    );
    assert_eq!(board.relays, vec![true, false]);
}

#[test]
fn toggle_reports_a_relay_that_moved_in_between() {
    // The relay reads off, but the write is lost: what is read back is not
    // the opposite of what was observed.
    let policy = VerificationConfig::strict().with_max_retries(0);
    let relay = QwiicRelay::new(QwiicRelayConfig::with_verification(1, policy));
    let mut board = Board::stuck(1);
    let result = board.carry_out(relay.toggle_relay(Some(1)));
    assert!(matches!(
        result,
        Err(RelayError::StateVerificationFailed {
            relay_num: Some(1),
            expected: true,
            actual: false,
            attempts: 1
        })
    ));
}

#[test]
fn toggle_fails_at_once_when_the_first_read_fails() {
    let relay = strict(4);
    let mut board = Board::new(4);
    board.failing_reads = vec![0];
    let result = board.carry_out(relay.toggle_relay(Some(1)));
    assert!(matches!(result, Err(RelayError::I2C(LinuxI2CError::Errno(5)))));
    assert_eq!(board.asked, vec![Asked::Read(0x05)]);
}

#[test]
fn unverified_set_never_reads_back() {
    let relay = unverified(4);
    let mut board = Board::new(4);
    assert!(matches!(board.carry_out(relay.set_relay_on(Some(2))), Ok(Reply::Done)));
    assert_eq!(
        board.asked,
        vec![
            Asked::Read(0x06),
            Asked::Write(Transfer::Command(0x02)),
            Asked::Pause(Delay::Micros(10)),
        ]
    );
    assert_eq!(board.reads, 1);

    // Already on: the one read, and nothing else.
    board.asked.clear();
    assert!(matches!(board.carry_out(relay.set_relay_on(Some(2))), Ok(Reply::Done)));
    assert_eq!(board.asked, vec![Asked::Read(0x06)]);

    // A stuck board is not found out.
    let mut board = Board::stuck(4);
    assert!(matches!(board.carry_out(relay.set_relay_on(Some(2))), Ok(Reply::Done)));
    assert_eq!(board.reads, 1);
    assert_eq!(board.writes, 1);
    assert_eq!(board.relays, vec![false; 4]);
}

#[test]
fn unverified_set_passes_bus_errors_on() {
    let relay = unverified(4);
    let mut board = Board::new(4);
    board.failing_reads = vec![0];
    let result = board.carry_out(relay.set_relay_on(Some(1)));
    assert!(matches!(result, Err(RelayError::I2C(LinuxI2CError::Errno(5)))));
    assert_eq!(board.asked, vec![Asked::Read(0x05)]);

    let mut board = Board::new(4);
    board.failing_writes = vec![0];
    let result = board.carry_out(relay.set_relay_on(Some(1)));
    assert!(matches!(result, Err(RelayError::I2C(LinuxI2CError::Errno(121)))));
    assert_eq!(board.asked, vec![Asked::Read(0x05), Asked::Write(Transfer::Command(0x01))]);
}

#[test]
fn single_attempt_fails_on_a_stuck_relay() {
    for on in [true, false] {
        let policy = VerificationConfig::strict().with_max_retries(0);
        let relay = QwiicRelay::new(QwiicRelayConfig::with_verification(4, policy));
        let mut board = Board::stuck(4);
        board.relays = vec![!on; 4];
        let status = RelayStatus::from(on);
        let result = board.carry_out(relay.set_relay(Some(3), status));
        match result {
            Err(RelayError::StateVerificationFailed { relay_num, expected, actual, attempts }) => {
                assert_eq!(relay_num, Some(3));
                assert_eq!(expected, on);
                assert_eq!(actual, !on);
                assert_eq!(attempts, 1);
            }
            other => panic!("unexpected result: {:?}", other),
        }
        assert_eq!(board.writes, 1);
        assert_eq!(board.reads, 2);
        assert!(!board.asked.contains(&Asked::Pause(Delay::Millis(50))));
    }
}

#[test]
fn every_retry_is_made_before_a_mismatch_is_reported() {
    let relay = strict(4);
    let mut board = Board::stuck(4);
    let result = board.carry_out(relay.set_relay_on(Some(1)));
    assert!(matches!(
        result,
        Err(RelayError::StateVerificationFailed {
            relay_num: Some(1),
            expected: true,
            actual: false,
            attempts: 4
        })
    ));
    let attempt = vec![
        Asked::Clock,
        Asked::Read(0x05),
        Asked::Write(Transfer::Command(0x01)),
        Asked::Pause(Delay::Micros(10)),
        Asked::Pause(Delay::Millis(10)),
        Asked::Pause(Delay::Millis(20)),
        Asked::Read(0x05),
    ];
    let mut expected = vec![Asked::Clock];
    for index in 0..4 {
        expected.extend(attempt.iter().copied());
        if index < 3 {
            expected.push(Asked::Pause(Delay::Millis(50)));
        }
    }
    assert_eq!(board.asked, expected);
}

#[test]
fn the_most_retries_are_counted_in_full() {
    let policy = VerificationConfig::strict().with_max_retries(255).with_timeout(u64::MAX);
    let relay = QwiicRelay::new(QwiicRelayConfig::with_verification(1, policy));
    let mut board = Board::stuck(1);
    let result = board.carry_out(relay.set_relay_on(Some(1)));
    assert!(matches!(
        result,
        Err(RelayError::StateVerificationFailed { attempts: 256, .. })
    ));
    assert_eq!(board.writes, 256);
}

#[test]
fn a_retry_succeeds_once_the_relay_moves() {
    let relay = strict(4);
    let mut board = Board::new(4);
    board.ignored_writes = 2;
    let result = board.carry_out(relay.set_relay_on(Some(4)));
    assert!(matches!(result, Ok(Reply::Done)));
    assert_eq!(board.writes, 3);
    assert_eq!(board.relays, vec![false, false, false, true]);
    let retries = board.asked.iter().filter(|asked| **asked == Asked::Pause(Delay::Millis(50)));
    assert_eq!(retries.count(), 2);
}

#[test]
fn a_relay_already_in_its_state_is_confirmed_without_a_write() {
    let relay = strict(4);
    let mut board = Board::new(4);
    board.relays[0] = true;
    assert!(matches!(board.carry_out(relay.set_relay_on(Some(1))), Ok(Reply::Done)));
    assert_eq!(
        board.asked,
        vec![
            Asked::Clock,
            Asked::Clock,
            Asked::Read(0x05),
            Asked::Pause(Delay::Millis(20)),
            Asked::Read(0x05),
        ]
    );
}

#[test]
fn zero_timeout_times_out_before_the_bus_is_touched() {
    let policy = VerificationConfig::strict().with_timeout(0).with_max_retries(3);
    let relay = QwiicRelay::new(QwiicRelayConfig::with_verification(4, policy));
    let mut board = Board::new(4).with_ticks(&[1_000, 1_001]);
    let result = board.carry_out(relay.set_relay_on(Some(1)));
    match result {
        Err(RelayError::Timeout { relay_num, operation, duration_ms }) => {
            assert_eq!(relay_num, Some(1));
            assert_eq!(operation, "set_relay_on");
            assert_eq!(duration_ms, 0);
        }
        other => panic!("unexpected result: {:?}", other),
    }
    assert_eq!(board.asked, vec![Asked::Clock, Asked::Clock]);
    assert_eq!(board.relays, vec![false; 4]);
}

#[test]
fn a_clock_that_stands_still_never_times_out() {
    let policy = VerificationConfig::strict().with_timeout(0);
    let relay = QwiicRelay::new(QwiicRelayConfig::with_verification(4, policy));
    let mut board = Board::new(4).with_ticks(&[7, 7]);
    assert!(matches!(board.carry_out(relay.set_relay_on(Some(1))), Ok(Reply::Done)));
    // Nor does one that runs backwards.
    let mut board = Board::new(4).with_ticks(&[7, 3]);
    assert!(matches!(board.carry_out(relay.set_relay_off(Some(1))), Ok(Reply::Done)));
}

#[test]
fn the_time_allowed_ends_the_retries() {
    // One second is allowed. The first two looks at the clock are in time,
    // the third is 1.5 s after the start.
    let relay = strict(4);
    let mut board = Board::stuck(4).with_ticks(&[
        2_000_000_000,
        2_000_000_001,
        3_000_000_000,
        3_500_000_000,
    ]);
    let result = board.carry_out(relay.set_relay_off(Some(2)));
    // The relay is off already, so nothing fails: put it on first.
    assert!(matches!(result, Ok(Reply::Done)));

    let mut board = Board::stuck(4).with_ticks(&[
        2_000_000_000,
        2_000_000_001,
        3_000_000_000,
        3_500_000_000,
    ]);
    let result = board.carry_out(relay.set_relay_on(Some(2)));
    match result {
        Err(RelayError::Timeout { relay_num, operation, duration_ms }) => {
            assert_eq!(relay_num, Some(2));
            assert_eq!(operation, "set_relay_on");
            assert_eq!(duration_ms, 1500);
        }
        other => panic!("unexpected result: {:?}", other),
    }
    assert_eq!(board.writes, 2);
}

#[test]
fn exactly_the_time_allowed_is_still_in_time() {
    let policy = VerificationConfig::strict().with_timeout(1);
    let relay = QwiicRelay::new(QwiicRelayConfig::with_verification(4, policy));
    let mut board = Board::new(4).with_ticks(&[10, 1_000_010]);
    assert!(matches!(board.carry_out(relay.set_relay_on(Some(1))), Ok(Reply::Done)));
    let mut board = Board::new(4).with_ticks(&[10, 1_000_011]);
    assert!(matches!(
        board.carry_out(relay.set_relay_on(Some(1))),
        Err(RelayError::Timeout { duration_ms: 1, .. })
    ));
}

#[test]
fn the_longest_timeout_is_never_reached() {
    let policy = VerificationConfig::strict().with_timeout(u64::MAX);
    let relay = QwiicRelay::new(QwiicRelayConfig::with_verification(4, policy));
    let mut board = Board::new(4).with_ticks(&[0, u64::MAX]);
    assert!(matches!(board.carry_out(relay.set_relay_on(Some(1))), Ok(Reply::Done)));
}

#[test]
fn timeouts_name_their_operation() {
    let policy = VerificationConfig::lenient().with_timeout(0);
    let config = QwiicRelayConfig::with_verification(2, policy);
    let relay = QwiicRelay::new(config);
    let late: [u64; 2] = [0, 2_000_000];

    let result = Board::new(2).with_ticks(&late).carry_out(relay.set_relay_off(None));
    assert!(matches!(
        result,
        Err(RelayError::Timeout { relay_num: None, ref operation, duration_ms: 2 })
            if operation == "set_relay_off"
    ));
    let result = Board::new(2).with_ticks(&late).carry_out(relay.toggle_relay(Some(2)));
    assert!(matches!(
        result,
        Err(RelayError::Timeout { relay_num: Some(2), ref operation, duration_ms: 2 })
            if operation == "toggle_relay"
    ));
    let result = Board::new(2).with_ticks(&late).carry_out(relay.set_all_relays_on());
    assert!(matches!(
        result,
        Err(RelayError::Timeout { relay_num: Some(1), ref operation, duration_ms: 2 })
            if operation == "set_all_relays_on"
    ));
    let result = Board::new(2).with_ticks(&late).carry_out(relay.set_all_relays_off());
    assert!(matches!(
        result,
        Err(RelayError::Timeout { relay_num: Some(1), ref operation, duration_ms: 2 })
            if operation == "set_all_relays_off"
    ));
}

#[test]
fn bus_errors_are_retried_until_the_last_attempt() {
    let relay = strict(4);

    // The first read fails, the second attempt goes through.
    let mut board = Board::new(4);
    board.failing_reads = vec![0];
    assert!(matches!(board.carry_out(relay.set_relay_on(Some(1))), Ok(Reply::Done)));
    assert_eq!(
        board.asked[..4],
        [Asked::Clock, Asked::Clock, Asked::Read(0x05), Asked::Pause(Delay::Millis(50))]
    );

    // A failed write is retried as well.
    let mut board = Board::new(4);
    board.failing_writes = vec![0];
    assert!(matches!(board.carry_out(relay.set_relay_on(Some(1))), Ok(Reply::Done)));
    assert_eq!(board.writes, 2);

    // And so is a failed read-back: the relay is on by then, so the next
    // attempt writes nothing.
    let mut board = Board::new(4);
    board.failing_reads = vec![1];
    assert!(matches!(board.carry_out(relay.set_relay_on(Some(1))), Ok(Reply::Done)));
    assert_eq!(board.writes, 1);
    assert_eq!(board.reads, 4);

    // On the last attempt the error is passed on.
    let mut board = Board::new(4);
    board.failing_reads = vec![0, 1, 2, 3];
    let result = board.carry_out(relay.set_relay_on(Some(1)));
    assert!(matches!(result, Err(RelayError::I2C(LinuxI2CError::Errno(5)))));
    assert_eq!(board.reads, 4);
    assert_eq!(board.writes, 0);

    let policy = VerificationConfig::strict().with_max_retries(0);
    let relay = QwiicRelay::new(QwiicRelayConfig::with_verification(4, policy));
    let mut board = Board::new(4);
    board.failing_writes = vec![0];
    let result = board.carry_out(relay.set_relay_on(Some(1)));
    assert!(matches!(result, Err(RelayError::I2C(LinuxI2CError::Errno(121)))));
}

#[test]
fn change_address_writes_the_command_and_the_address() {
    let relay = strict(4);
    let mut board = Board::new(4);
    assert!(matches!(board.carry_out(relay.change_i2c_address(0x08)), Ok(Reply::Done)));
    assert_eq!(
        board.asked,
        vec![
            Asked::Write(Transfer::Register { register: 0xC7, value: 0x08 }),
            Asked::Pause(Delay::Millis(100)),
        ]
    );
    let mut board = Board::new(4);
    assert!(matches!(board.carry_out(relay.change_i2c_address(0x77)), Ok(Reply::Done)));
    assert_eq!(board.writes, 1);
}

#[test]
fn change_address_refuses_reserved_addresses() {
    let relay = strict(4);
    for address in [0x00, 0x05, 0x07, 0x78, 0x79, 0x7F, 0x80, 0xFF] {
        let mut board = Board::new(4);
        let result = board.carry_out(relay.change_i2c_address(address));
        assert!(matches!(result, Err(RelayError::InvalidI2CAddress(refused)) if refused == address));
        assert!(board.asked.is_empty());
    }
}

#[test]
fn change_address_passes_bus_errors_on() {
    let relay = strict(4);
    let mut board = Board::new(4);
    board.failing_writes = vec![0];
    let result = board.carry_out(relay.change_i2c_address(0x09));
    assert!(matches!(result, Err(RelayError::I2C(_))));
    assert_eq!(board.asked.len(), 1);
}

#[test]
fn relays_the_board_does_not_have_are_refused() {
    for policy in policies() {
        let relay = QwiicRelay::new(QwiicRelayConfig::with_verification(4, policy));
        for number in [0u8, 5, 255] {
            let mut board = Board::new(4);
            let results = [
                board.carry_out(relay.set_relay_on(Some(number))),
                board.carry_out(relay.set_relay_off(Some(number))),
                board.carry_out(relay.toggle_relay(Some(number))),
                board.carry_out(relay.get_relay_state(Some(number))),
            ];
            for result in results {
                assert!(matches!(
                    result,
                    Err(RelayError::InvalidRelayNumber { relay_num, max_relays: 4 })
                        if relay_num == number
                ));
            }
            assert!(board.asked.is_empty());
        }
    }
    let relay = strict(0);
    let mut board = Board::new(4);
    assert!(matches!(
        board.carry_out(relay.set_relay_on(Some(1))),
        Err(RelayError::InvalidRelayNumber { relay_num: 1, max_relays: 0 })
    ));
}

#[test]
fn the_relay_without_a_number_is_that_of_a_single_board() {
    let relay = unverified(1);
    let mut board = Board::single();
    assert!(matches!(board.carry_out(relay.set_relay_on(None)), Ok(Reply::Done)));
    assert_eq!(
        board.asked,
        vec![
            Asked::Read(0x05),
            Asked::Write(Transfer::Command(0x01)),
            Asked::Pause(Delay::Micros(10)),
        ]
    );
    assert!(matches!(
        board.carry_out(relay.get_relay_state(None)),
        Ok(Reply::Status(RelayStatus::On))
    ));
    board.asked.clear();
    assert!(matches!(board.carry_out(relay.set_relay_off(None)), Ok(Reply::Done)));
    assert_eq!(
        board.asked,
        vec![
            Asked::Read(0x05),
            Asked::Write(Transfer::Command(0x00)),
            Asked::Pause(Delay::Micros(10)),
        ]
    );
    assert_eq!(board.relays, vec![false]);

    let relay = strict(1);
    assert!(matches!(board.carry_out(relay.toggle_relay(None)), Ok(Reply::Done)));
    assert_eq!(board.relays, vec![true]);
    assert!(matches!(board.carry_out(relay.toggle_relay(None)), Ok(Reply::Done)));
    assert_eq!(board.relays, vec![false]);
}

#[test]
fn get_reads_one_register() {
    let relay = strict(4);
    let mut board = Board::new(4);
    board.relays[3] = true;
    let got = board.carry_out(relay.get_relay_state(Some(4)));
    assert!(matches!(got, Ok(Reply::Status(RelayStatus::On))));
    assert_eq!(board.asked, vec![Asked::Read(0x08)]);

    let mut board = Board::new(4);
    board.failing_reads = vec![0];
    let got = board.carry_out(relay.get_relay_state(Some(4)));
    assert!(matches!(got, Err(RelayError::I2C(_))));
    assert_eq!(board.asked, vec![Asked::Read(0x08)]);
}

#[test]
fn any_byte_but_zero_reads_as_on() {
    let relay = strict(4);
    for byte in [1u8, 2, 0x80, 0xFF] {
        match relay.get_relay_state(Some(1)) {
            Action::Read(request) => {
                assert!(matches!(
                    request.answer(Ok(byte)),
                    Action::Finish(Ok(Reply::Status(RelayStatus::On)))
                ));
            }
            _ => panic!("a read was expected"),
        }
    }
    match relay.get_relay_state(Some(1)) {
        Action::Read(request) => {
            assert!(matches!(
                request.answer(Ok(0)),
                Action::Finish(Ok(Reply::Status(RelayStatus::Off)))
            ));
        }
        _ => panic!("a read was expected"),
    }
}

#[test]
fn status_registers_wrap_after_relay_251() {
    let relay = unverified(255);
    for (number, register) in [(1u8, 0x05u8), (251, 0xFF), (252, 0x00), (255, 0x03)] {
        match relay.get_relay_state(Some(number)) {
            Action::Read(request) => assert_eq!(request.register(), register),
            _ => panic!("a read was expected"),
        }
    }
}

#[test]
fn get_version_reads_the_version_register() {
    let relay = strict(4);
    let mut board = Board::new(4);
    board.version = 0x2A;
    let got = board.carry_out(relay.get_version());
    assert!(matches!(got, Ok(Reply::Version(0x2A))));
    assert_eq!(board.asked, vec![Asked::Read(0x04)]);

    board.failing_reads = vec![1];
    assert!(matches!(board.carry_out(relay.get_version()), Err(RelayError::I2C(_))));
}

#[test]
fn write_byte_is_followed_by_the_write_delay() {
    let mut relay = strict(4);
    let mut board = Board::new(4);
    assert!(matches!(board.carry_out(relay.write_byte(0x0C)), Ok(Reply::Done)));
    assert_eq!(
        board.asked,
        vec![Asked::Write(Transfer::Command(0x0C)), Asked::Pause(Delay::Micros(10))]
    );
    assert_eq!(board.relays, vec![true; 4]);

    relay.set_write_delay(0);
    board.asked.clear();
    assert!(matches!(board.carry_out(relay.write_byte(0x0A)), Ok(Reply::Done)));
    assert_eq!(board.asked, vec![Asked::Write(Transfer::Command(0x0A))]);

    board.failing_writes = vec![2];
    assert!(matches!(board.carry_out(relay.write_byte(0x0B)), Err(RelayError::I2C(_))));
}

#[test]
fn init_waits_for_the_board() {
    let mut board = Board::new(4);
    assert!(matches!(board.carry_out(strict(4).init()), Ok(Reply::Done)));
    assert_eq!(board.asked, vec![Asked::Pause(Delay::Millis(200))]);

    let relay = QwiicRelay::new(QwiicRelayConfig::with_timing(4, 10, 10, 0));
    assert!(matches!(relay.init(), Action::Finish(Ok(Reply::Done))));
}

#[test]
fn delays_of_zero_are_skipped() {
    let policy = VerificationConfig::strict().with_verification_delay(0).with_retry_delay(0);
    let config = QwiicRelayConfig::with_verification_and_timing(4, policy, 0, 0, 0);
    let relay = QwiicRelay::new(config);
    let mut board = Board::new(4);
    board.ignored_writes = 1;
    assert!(matches!(board.carry_out(relay.set_relay_on(Some(1))), Ok(Reply::Done)));
    assert_eq!(
        board.asked,
        vec![
            Asked::Clock,
            Asked::Clock,
            Asked::Read(0x05),
            Asked::Write(Transfer::Command(0x01)),
            Asked::Read(0x05),
            Asked::Clock,
            Asked::Read(0x05),
            Asked::Write(Transfer::Command(0x01)),
            Asked::Read(0x05),
        ]
    );
}

#[test]
fn set_all_switches_with_one_command_and_confirms_each_relay() {
    let relay = strict(4);
    let mut board = Board::new(4);
    assert!(matches!(board.carry_out(relay.set_all_relays_on()), Ok(Reply::Done)));
    assert_eq!(board.relays, vec![true; 4]);
    let mut expected = vec![
        Asked::Write(Transfer::Command(0x0B)),
        Asked::Pause(Delay::Micros(10)),
        Asked::Pause(Delay::Millis(10)),
    ];
    for register in 0x05..=0x08u8 {
        expected.extend([
            Asked::Clock,
            Asked::Clock,
            Asked::Read(register),
            Asked::Pause(Delay::Millis(20)),
            Asked::Read(register),
        ]);
    }
    assert_eq!(board.asked, expected);

    board.asked.clear();
    assert!(matches!(board.carry_out(relay.set_all_relays_off()), Ok(Reply::Done)));
    assert_eq!(board.relays, vec![false; 4]);
    assert_eq!(board.asked[0], Asked::Write(Transfer::Command(0x0A)));
    assert_eq!(board.writes, 2);
}

#[test]
fn set_all_switches_a_relay_that_stayed_behind() {
    // The command for all relays is lost: each relay is switched by itself.
    let relay = strict(3);
    let mut board = Board::new(3);
    board.ignored_writes = 1;
    assert!(matches!(
        board.carry_out(relay.set_all_relays(RelayStatus::On)),
        Ok(Reply::Done)
    ));
    assert_eq!(board.relays, vec![true; 3]);
    assert_eq!(board.writes, 4);
    assert!(board.asked.contains(&Asked::Write(Transfer::Command(0x03))));
}

#[test]
fn set_all_names_the_relay_that_failed() {
    let relay = strict(4);
    let mut board = Board::stuck(4);
    board.relays = vec![true, true, false, true];
    let result = board.carry_out(relay.set_all_relays_on());
    assert!(matches!(
        result,
        Err(RelayError::StateVerificationFailed {
            relay_num: Some(3),
            expected: true,
            actual: false,
            attempts: 4
        })
    ));
    // The fourth relay is not looked at any more.
    assert!(!board.asked.contains(&Asked::Read(0x08)));
}

#[test]
fn unverified_set_all_only_writes_and_waits() {
    let relay = unverified(4);
    let mut board = Board::new(4);
    assert!(matches!(board.carry_out(relay.set_all_relays_on()), Ok(Reply::Done)));
    assert_eq!(
        board.asked,
        vec![
            Asked::Write(Transfer::Command(0x0B)),
            Asked::Pause(Delay::Micros(10)),
            Asked::Pause(Delay::Millis(10)),
        ]
    );

    let mut board = Board::new(4);
    board.failing_writes = vec![0];
    assert!(matches!(board.carry_out(relay.set_all_relays_off()), Err(RelayError::I2C(_))));
    assert_eq!(board.asked.len(), 1);

    // With verification as well, the one command is not repeated.
    let mut board = Board::new(4);
    board.failing_writes = vec![0];
    assert!(matches!(board.carry_out(strict(4).set_all_relays_off()), Err(RelayError::I2C(_))));
    assert_eq!(board.asked.len(), 1);
}

#[test]
fn set_all_confirms_nothing_on_a_board_without_relays() {
    let relay = strict(0);
    let mut board = Board::new(4);
    assert!(matches!(board.carry_out(relay.set_all_relays_on()), Ok(Reply::Done)));
    assert_eq!(board.asked.len(), 3);
}

#[test]
fn an_operation_goes_by_the_configuration_it_began_with() {
    let mut relay = strict(4);
    let first = relay.set_relay_on(Some(1));
    relay.update_config(QwiicRelayConfig::for_mechanical(4));
    relay.set_state_change_delay(30);
    assert_eq!(relay.config.state_change_delay_ms, 30);
    assert_eq!(relay.config.write_delay_us, 15);
    let mut board = Board::new(4);
    assert!(matches!(board.carry_out(first), Ok(Reply::Done)));
    assert!(board.asked.contains(&Asked::Pause(Delay::Millis(10))));
    assert!(!board.asked.contains(&Asked::Pause(Delay::Millis(30))));

    board.asked.clear();
    assert!(matches!(board.carry_out(relay.set_relay_off(Some(1))), Ok(Reply::Done)));
    assert!(board.asked.contains(&Asked::Pause(Delay::Micros(15))));
    assert!(board.asked.contains(&Asked::Pause(Delay::Millis(30))));
}

#[test]
fn lenient_mode_fails_like_strict_mode() {
    let relay = QwiicRelay::new(QwiicRelayConfig::with_verification(
        2,
        VerificationConfig::lenient(),
    ));
    assert!(matches!(relay.config.verification.mode, VerificationMode::Lenient));
    let mut board = Board::stuck(2);
    let result = board.carry_out(relay.set_relay_on(Some(2)));
    assert!(matches!(
        result,
        Err(RelayError::StateVerificationFailed {
            relay_num: Some(2),
            expected: true,
            actual: false,
            attempts: 6
        })
    ));
    let retries = board.asked.iter().filter(|asked| **asked == Asked::Pause(Delay::Millis(100)));
    assert_eq!(retries.count(), 5);
}

#[test]
fn the_fastest_timing_is_kept_where_it_works() {
    let relay = unverified(4);
    let mut board = Board::new(4);
    let (optimized, config) = tune(&mut board, relay.auto_detect_timing());
    assert!(optimized);
    assert_eq!(
        config,
        QwiicRelayConfig { write_delay_us: 7, state_change_delay_ms: 7, ..relay.config }
    );
    // Relay 1 went on and off three times and is off in the end.
    assert_eq!(board.writes, 6);
    assert_eq!(board.relays, vec![false; 4]);
    let round = vec![
        Asked::Read(0x05),
        Asked::Write(Transfer::Command(0x01)),
        Asked::Pause(Delay::Micros(5)),
        Asked::Pause(Delay::Millis(5)),
        Asked::Read(0x05),
    ];
    let mut expected = vec![];
    for _ in 0..6 {
        expected.extend(round.iter().copied());
    }
    // Turning the relay off for good finds it off already.
    expected.push(Asked::Read(0x05));
    assert_eq!(board.asked, expected);
    // The configuration of the relay is for the caller to replace.
    assert_eq!(relay.config.write_delay_us, 10);
}

#[test]
fn a_timing_that_fails_gives_way_to_the_next() {
    // The first write is lost, which the first timing does not survive.
    let relay = unverified(4);
    let mut board = Board::new(4);
    board.ignored_writes = 1;
    let (optimized, config) = tune(&mut board, relay.auto_detect_timing());
    assert!(optimized);
    assert_eq!(config.write_delay_us, 12);
    assert_eq!(config.state_change_delay_ms, 12);
    assert_eq!(config.init_delay_ms, 200);
    assert_eq!(config.relay_count, 4);
    assert_eq!(board.relays, vec![false; 4]);
    assert_eq!(board.asked[..5], [
        Asked::Read(0x05),
        Asked::Write(Transfer::Command(0x01)),
        Asked::Pause(Delay::Micros(5)),
        Asked::Pause(Delay::Millis(5)),
        Asked::Read(0x05),
    ]);
    assert_eq!(board.asked[5..10], [
        Asked::Read(0x05),
        Asked::Write(Transfer::Command(0x01)),
        Asked::Pause(Delay::Micros(10)),
        Asked::Pause(Delay::Millis(10)),
        Asked::Read(0x05),
    ]);
}

#[test]
fn the_slowest_timing_is_the_last_to_be_tried() {
    let relay = unverified(4);
    let mut board = Board::new(4);
    board.ignored_writes = 3;
    let (optimized, config) = tune(&mut board, relay.auto_detect_timing());
    assert!(optimized);
    assert_eq!(config.write_delay_us, 22);
    assert_eq!(config.state_change_delay_ms, 22);
}

#[test]
fn the_configuration_stays_where_no_timing_works() {
    let relay = QwiicRelay::new(QwiicRelayConfig::with_timing(4, 33, 44, 55));
    let mut board = Board::stuck(4);
    let (optimized, config) = tune(&mut board, relay.auto_detect_timing());
    assert!(!optimized);
    assert_eq!(config, relay.config);
    // Four timings, each given up after the first relay did not turn on,
    // with every retry that the policy allows.
    assert_eq!(board.writes, 16);

    let mut board = Board::new(4);
    board.failing_reads = (0..100).collect();
    let (optimized, config) = tune(&mut board, unverified(4).auto_detect_timing());
    assert!(!optimized);
    assert_eq!(config, unverified(4).config);
    assert_eq!(board.reads, 4);
    assert_eq!(board.writes, 0);
}

#[test]
fn a_relay_that_does_not_turn_off_fails_the_timing() {
    // The relay is on and stuck: under every timing it is found on, and
    // then does not go off.
    let relay = unverified(4);
    let mut board = Board::stuck(4);
    board.relays[0] = true;
    let (optimized, config) = tune(&mut board, relay.auto_detect_timing());
    assert!(!optimized);
    assert_eq!(config, relay.config);
    assert_eq!(board.writes, 4);
}

#[test]
fn a_board_without_relays_has_no_timing() {
    let relay = strict(0);
    let mut board = Board::new(4);
    let (optimized, config) = tune(&mut board, relay.auto_detect_timing());
    assert!(!optimized);
    assert_eq!(config, relay.config);
    assert!(board.asked.is_empty());
}

#[test]
fn the_timing_is_tried_with_the_verification_of_the_board() {
    let relay = strict(4);
    let mut board = Board::new(4);
    let (optimized, config) = tune(&mut board, relay.auto_detect_timing());
    assert!(optimized);
    assert_eq!(config.verification, VerificationConfig::strict());
    assert_eq!(config.write_delay_us, 7);
    assert_eq!(board.asked[..9], [
        Asked::Clock,
        Asked::Clock,
        Asked::Read(0x05),
        Asked::Write(Transfer::Command(0x01)),
        Asked::Pause(Delay::Micros(5)),
        Asked::Pause(Delay::Millis(5)),
        Asked::Pause(Delay::Millis(20)),
        Asked::Read(0x05),
        Asked::Pause(Delay::Millis(5)),
    ]);
}

/// The most requests that confirming one relay can take under a policy.
fn relay_requests(policy: VerificationConfig) -> usize {
    1 + 8 * (policy.max_retries as usize + 1)
}

#[test]
fn no_operation_asks_more_than_its_attempts_allow() {
    for policy in [VerificationConfig::strict(), VerificationConfig::lenient()] {
        let config = QwiicRelayConfig::with_verification(4, policy);
        let relay = QwiicRelay::new(config);

        // A stuck relay takes every attempt, and every request of each but
        // the pause after the last.
        let mut board = Board::stuck(4);
        assert!(board.carry_out(relay.set_relay_on(Some(1))).is_err());
        assert_eq!(board.asked.len(), relay_requests(policy) - 1);

        let mut board = Board::stuck(4);
        assert!(board.carry_out(relay.toggle_relay(Some(1))).is_err());
        assert!(board.asked.len() <= 1 + relay_requests(policy));

        let mut board = Board::stuck(4);
        board.relays = vec![true, true, true, false];
        assert!(board.carry_out(relay.set_all_relays_on()).is_err());
        assert!(board.asked.len() <= 3 + 4 * relay_requests(policy));

        // A bus that always fails ends an operation no later.
        let mut board = Board::new(4);
        board.failing_reads = (0..1000).collect();
        assert!(board.carry_out(relay.set_relay_on(Some(1))).is_err());
        assert!(board.asked.len() <= relay_requests(policy));
    }
    let relay = strict(4);
    let mut board = Board::new(4);
    assert!(board.carry_out(relay.get_relay_state(Some(1))).is_ok());
    assert!(board.carry_out(relay.get_version()).is_ok());
    assert_eq!(board.asked.len(), 2);
    board.asked.clear();
    assert!(board.carry_out(relay.write_byte(0x0C)).is_ok());
    assert!(board.carry_out(relay.change_i2c_address(0x10)).is_ok());
    assert_eq!(board.asked.len(), 4);
}
