//! A relay board, and the operations on it.

use crate::action::Action;
use crate::config::QwiicRelayConfig;
use crate::error::RelayError;
use crate::operation::{
    start_change_address, start_get, start_get_version, start_init, start_set, start_set_all,
    start_toggle, start_write_byte, Delay, Operation, Pausing, Reading, Switching, Writing,
};
use crate::protocol::{address_allowed, status_register, RelayStatus};
use vstd::prelude::*;

verus! {

/// A relay board and what is known of it.
///
/// Its methods begin operations. None touches the bus: each returns the
/// first step of its operation, and the steps that follow come from the
/// answers to the requests.
pub struct QwiicRelay {
    /// The configuration that the next operation will go by.
    pub config: QwiicRelayConfig,
}

impl QwiicRelay {
    pub fn new(config: QwiicRelayConfig) -> (relay: QwiicRelay)
        ensures
            relay.config == config,
    {
        QwiicRelay { config }
    }

    /// The state of an operation of `self` that has only begun.
    fn beginning(&self, operation: Operation, relay_num: Option<u8>, expected: bool) -> (switching:
        Switching)
        ensures
            switching == crate::operation::beginning(operation, self.config, relay_num, expected),
    {
        Switching {
            operation,
            config: self.config,
            relay_num,
            expected,
            attempt: 0,
            probe: true,
            started: 0,
        }
    }

    /// The end of an operation on a relay that the board does not have.
    fn no_such_relay(&self, number: u8) -> (action: Action)
        ensures
            action@ == crate::operation::ActionView::no_such_relay(self.config, number),
    {
        Action::Finish(
            Err(
                RelayError::InvalidRelayNumber {
                    relay_num: number,
                    max_relays: self.config.relay_count,
                },
            ),
        )
    }

    /// Waits for the board to start up.
    pub fn init(&self) -> (action: Action)
        ensures
            action@ == start_init(self.config),
    {
        Action::pause_or(
            Pausing::Closing { delay: Delay::Millis(self.config.init_delay_ms as u64) },
            Action::done(),
        )
    }

    /// Puts a relay in the given state.
    ///
    /// A relay that the board does not have is refused before anything is
    /// asked of the bus. Without verification the state is read, the relay is
    /// switched if it differs, and the operation is over after the write
    /// delay. With verification the state is read back after each attempt,
    /// and an attempt that failed is repeated until the retries or the time
    /// run out.
    pub fn set_relay(&self, relay_num: Option<u8>, status: RelayStatus) -> (action: Action)
        ensures
            action@ == start_set(self.config, relay_num, status.is_on()),
    {
        let on = bool::from(status);
        let switching = self.beginning(Operation::setting(on), relay_num, on);
        match relay_num {
            Some(number) if !self.config.accepts(relay_num) => self.no_such_relay(number),
            _ => if switching.confirms() {
                Action::confirm_from_start(switching)
            } else {
                Action::read(Reading::Probe(switching))
            },
        }
    }

    /// Turns a relay on.
    pub fn set_relay_on(&self, relay_num: Option<u8>) -> (action: Action)
        ensures
            action@ == start_set(self.config, relay_num, true),
    {
        self.set_relay(relay_num, RelayStatus::On)
    }

    /// Turns a relay off.
    pub fn set_relay_off(&self, relay_num: Option<u8>) -> (action: Action)
        ensures
            action@ == start_set(self.config, relay_num, false),
    {
        self.set_relay(relay_num, RelayStatus::Off)
    }

    /// Puts a relay in the state it is not in.
    ///
    /// The state is read once, and the relay is then switched and confirmed
    /// as by `set_relay` with the opposite state, without reading it again
    /// before the first write.
    pub fn toggle_relay(&self, relay_num: Option<u8>) -> (action: Action)
        ensures
            action@ == start_toggle(self.config, relay_num),
    {
        match relay_num {
            Some(number) if !self.config.accepts(relay_num) => self.no_such_relay(number),
            _ => Action::read(
                Reading::Observe(self.beginning(Operation::ToggleRelay, relay_num, false)),
            ),
        }
    }

    /// Reads the status of a relay: one register read, nothing repeated.
    pub fn get_relay_state(&self, relay_num: Option<u8>) -> (action: Action)
        ensures
            action@ == start_get(self.config, relay_num),
    {
        match relay_num {
            Some(number) if !self.config.accepts(relay_num) => self.no_such_relay(number),
            _ => Action::read(Reading::Status { register: status_register(relay_num) }),
        }
    }

    /// Puts every relay in the given state with one command, and with
    /// verification confirms each relay in turn as `set_relay` does.
    pub fn set_all_relays(&self, status: RelayStatus) -> (action: Action)
        ensures
            action@ == start_set_all(self.config, status.is_on()),
    {
        let on = bool::from(status);
        Action::write(Writing::Broadcast(self.beginning(Operation::setting_all(on), None, on)))
    }

    /// Turns every relay on.
    pub fn set_all_relays_on(&self) -> (action: Action)
        ensures
            action@ == start_set_all(self.config, true),
    {
        self.set_all_relays(RelayStatus::On)
    }

    /// Turns every relay off.
    pub fn set_all_relays_off(&self) -> (action: Action)
        ensures
            action@ == start_set_all(self.config, false),
    {
        self.set_all_relays(RelayStatus::Off)
    }

    /// Reads the firmware version of the board.
    pub fn get_version(&self) -> (action: Action)
        ensures
            action@ == start_get_version(),
    {
        Action::read(Reading::Version)
    }

    /// Writes one command byte, followed by the write delay.
    pub fn write_byte(&self, command: u8) -> (action: Action)
        ensures
            action@ == start_write_byte(self.config, command),
    {
        Action::write(Writing::Raw { command, delay_us: self.config.write_delay_us })
    }

    /// Moves the board to another bus address, for good. An address outside
    /// of 0x08 to 0x77 is refused before anything is asked of the bus.
    pub fn change_i2c_address(&self, new_address: u8) -> (action: Action)
        ensures
            action@ == start_change_address(new_address),
    {
        if address_allowed(new_address) {
            Action::write(Writing::Address { address: new_address })
        } else {
            Action::Finish(Err(RelayError::InvalidI2CAddress(new_address)))
        }
    }

    /// Replaces the configuration. An operation that has begun goes on by
    /// the configuration it began with.
    pub fn update_config(&mut self, config: QwiicRelayConfig)
        ensures
            final(self).config == config,
    {
        self.config = config;
    }

    pub fn set_write_delay(&mut self, delay_us: u32)
        ensures
            final(self).config == (QwiicRelayConfig { write_delay_us: delay_us, ..old(self).config }),
    {
        self.config.write_delay_us = delay_us;
    }

    pub fn set_state_change_delay(&mut self, delay_ms: u32)
        ensures
            final(self).config == (QwiicRelayConfig {
                state_change_delay_ms: delay_ms,
                ..old(self).config
            }),
    {
        self.config.state_change_delay_ms = delay_ms;
    }
}

} // verus!
