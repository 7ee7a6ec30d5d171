//! What is known of a relay board: how many relays it has, how long it needs
//! after a write, and how its state is confirmed.

use crate::verification::VerificationConfig;
use vstd::prelude::*;

verus! {

/// The configuration of a relay board.
#[derive(Clone, Copy, Debug, PartialEq, Eq, Structural)]
pub struct QwiicRelayConfig {
    /// Number of relays on the board.
    pub relay_count: u8,
    /// How a commanded state is confirmed.
    pub verification: VerificationConfig,
    /// Microseconds to wait after a write.
    pub write_delay_us: u32,
    /// Milliseconds a relay needs to change its state.
    pub state_change_delay_ms: u32,
    /// Milliseconds the board needs after power-up.
    pub init_delay_ms: u32,
}

impl QwiicRelayConfig {
    /// A board of `relay_count` relays with the given policy and delays.
    pub open spec fn of(
        relay_count: u8,
        verification: VerificationConfig,
        write_delay_us: u32,
        state_change_delay_ms: u32,
        init_delay_ms: u32,
    ) -> Self {
        QwiicRelayConfig {
            relay_count,
            verification,
            write_delay_us,
            state_change_delay_ms,
            init_delay_ms,
        }
    }

    pub open spec fn spec_accepts(&self, relay_num: Option<u8>) -> bool {
        relay_num matches Some(number) ==> 1 <= number <= self.relay_count
    }

    /// Whether an operation may name this relay: relays are numbered from 1
    /// to `relay_count`, and `None` stands for the relay of a single-relay board.
    #[verifier::when_used_as_spec(spec_accepts)]
    pub fn accepts(&self, relay_num: Option<u8>) -> (accepted: bool)
        ensures
            accepted == self.spec_accepts(relay_num),
    {
        match relay_num {
            Some(number) => 1 <= number && number <= self.relay_count,
            None => true,
        }
    }

    /// Standard timing: 10 us after a write, 10 ms to change state, 200 ms to start up.
    pub fn new(relay_count: u8) -> (config: QwiicRelayConfig)
        ensures
            config == Self::of(relay_count, VerificationConfig::strict(), 10, 10, 200),
    {
        QwiicRelayConfig {
            relay_count,
            verification: VerificationConfig::strict(),
            write_delay_us: 10,
            state_change_delay_ms: 10,
            init_delay_ms: 200,
        }
    }

    /// Standard timing with a verification policy of the caller's.
    pub fn with_verification(relay_count: u8, verification: VerificationConfig) -> (config:
        QwiicRelayConfig)
        ensures
            config == Self::of(relay_count, verification, 10, 10, 200),
    {
        QwiicRelayConfig {
            relay_count,
            verification,
            write_delay_us: 10,
            state_change_delay_ms: 10,
            init_delay_ms: 200,
        }
    }

    /// Timing of the caller's with the strict verification policy.
    pub fn with_timing(
        relay_count: u8,
        write_delay_us: u32,
        state_change_delay_ms: u32,
        init_delay_ms: u32,
    ) -> (config: QwiicRelayConfig)
        ensures
            config == Self::of(
                relay_count,
                VerificationConfig::strict(),
                write_delay_us,
                state_change_delay_ms,
                init_delay_ms,
            ),
    {
        QwiicRelayConfig {
            relay_count,
            verification: VerificationConfig::strict(),
            write_delay_us,
            state_change_delay_ms,
            init_delay_ms,
        }
    }

    /// Both the verification policy and the timing of the caller's.
    pub fn with_verification_and_timing(
        relay_count: u8,
        verification: VerificationConfig,
        write_delay_us: u32,
        state_change_delay_ms: u32,
        init_delay_ms: u32,
    ) -> (config: QwiicRelayConfig)
        ensures
            config == Self::of(
                relay_count,
                verification,
                write_delay_us,
                state_change_delay_ms,
                init_delay_ms,
            ),
    {
        QwiicRelayConfig {
            relay_count,
            verification,
            write_delay_us,
            state_change_delay_ms,
            init_delay_ms,
        }
    }

    /// Solid-state relays have no armature to move: 5 us, 5 ms, 100 ms.
    pub fn for_solid_state(relay_count: u8) -> (config: QwiicRelayConfig)
        ensures
            config == Self::of(relay_count, VerificationConfig::strict(), 5, 5, 100),
    {
        QwiicRelayConfig {
            relay_count,
            verification: VerificationConfig::strict(),
            write_delay_us: 5,
            state_change_delay_ms: 5,
            init_delay_ms: 100,
        }
    }

    /// Mechanical relays need time for the armature to travel: 15 us, 20 ms, 250 ms.
    pub fn for_mechanical(relay_count: u8) -> (config: QwiicRelayConfig)
        ensures
            config == Self::of(relay_count, VerificationConfig::strict(), 15, 20, 250),
    {
        QwiicRelayConfig {
            relay_count,
            verification: VerificationConfig::strict(),
            write_delay_us: 15,
            state_change_delay_ms: 20,
            init_delay_ms: 250,
        }
    }

    pub fn set_write_delay_us(&mut self, delay_us: u32)
        ensures
            *final(self) == (QwiicRelayConfig { write_delay_us: delay_us, ..*old(self) }),
    {
        self.write_delay_us = delay_us;
    }

    pub fn set_state_change_delay_ms(&mut self, delay_ms: u32)
        ensures
            *final(self) == (QwiicRelayConfig { state_change_delay_ms: delay_ms, ..*old(self) }),
    {
        self.state_change_delay_ms = delay_ms;
    }

    pub fn set_init_delay_ms(&mut self, delay_ms: u32)
        ensures
            *final(self) == (QwiicRelayConfig { init_delay_ms: delay_ms, ..*old(self) }),
    {
        self.init_delay_ms = delay_ms;
    }
}

impl Default for QwiicRelayConfig {
    /// A board of four relays with standard timing.
    fn default() -> (config: Self)
        ensures
            config == Self::of(4, VerificationConfig::strict(), 10, 10, 200),
    {
        QwiicRelayConfig::new(4)
    }
}

} // verus!
