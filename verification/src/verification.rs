//! How a commanded relay state is confirmed: whether at all, how often a
//! failed attempt is repeated, and how long the whole operation may take.

use std::time::Duration;
use vstd::prelude::*;

verus! {

/// What becomes of a state change once it has been written.
#[derive(Clone, Copy, Debug, PartialEq, Eq, Structural)]
pub enum VerificationMode {
    /// The state is read back and a mismatch is an error.
    Strict,
    /// As `Strict`, with more patient defaults; a final mismatch is still an error.
    Lenient,
    /// The state is never read back.
    Disabled,
}

impl Default for VerificationMode {
    fn default() -> (mode: Self)
        ensures
            mode == VerificationMode::Strict,
    {
        VerificationMode::Strict
    }
}

/// The retry and timeout policy of a relay board.
#[derive(Clone, Copy, Debug, PartialEq, Eq, Structural)]
pub struct VerificationConfig {
    pub mode: VerificationMode,
    /// Attempts after the first one; 0 means a single attempt.
    pub max_retries: u8,
    /// Pause before a failed attempt is repeated.
    pub retry_delay_ms: u64,
    /// Pause before the state is read back.
    pub verification_delay_ms: u64,
    /// Time an operation may have taken when a new attempt begins.
    pub timeout_ms: u64,
}

/// The `Duration` that `Duration::from_millis` makes of a number of milliseconds.
pub uninterp spec fn millis_to_duration(millis: u64) -> Duration;

/// `std::time::Duration::from_millis` is a function of its argument: equal
/// numbers of milliseconds give equal durations.
pub assume_specification[ Duration::from_millis ](millis: u64) -> (duration: Duration)
    ensures
        duration == millis_to_duration(millis),
;

impl Default for VerificationConfig {
    fn default() -> (config: Self)
        ensures
            config == Self::spec_strict(),
    {
        VerificationConfig {
            mode: VerificationMode::Strict,
            max_retries: 3,
            retry_delay_ms: 50,
            verification_delay_ms: 20,
            timeout_ms: 1000,
        }
    }
}

impl VerificationConfig {
    /// Three retries 50 ms apart, read-back after 20 ms, one second in all.
    pub open spec fn spec_strict() -> Self {
        VerificationConfig {
            mode: VerificationMode::Strict,
            max_retries: 3,
            retry_delay_ms: 50,
            verification_delay_ms: 20,
            timeout_ms: 1000,
        }
    }

    /// Five retries 100 ms apart, read-back after 50 ms, two seconds in all.
    pub open spec fn spec_lenient() -> Self {
        VerificationConfig {
            mode: VerificationMode::Lenient,
            max_retries: 5,
            retry_delay_ms: 100,
            verification_delay_ms: 50,
            timeout_ms: 2000,
        }
    }

    /// No read-back, and every other field zero.
    pub open spec fn spec_disabled() -> Self {
        VerificationConfig {
            mode: VerificationMode::Disabled,
            max_retries: 0,
            retry_delay_ms: 0,
            verification_delay_ms: 0,
            timeout_ms: 0,
        }
    }

    pub open spec fn spec_enabled(&self) -> bool {
        self.mode != VerificationMode::Disabled
    }

    /// Whether a written state is read back.
    #[verifier::when_used_as_spec(spec_enabled)]
    pub fn enabled(&self) -> (enabled: bool)
        ensures
            enabled == self.spec_enabled(),
    {
        match self.mode {
            VerificationMode::Disabled => false,
            VerificationMode::Strict | VerificationMode::Lenient => true,
        }
    }

    #[verifier::when_used_as_spec(spec_strict)]
    pub fn strict() -> (config: Self)
        ensures
            config == Self::spec_strict(),
    {
        VerificationConfig {
            mode: VerificationMode::Strict,
            max_retries: 3,
            retry_delay_ms: 50,
            verification_delay_ms: 20,
            timeout_ms: 1000,
        }
    }

    #[verifier::when_used_as_spec(spec_lenient)]
    pub fn lenient() -> (config: Self)
        ensures
            config == Self::spec_lenient(),
    {
        VerificationConfig {
            mode: VerificationMode::Lenient,
            max_retries: 5,
            retry_delay_ms: 100,
            verification_delay_ms: 50,
            timeout_ms: 2000,
        }
    }

    #[verifier::when_used_as_spec(spec_disabled)]
    pub fn disabled() -> (config: Self)
        ensures
            config == Self::spec_disabled(),
    {
        VerificationConfig {
            mode: VerificationMode::Disabled,
            max_retries: 0,
            retry_delay_ms: 0,
            verification_delay_ms: 0,
            timeout_ms: 0,
        }
    }

    pub fn with_mode(self, mode: VerificationMode) -> (config: Self)
        ensures
            config == (VerificationConfig { mode, ..self }),
    {
        VerificationConfig { mode, ..self }
    }

    pub fn with_max_retries(self, retries: u8) -> (config: Self)
        ensures
            config == (VerificationConfig { max_retries: retries, ..self }),
    {
        VerificationConfig { max_retries: retries, ..self }
    }

    pub fn with_retry_delay(self, delay_ms: u64) -> (config: Self)
        ensures
            config == (VerificationConfig { retry_delay_ms: delay_ms, ..self }),
    {
        VerificationConfig { retry_delay_ms: delay_ms, ..self }
    }

    pub fn with_verification_delay(self, delay_ms: u64) -> (config: Self)
        ensures
            config == (VerificationConfig { verification_delay_ms: delay_ms, ..self }),
    {
        VerificationConfig { verification_delay_ms: delay_ms, ..self }
    }

    pub fn with_timeout(self, timeout_ms: u64) -> (config: Self)
        ensures
            config == (VerificationConfig { timeout_ms, ..self }),
    {
        VerificationConfig { timeout_ms, ..self }
    }

    pub fn retry_delay(&self) -> (delay: Duration)
        ensures
            delay == millis_to_duration(self.retry_delay_ms),
    {
        Duration::from_millis(self.retry_delay_ms)
    }

    pub fn verification_delay(&self) -> (delay: Duration)
        ensures
            delay == millis_to_duration(self.verification_delay_ms),
    {
        Duration::from_millis(self.verification_delay_ms)
    }

    pub fn timeout(&self) -> (limit: Duration)
        ensures
            limit == millis_to_duration(self.timeout_ms),
    {
        Duration::from_millis(self.timeout_ms)
    }
}

} // verus!
