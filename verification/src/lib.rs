//! Control logic for SparkFun Qwiic Relay boards.
//!
//! The crate decides which bus transfers, pauses and clock readings an
//! operation on a relay board consists of, and what each answer from the
//! board means. It performs none of them itself: an operation is handed out
//! as a sequence of requests, and whoever owns the bus answers them one by one.
//!
//! `QwiicRelay` begins the operations, `Action` is a step of one, and the
//! module `operation` says what follows each answer. The modules `simulation`
//! and `bound` hold what is proved of operations as a whole.

pub mod action;
pub mod bound;
pub mod config;
pub mod error;
pub mod operation;
pub mod protocol;
pub mod relay;
pub mod simulation;
pub mod text;
pub mod tuning;
pub mod verification;

pub use action::{Action, ClockRequest, PauseRequest, ReadRequest, WriteRequest};
pub use config::QwiicRelayConfig;
pub use error::{RelayError, RelayResult};
pub use operation::{Delay, Reply, Transfer};
pub use protocol::{Addresses, Command, RelayState, RelayStatus};
pub use relay::QwiicRelay;
pub use tuning::{RunRequest, SettleRequest, Tuning};
pub use verification::{VerificationConfig, VerificationMode};
