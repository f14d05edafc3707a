//! Polling and decision engine for the touch surfaces of a handheld
//! game controller.
//!
//! The library decodes fixed-size binary reports, keeps a time-windowed
//! history of touch samples per surface, decides from touch timing alone
//! when a deliberate two-thumb gesture has happened, suppresses noisy
//! near-duplicate reports, and coordinates pausing and resuming the
//! vendor's companion process.  All I/O (the hardware channel, the
//! process table, signals, configuration files) lives outside: callers
//! hand in plain values and carry out the actions handed back.

pub mod companion;
pub mod config;
pub mod deadzone;
pub mod device;
pub mod engine;
pub mod gesture;
pub mod report;
pub mod touch;

use vstd::prelude::*;

verus! {

/// Width of the simultaneity window: two touch starts closer than this
/// many milliseconds count as one deliberate two-thumb gesture.
pub const TOGGLE_WINDOW_MS: u64 = 100;

/// Samples older than this many milliseconds fall out of a touch history.
pub const HISTORY_WINDOW_MS: u64 = 2000;

} // verus!
