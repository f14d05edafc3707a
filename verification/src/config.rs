//! Hot-reloadable tuning parameters.
//!
//! A `Config` value arrives already structured from the outside; it is
//! replaced wholesale on each reload.  Fields left absent do not reset
//! thresholds that an earlier value established.

use vstd::prelude::*;

verus! {

/// Tunables the engine consumes: the companion process id override, the
/// deadzone distance (in pad units, squared before use) and the deadzone
/// pressure threshold.
#[derive(Clone, Copy, Debug)]
pub struct Config {
    pub steam_pid: Option<i32>,
    pub deadzone_dist: Option<u32>,
    pub deadzone_pressure: Option<u16>,
}

impl Config {
    /// The configuration before any reload: nothing overridden.
    pub fn new() -> (c: Config)
        ensures
            c.steam_pid is None,
            c.deadzone_dist is None,
            c.deadzone_pressure is None,
    {
        Config { steam_pid: None, deadzone_dist: None, deadzone_pressure: None }
    }
}

} // verus!
