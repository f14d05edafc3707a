//! Deadzone filter: suppress near-duplicate reports.
//!
//! The newest decoded report is compared against the last *emitted*
//! report; only a change beyond the configured thresholds is forwarded.
//! Whoever emits must replace the baseline with the emitted report, or
//! small cumulative drifts would stay invisible forever.

use crate::report::SteamDeckDeviceReport;
use vstd::prelude::*;

verus! {

/// Squared Euclidean distance between two positions of one pad.
pub open spec fn spec_square_dist(ax: i16, ay: i16, bx: i16, by: i16) -> int {
    (bx - ax) * (bx - ax) + (by - ay) * (by - ay)
}

/// Absolute difference of two force readings.
pub open spec fn spec_pressure_delta(a: u16, b: u16) -> int {
    if a > b {
        a - b
    } else {
        b - a
    }
}

/// Emit exactly when either surface moved by more than the (squared)
/// distance threshold, or either force changed by more than the
/// pressure threshold.
pub open spec fn spec_should_emit(
    last: SteamDeckDeviceReport,
    current: SteamDeckDeviceReport,
    deadzone_dist_square: u64,
    deadzone_pressure: u16,
) -> bool {
    ||| spec_square_dist(last.l_pad_x, last.l_pad_y, current.l_pad_x, current.l_pad_y)
        > deadzone_dist_square
    ||| spec_square_dist(last.r_pad_x, last.r_pad_y, current.r_pad_x, current.r_pad_y)
        > deadzone_dist_square
    ||| spec_pressure_delta(last.l_pad_force, current.l_pad_force) > deadzone_pressure
    ||| spec_pressure_delta(last.r_pad_force, current.r_pad_force) > deadzone_pressure
}

fn square_dist(ax: i16, ay: i16, bx: i16, by: i16) -> (d: u64)
    ensures
        d == spec_square_dist(ax, ay, bx, by),
{
    let dx: i64 = bx as i64 - ax as i64;
    let dy: i64 = by as i64 - ay as i64;
    proof {
        assert(0 <= dx * dx <= 65535 * 65535) by (nonlinear_arith)
            requires
                -65535 <= dx <= 65535,
        ;
        assert(0 <= dy * dy <= 65535 * 65535) by (nonlinear_arith)
            requires
                -65535 <= dy <= 65535,
        ;
    }
    let sq: i64 = dx * dx + dy * dy;
    sq as u64
}

/// Decide whether `current` differs enough from the `last` emitted
/// report to be forwarded.
pub fn should_emit(
    last: &SteamDeckDeviceReport,
    current: &SteamDeckDeviceReport,
    deadzone_dist_square: u64,
    deadzone_pressure: u16,
) -> (r: bool)
    ensures
        r == spec_should_emit(*last, *current, deadzone_dist_square, deadzone_pressure),
{
    let l_square_dist = square_dist(last.l_pad_x, last.l_pad_y, current.l_pad_x, current.l_pad_y);
    let r_square_dist = square_dist(last.r_pad_x, last.r_pad_y, current.r_pad_x, current.r_pad_y);
    let l_pressure_diff = if last.l_pad_force > current.l_pad_force {
        last.l_pad_force - current.l_pad_force
    } else {
        current.l_pad_force - last.l_pad_force
    };
    let r_pressure_diff = if last.r_pad_force > current.r_pad_force {
        last.r_pad_force - current.r_pad_force
    } else {
        current.r_pad_force - last.r_pad_force
    };
    l_square_dist > deadzone_dist_square || r_square_dist > deadzone_dist_square || l_pressure_diff
        > deadzone_pressure || r_pressure_diff > deadzone_pressure
}

} // verus!
