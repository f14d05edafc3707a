//! Gesture detector: a stateless verdict over the two touch histories.
//!
//! The detector fires when the overlay is visible and both surfaces have
//! just been released (the closing gesture), or when both surfaces began
//! their current touch within the simultaneity window of each other and
//! after the last toggle (the opening gesture).

use crate::TOGGLE_WINDOW_MS;
use crate::report::SteamDeckDeviceReport;
use crate::touch::{
    TouchEntry, get_last_touch_start_time, lemma_prune_keeps_fresh_last, spec_last_touch_start,
    spec_pruned,
};
use std::collections::VecDeque;
use vstd::prelude::*;

verus! {

/// The toggle verdict over both histories, the time of the last toggle
/// and the current overlay visibility.  Deterministic in its inputs.
pub open spec fn spec_check_toggle(
    left: Seq<TouchEntry>,
    right: Seq<TouchEntry>,
    last_toggle_window: u64,
    is_visible: bool,
) -> bool {
    if left.len() == 0 || right.len() == 0 {
        false
    } else if is_visible && !left[left.len() - 1].spec_is_touched() && !right[right.len()
        - 1].spec_is_touched() {
        true
    } else {
        match (spec_last_touch_start(left), spec_last_touch_start(right)) {
            (Some(lt), Some(rt)) => lt >= last_toggle_window && rt >= last_toggle_window && (if lt
                > rt {
                lt - rt
            } else {
                rt - lt
            }) < TOGGLE_WINDOW_MS,
            _ => false,
        }
    }
}

/// Decide whether the keyboard overlay should toggle, from the two touch
/// histories, the time of the last toggle and the current visibility.
pub fn check_keyboard_toggle(
    left_touch_history: &VecDeque<TouchEntry>,
    right_touch_history: &VecDeque<TouchEntry>,
    last_toggle_window: u64,
    is_visible: bool,
) -> (r: bool)
    ensures
        r == spec_check_toggle(
            left_touch_history@,
            right_touch_history@,
            last_toggle_window,
            is_visible,
        ),
{
    if left_touch_history.len() == 0 || right_touch_history.len() == 0 {
        return false;
    }
    let last_left_touch = left_touch_history[left_touch_history.len() - 1];
    let last_right_touch = right_touch_history[right_touch_history.len() - 1];
    let is_left_touched = last_left_touch.is_touched();
    let is_right_touched = last_right_touch.is_touched();
    if is_visible && (!is_left_touched && !is_right_touched) {
        return true;
    }
    let left_touch_time = get_last_touch_start_time(left_touch_history);
    let right_touch_time = get_last_touch_start_time(right_touch_history);
    match (left_touch_time, right_touch_time) {
        (Some(lt), Some(rt)) => {
            if lt < last_toggle_window || rt < last_toggle_window {
                return false;
            }
            let time_diff = if lt > rt {
                lt - rt
            } else {
                rt - lt
            };
            time_diff < TOGGLE_WINDOW_MS
        },
        _ => false,
    }
}

/// Law: for any report that shows both surfaces at the origin (released)
/// while the overlay is visible, the detector fires — releasing both
/// thumbs closes the keyboard.  The histories' newest samples carry the
/// report's coordinates.
pub proof fn lemma_release_closes(
    r: SteamDeckDeviceReport,
    left: Seq<TouchEntry>,
    right: Seq<TouchEntry>,
    last_toggle_window: u64,
)
    requires
        r.l_pad_x == 0,
        r.l_pad_y == 0,
        r.r_pad_x == 0,
        r.r_pad_y == 0,
        left.len() > 0,
        right.len() > 0,
        left[left.len() - 1].x == r.l_pad_x,
        left[left.len() - 1].y == r.l_pad_y,
        right[right.len() - 1].x == r.r_pad_x,
        right[right.len() - 1].y == r.r_pad_y,
    ensures
        spec_check_toggle(left, right, last_toggle_window, true),
{
}

/// Law: a report that shows both surfaces at the origin, worked into
/// the histories the way a poll does it — appended, then pruned — makes
/// the detector fire whenever the overlay is visible, whatever the
/// histories held before.
pub proof fn lemma_release_report_always_toggles(
    r: SteamDeckDeviceReport,
    left: Seq<TouchEntry>,
    right: Seq<TouchEntry>,
    last_toggle_window: u64,
    now: u64,
)
    requires
        r.l_pad_x == 0,
        r.l_pad_y == 0,
        r.r_pad_x == 0,
        r.r_pad_y == 0,
    ensures
        ({
            let le = (TouchEntry { x: r.l_pad_x, y: r.l_pad_y, force: r.l_pad_force, time: now });
            let re = (TouchEntry { x: r.r_pad_x, y: r.r_pad_y, force: r.r_pad_force, time: now });
            spec_check_toggle(
                spec_pruned(left.push(le), now),
                spec_pruned(right.push(re), now),
                last_toggle_window,
                true,
            )
        }),
{
    let le = TouchEntry { x: r.l_pad_x, y: r.l_pad_y, force: r.l_pad_force, time: now };
    let re = TouchEntry { x: r.r_pad_x, y: r.r_pad_y, force: r.r_pad_force, time: now };
    lemma_prune_keeps_fresh_last(left, le, now);
    lemma_prune_keeps_fresh_last(right, re, now);
    lemma_release_closes(
        r,
        spec_pruned(left.push(le), now),
        spec_pruned(right.push(re), now),
        last_toggle_window,
    );
}

/// Law: when both touch starts are defined and no earlier than the last
/// toggle, and the closing case does not apply, the verdict is true
/// exactly when the two starts lie within the simultaneity window of
/// each other.
pub proof fn lemma_simultaneous_touch(
    left: Seq<TouchEntry>,
    right: Seq<TouchEntry>,
    last_toggle_window: u64,
    is_visible: bool,
    t1: u64,
    t2: u64,
)
    requires
        left.len() > 0,
        right.len() > 0,
        spec_last_touch_start(left) == Some(t1),
        spec_last_touch_start(right) == Some(t2),
        t1 >= last_toggle_window,
        t2 >= last_toggle_window,
        !(is_visible && !left[left.len() - 1].spec_is_touched() && !right[right.len()
            - 1].spec_is_touched()),
    ensures
        spec_check_toggle(left, right, last_toggle_window, is_visible) == ((if t1 > t2 {
            t1 - t2
        } else {
            t2 - t1
        }) < TOGGLE_WINDOW_MS),
{
}

} // verus!
