//! The engine state and its step functions.
//!
//! A single owner holds this state for the process lifetime.  Each
//! iteration of the surrounding loop services at most one pending
//! command per channel — stop, pause, config, haptic — then one device
//! read; the step functions here make every decision, and hand back the
//! actions (signals to send, a window toggle, a report to emit) for the
//! caller to perform.

use crate::HISTORY_WINDOW_MS;
use crate::companion::{
    SteamSignal, spec_config_pid, spec_pause_signal, spec_rediscovered_pid, spec_resume_signal,
};
use crate::config::Config;
use crate::deadzone::{should_emit, spec_should_emit};
use crate::gesture::{check_keyboard_toggle, spec_check_toggle};
use crate::report::{
    DecodeError, REPORT_LEN, SteamDeckDeviceReport, decode_report, spec_decode,
};
use crate::touch::{
    TouchEntry, lemma_push_keeps_order, prune_touch_history, spec_pruned, times_at_most,
    times_sorted,
};
use std::collections::VecDeque;
use vstd::prelude::*;

verus! {

/// Default deadzone distance threshold, already squared (500 units).
pub const DEFAULT_DEADZONE_DIST_SQUARE: u64 = 250000;

/// Default deadzone pressure threshold.
pub const DEFAULT_DEADZONE_PRESSURE: u16 = 500;

/// While paused, a read landing within this many milliseconds of the
/// previous processed read is skipped wholesale.
pub const PAUSED_READ_INTERVAL_MS: u64 = 50;

/// What one processed report asks the caller to do.
#[derive(Clone, Copy, Debug, PartialEq, Eq)]
pub struct PollActions {
    /// The gesture fired: toggle the overlay window, then report the
    /// resulting visibility back through `set_visibility`.
    pub toggle_window: bool,
    /// Forward this report to the presentation layer.  The baseline has
    /// already been replaced with it.
    pub emit: Option<SteamDeckDeviceReport>,
}

/// Outcome of feeding one read's bytes to the engine.
#[derive(Clone, Copy, Debug, PartialEq, Eq)]
pub enum PollStep {
    /// Paused, and the previous processed read was too recent: nothing
    /// changed, nothing to do.
    Skipped,
    /// The report was processed.
    Processed(PollActions),
}

/// The whole engine state: both touch histories, the toggle state, the
/// deadzone thresholds, the emission baseline, the pause flag and the
/// current configuration.  Times are milliseconds on the caller's
/// monotonic clock.
pub struct SteamdeckPlugin {
    pub config: Config,
    pub left_touch_history: VecDeque<TouchEntry>,
    pub right_touch_history: VecDeque<TouchEntry>,
    pub deadzone_dist_square: u64,
    pub deadzone_pressure: u16,
    pub last_toggle_window: u64,
    pub pause: bool,
    pub is_visible: bool,
    pub last_read: u64,
    pub last_emitted_report: SteamDeckDeviceReport,
}

impl SteamdeckPlugin {
    /// Well-formed engine state: each history is ordered by time and no
    /// sample postdates the last processed read.
    pub open spec fn wf(&self) -> bool {
        &&& times_sorted(self.left_touch_history@)
        &&& times_sorted(self.right_touch_history@)
        &&& times_at_most(self.left_touch_history@, self.last_read)
        &&& times_at_most(self.right_touch_history@, self.last_read)
    }

    /// Start the engine at clock `now` with the companion pid the first
    /// process-table scan found, if any.  The overlay starts visible,
    /// unpaused, with default thresholds, empty histories, and an
    /// off-pad baseline; the companion, if tracked, is owed a resume
    /// signal so it starts running.
    pub fn new(initial_pid: Option<i32>, now: u64) -> (r: (SteamdeckPlugin, Option<SteamSignal>))
        ensures
            r.0.wf(),
            r.0.config.steam_pid == initial_pid,
            r.0.config.deadzone_dist is None,
            r.0.config.deadzone_pressure is None,
            r.0.left_touch_history@ == Seq::<TouchEntry>::empty(),
            r.0.right_touch_history@ == Seq::<TouchEntry>::empty(),
            r.0.deadzone_dist_square == DEFAULT_DEADZONE_DIST_SQUARE,
            r.0.deadzone_pressure == DEFAULT_DEADZONE_PRESSURE,
            r.0.last_toggle_window == now,
            r.0.pause == false,
            r.0.is_visible == true,
            r.0.last_read == now,
            r.0.last_emitted_report == (SteamDeckDeviceReport {
                l_pad_x: -100i16,
                l_pad_y: -100i16,
                l_pad_force: 0,
                r_pad_x: -100i16,
                r_pad_y: -100i16,
                r_pad_force: 0,
                l4: false,
            }),
            r.1 == spec_resume_signal(initial_pid),
    {
        let mut config = Config::new();
        config.steam_pid = initial_pid;
        let sig = match initial_pid {
            Some(p) => Some(SteamSignal { pid: p, resume: true }),
            None => None,
        };
        let plugin = SteamdeckPlugin {
            config,
            left_touch_history: VecDeque::new(),
            right_touch_history: VecDeque::new(),
            deadzone_dist_square: DEFAULT_DEADZONE_DIST_SQUARE,
            deadzone_pressure: DEFAULT_DEADZONE_PRESSURE,
            last_toggle_window: now,
            pause: false,
            is_visible: true,
            last_read: now,
            last_emitted_report: SteamDeckDeviceReport {
                l_pad_x: -100,
                l_pad_y: -100,
                l_pad_force: 0,
                r_pad_x: -100,
                r_pad_y: -100,
                r_pad_force: 0,
                l4: false,
            },
        };
        (plugin, sig)
    }

    /// Service a stop command: the signal owed to the tracked companion
    /// before the process exits, so the companion is never left frozen.
    pub fn handle_stop(&self) -> (sig: Option<SteamSignal>)
        ensures
            sig == spec_resume_signal(self.config.steam_pid),
    {
        match self.config.steam_pid {
            Some(p) => Some(SteamSignal { pid: p, resume: true }),
            None => None,
        }
    }

    /// Service a pause command: record the flag; replace a tracked pid
    /// that is no longer alive with the fresh discovery; hand back the
    /// signal matching current visibility.  `current_alive` reports
    /// whether the tracked pid still lives, `discovered` what a fresh
    /// process-table scan found.
    pub fn handle_pause(
        &mut self,
        pause: bool,
        current_alive: bool,
        discovered: Option<i32>,
    ) -> (sig: Option<SteamSignal>)
        ensures
            final(self).pause == pause,
            final(self).config.steam_pid == spec_rediscovered_pid(
                old(self).config.steam_pid,
                current_alive,
                discovered,
            ),
            sig == spec_pause_signal(final(self).config.steam_pid, old(self).is_visible),
            final(self).config.deadzone_dist == old(self).config.deadzone_dist,
            final(self).config.deadzone_pressure == old(self).config.deadzone_pressure,
            final(self).left_touch_history@ == old(self).left_touch_history@,
            final(self).right_touch_history@ == old(self).right_touch_history@,
            final(self).deadzone_dist_square == old(self).deadzone_dist_square,
            final(self).deadzone_pressure == old(self).deadzone_pressure,
            final(self).last_toggle_window == old(self).last_toggle_window,
            final(self).is_visible == old(self).is_visible,
            final(self).last_read == old(self).last_read,
            final(self).last_emitted_report == old(self).last_emitted_report,
    {
        self.pause = pause;
        if self.config.steam_pid.is_some() && !current_alive {
            match discovered {
                Some(d) => {
                    self.config.steam_pid = Some(d);
                },
                None => {},
            }
        }
        match self.config.steam_pid {
            Some(p) => Some(SteamSignal { pid: p, resume: !self.is_visible }),
            None => None,
        }
    }

    /// Service a config reload: adopt the new value wholesale, but
    /// recompute a threshold only from a field the new value actually
    /// carries; resolve the companion pid — fresh discovery first, the
    /// pid the new value carries as fallback — and hand back the resume
    /// signal owed to the resolved pid, so state stays consistent after
    /// any gap.
    pub fn handle_config(&mut self, cfg: Config, discovered: Option<i32>) -> (sig: Option<
        SteamSignal,
    >)
        ensures
            final(self).config.deadzone_dist == cfg.deadzone_dist,
            final(self).config.deadzone_pressure == cfg.deadzone_pressure,
            final(self).config.steam_pid == spec_config_pid(cfg.steam_pid, discovered),
            final(self).deadzone_dist_square == (match cfg.deadzone_dist {
                Some(d) => d * d,
                None => old(self).deadzone_dist_square as int,
            }),
            final(self).deadzone_pressure == (match cfg.deadzone_pressure {
                Some(p) => p,
                None => old(self).deadzone_pressure,
            }),
            sig == spec_resume_signal(final(self).config.steam_pid),
            final(self).pause == old(self).pause,
            final(self).is_visible == old(self).is_visible,
            final(self).left_touch_history@ == old(self).left_touch_history@,
            final(self).right_touch_history@ == old(self).right_touch_history@,
            final(self).last_toggle_window == old(self).last_toggle_window,
            final(self).last_read == old(self).last_read,
            final(self).last_emitted_report == old(self).last_emitted_report,
    {
        self.config = cfg;
        match cfg.deadzone_dist {
            Some(d) => {
                proof {
                    assert((d as u64) * (d as u64) <= 0xFFFF_FFFFu64 * 0xFFFF_FFFFu64)
                        by (nonlinear_arith)
                        requires
                            d <= 0xFFFF_FFFFu64,
                    ;
                }
                self.deadzone_dist_square = (d as u64) * (d as u64);
            },
            None => {},
        }
        match cfg.deadzone_pressure {
            Some(p) => {
                self.deadzone_pressure = p;
            },
            None => {},
        }
        let resolved = match discovered {
            Some(d) => Some(d),
            None => cfg.steam_pid,
        };
        self.config.steam_pid = resolved;
        match resolved {
            Some(p) => Some(SteamSignal { pid: p, resume: true }),
            None => None,
        }
    }

    /// Record the visibility the window controller reported back after
    /// the toggle a processed report asked for.
    pub fn set_visibility(&mut self, visible: bool)
        ensures
            final(self).is_visible == visible,
            final(self).config == old(self).config,
            final(self).pause == old(self).pause,
            final(self).left_touch_history@ == old(self).left_touch_history@,
            final(self).right_touch_history@ == old(self).right_touch_history@,
            final(self).deadzone_dist_square == old(self).deadzone_dist_square,
            final(self).deadzone_pressure == old(self).deadzone_pressure,
            final(self).last_toggle_window == old(self).last_toggle_window,
            final(self).last_read == old(self).last_read,
            final(self).last_emitted_report == old(self).last_emitted_report,
    {
        self.is_visible = visible;
    }

    /// Feed the engine the bytes of one successful device read at clock
    /// `now`.  A buffer of the wrong size is discarded and nothing
    /// changes.  While paused, a read within `PAUSED_READ_INTERVAL_MS`
    /// of the previous processed read is skipped wholesale.  Otherwise
    /// the decoded samples join both histories, samples older than the
    /// working window leave from the front, the gesture verdict decides
    /// whether the overlay toggles (stamping the toggle time), and —
    /// unless paused — the deadzone filter decides whether the report
    /// is emitted, replacing the baseline when it is.
    pub fn handle_report(&mut self, raw: &[u8], now: u64) -> (r: Result<PollStep, DecodeError>)
        requires
            old(self).wf(),
            now >= old(self).last_read,
        ensures
            final(self).wf(),
            raw@.len() != REPORT_LEN ==> r == Err::<PollStep, DecodeError>(
                DecodeError::MalformedReport,
            ) && *final(self) == *old(self),
            raw@.len() == REPORT_LEN && old(self).pause && now - old(self).last_read
                < PAUSED_READ_INTERVAL_MS ==> r == Ok::<PollStep, DecodeError>(PollStep::Skipped)
                && *final(self) == *old(self),
            raw@.len() == REPORT_LEN && !(old(self).pause && now - old(self).last_read
                < PAUSED_READ_INTERVAL_MS) ==> ({
                let report = spec_decode(raw@);
                let left1 = spec_pruned(
                    old(self).left_touch_history@.push(
                        (TouchEntry {
                            x: report.l_pad_x,
                            y: report.l_pad_y,
                            force: report.l_pad_force,
                            time: now,
                        }),
                    ),
                    now,
                );
                let right1 = spec_pruned(
                    old(self).right_touch_history@.push(
                        (TouchEntry {
                            x: report.r_pad_x,
                            y: report.r_pad_y,
                            force: report.r_pad_force,
                            time: now,
                        }),
                    ),
                    now,
                );
                let toggled = spec_check_toggle(
                    left1,
                    right1,
                    old(self).last_toggle_window,
                    old(self).is_visible,
                );
                let emitted = !old(self).pause && spec_should_emit(
                    old(self).last_emitted_report,
                    report,
                    old(self).deadzone_dist_square,
                    old(self).deadzone_pressure,
                );
                &&& final(self).left_touch_history@ == left1
                &&& final(self).right_touch_history@ == right1
                &&& final(self).last_read == now
                &&& final(self).last_toggle_window == (if toggled {
                    now
                } else {
                    old(self).last_toggle_window
                })
                &&& final(self).last_emitted_report == (if emitted {
                    report
                } else {
                    old(self).last_emitted_report
                })
                &&& final(self).pause == old(self).pause
                &&& final(self).is_visible == old(self).is_visible
                &&& final(self).config == old(self).config
                &&& final(self).deadzone_dist_square == old(self).deadzone_dist_square
                &&& final(self).deadzone_pressure == old(self).deadzone_pressure
                &&& r == Ok::<PollStep, DecodeError>(PollStep::Processed(
                    (PollActions {
                        toggle_window: toggled,
                        emit: if emitted {
                            Some(report)
                        } else {
                            None
                        },
                    }),
                ))
                &&& forall|i: int| 0 <= i < left1.len() ==> now - left1[i].time
                    <= HISTORY_WINDOW_MS
                &&& forall|i: int| 0 <= i < right1.len() ==> now - right1[i].time
                    <= HISTORY_WINDOW_MS
            }),
    {
        let report = match decode_report(raw) {
            Ok(rep) => rep,
            Err(e) => {
                return Err(e);
            },
        };
        if self.pause && now - self.last_read < PAUSED_READ_INTERVAL_MS {
            return Ok(PollStep::Skipped);
        }
        self.last_read = now;
        let left_entry = TouchEntry {
            x: report.l_pad_x,
            y: report.l_pad_y,
            force: report.l_pad_force,
            time: now,
        };
        let right_entry = TouchEntry {
            x: report.r_pad_x,
            y: report.r_pad_y,
            force: report.r_pad_force,
            time: now,
        };
        proof {
            lemma_push_keeps_order(self.left_touch_history@, left_entry, old(self).last_read);
            lemma_push_keeps_order(self.right_touch_history@, right_entry, old(self).last_read);
        }
        self.left_touch_history.push_back(left_entry);
        self.right_touch_history.push_back(right_entry);
        prune_touch_history(&mut self.left_touch_history, now);
        prune_touch_history(&mut self.right_touch_history, now);
        let toggled = check_keyboard_toggle(
            &self.left_touch_history,
            &self.right_touch_history,
            self.last_toggle_window,
            self.is_visible,
        );
        if toggled {
            self.last_toggle_window = now;
        }
        let mut emit: Option<SteamDeckDeviceReport> = None;
        if !self.pause {
            if should_emit(
                &self.last_emitted_report,
                &report,
                self.deadzone_dist_square,
                self.deadzone_pressure,
            ) {
                self.last_emitted_report = report;
                emit = Some(report);
            }
        }
        Ok(PollStep::Processed(PollActions { toggle_window: toggled, emit }))
    }
}

} // verus!
