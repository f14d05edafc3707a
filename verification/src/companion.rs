//! Companion-process coordination.
//!
//! The vendor's own client handles the same touch hardware and must be
//! paused while the overlay is shown.  The engine tracks its process id,
//! picks it out of the process table by its known executable path, and
//! decides which pause/resume signal to aim at it.  Scanning the table
//! and delivering signals is the caller's job; the decisions live here.

use vstd::prelude::*;

verus! {

/// One process-table entry as handed in by the caller: the numeric id
/// and the executable path it resolves to.
#[derive(Clone, Debug)]
pub struct ProcEntry {
    pub pid: i32,
    pub exe: String,
}

/// One pause/resume action aimed at the companion process.  `resume`
/// true stands for the continue-equivalent signal, false for the
/// stop-equivalent one.
#[derive(Clone, Copy, Debug, PartialEq, Eq, Structural)]
pub struct SteamSignal {
    pub pid: i32,
    pub resume: bool,
}

/// The companion's known absolute install path.
pub open spec fn spec_companion_exe() -> Seq<char> {
    "/home/deck/.local/share/Steam/ubuntu12_32/steam"@
}

/// An entry names the companion exactly when its executable path is the
/// known install path.
pub open spec fn spec_is_companion(e: ProcEntry) -> bool {
    e.exe@ == spec_companion_exe()
}

/// The first process-table entry that resolves to the companion's
/// executable, if any.
pub open spec fn spec_select_companion(s: Seq<ProcEntry>) -> Option<i32>
    decreases s.len(),
{
    if s.len() == 0 {
        None
    } else if spec_is_companion(s[0]) {
        Some(s[0].pid)
    } else {
        spec_select_companion(s.drop_first())
    }
}

/// The companion's known install path, as an owned string for
/// comparisons.
pub fn steam_exe_path() -> (s: String)
    ensures
        s@ == spec_companion_exe(),
{
    "/home/deck/.local/share/Steam/ubuntu12_32/steam".to_owned()
}

/// Pick the companion's pid out of the process table: the first entry
/// whose executable path matches the known install path.
pub fn select_steam_pid(entries: &Vec<ProcEntry>) -> (r: Option<i32>)
    ensures
        r == spec_select_companion(entries@),
{
    let target: String = steam_exe_path();
    let mut idx: usize = 0;
    proof {
        assert(entries@.skip(0) =~= entries@);
    }
    while idx < entries.len()
        invariant
            0 <= idx <= entries@.len(),
            target@ == spec_companion_exe(),
            spec_select_companion(entries@) == spec_select_companion(entries@.skip(idx as int)),
        decreases entries@.len() - idx,
    {
        proof {
            assert(entries@.skip(idx as int)[0] == entries@[idx as int]);
        }
        if entries[idx].exe == target {
            return Some(entries[idx].pid);
        }
        proof {
            assert(entries@.skip(idx as int).drop_first() =~= entries@.skip(idx as int + 1));
        }
        idx = idx + 1;
    }
    proof {
        assert(entries@.skip(idx as int).len() == 0);
    }
    None
}

/// Liveness of a pid is its entry still being present in the process
/// table.  Relies on std::path::Path::exists over the pid's /proc
/// entry; the answer depends on the machine's state at the moment of
/// the call, so nothing is promised of it.
#[verifier::external_body]
pub fn is_pid_alive(pid: i32) -> bool {
    std::path::Path::new(&format!("/proc/{}", pid)).exists()
}

/// The pid tracked after a pause-flag change: a tracked pid that is no
/// longer alive is replaced by a fresh discovery when one exists; an
/// untracked companion stays untracked.
pub open spec fn spec_rediscovered_pid(
    current: Option<i32>,
    current_alive: bool,
    discovered: Option<i32>,
) -> Option<i32> {
    match current {
        Some(_) => if !current_alive && discovered is Some {
            discovered
        } else {
            current
        },
        None => None,
    }
}

/// The signal owed after a pause-flag change: aimed at the tracked pid,
/// pausing the companion exactly while the overlay is visible.
pub open spec fn spec_pause_signal(pid: Option<i32>, is_visible: bool) -> Option<SteamSignal> {
    match pid {
        Some(p) => Some(SteamSignal { pid: p, resume: !is_visible }),
        None => None,
    }
}

/// The pid tracked after a config reload: a fresh discovery wins;
/// otherwise the reload falls back to the pid the configuration
/// carries, if any.
pub open spec fn spec_config_pid(cfg_pid: Option<i32>, discovered: Option<i32>) -> Option<i32> {
    if discovered is Some {
        discovered
    } else {
        cfg_pid
    }
}

/// The resume signal owed to a tracked pid, if one is tracked — sent on
/// shutdown and after a reload so the companion is never left frozen.
pub open spec fn spec_resume_signal(pid: Option<i32>) -> Option<SteamSignal> {
    match pid {
        Some(p) => Some(SteamSignal { pid: p, resume: true }),
        None => None,
    }
}

/// Law: when the tracked pid has died and discovery finds a
/// replacement, the pause-change signal goes to the replacement — never
/// to the stale pid.
pub proof fn lemma_pause_rediscovers(stale: i32, fresh: i32, is_visible: bool)
    ensures
        spec_rediscovered_pid(Some(stale), false, Some(fresh)) == Some(fresh),
        spec_pause_signal(spec_rediscovered_pid(Some(stale), false, Some(fresh)), is_visible)
            == Some(SteamSignal { pid: fresh, resume: !is_visible }),
{
}

} // verus!
