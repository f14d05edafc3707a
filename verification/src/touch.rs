//! Time-windowed touch history, one per touch surface.
//!
//! A history is an ordered-by-time log of samples.  Every poll appends
//! the newest sample and evicts stale samples from the front, so that no
//! member's age exceeds the two-second working window.  The gesture
//! detector reads a history only to locate the start of the current
//! contiguous touch.

use crate::HISTORY_WINDOW_MS;
use std::collections::VecDeque;
use vstd::prelude::*;

verus! {

/// One sample of one touch surface: coordinates, force, and the engine
/// clock (milliseconds) at which it was read.
#[derive(Clone, Copy, Debug, PartialEq, Eq, Structural)]
pub struct TouchEntry {
    pub x: i16,
    pub y: i16,
    pub force: u16,
    pub time: u64,
}

impl TouchEntry {
    /// A surface counts as touched while either coordinate is nonzero;
    /// the force reading is informational only.
    pub open spec fn spec_is_touched(&self) -> bool {
        self.x != 0 || self.y != 0
    }

    #[verifier::when_used_as_spec(spec_is_touched)]
    pub fn is_touched(&self) -> (r: bool)
        ensures
            r == self.spec_is_touched(),
    {
        self.x != 0 || self.y != 0
    }
}

/// Sample times never decrease along a history.
pub open spec fn times_sorted(s: Seq<TouchEntry>) -> bool {
    forall|i: int, j: int| 0 <= i <= j < s.len() ==> s[i].time <= s[j].time
}

/// No sample in the history is stamped later than `t`.
pub open spec fn times_at_most(s: Seq<TouchEntry>, t: u64) -> bool {
    forall|i: int| 0 <= i < s.len() ==> s[i].time <= t
}

/// What remains of a history once samples older than the working window
/// have been evicted from the front, strictly first-in-first-out.
pub open spec fn spec_pruned(s: Seq<TouchEntry>, now: u64) -> Seq<TouchEntry>
    decreases s.len(),
{
    if s.len() == 0 {
        s
    } else if now - s[0].time > HISTORY_WINDOW_MS {
        spec_pruned(s.drop_first(), now)
    } else {
        s
    }
}

/// Evict stale samples from the front of a history.  Afterwards every
/// remaining sample has age at most the working window relative to `now`.
pub fn prune_touch_history(h: &mut VecDeque<TouchEntry>, now: u64)
    requires
        times_sorted(old(h)@),
        times_at_most(old(h)@, now),
    ensures
        final(h)@ == spec_pruned(old(h)@, now),
        times_sorted(final(h)@),
        times_at_most(final(h)@, now),
        forall|i: int|
            0 <= i < final(h)@.len() ==> now - final(h)@[i].time <= HISTORY_WINDOW_MS,
{
    while h.len() > 0 && now - h[0].time > HISTORY_WINDOW_MS
        invariant
            times_sorted(h@),
            times_at_most(h@, now),
            spec_pruned(h@, now) == spec_pruned(old(h)@, now),
        decreases h@.len(),
    {
        proof {
            assert(spec_pruned(h@, now) == spec_pruned(h@.drop_first(), now));
        }
        h.pop_front();
    }
    proof {
        assert(spec_pruned(h@, now) == h@);
        assert forall|i: int|
            0 <= i < h@.len() implies now - h@[i].time <= HISTORY_WINDOW_MS by {
            assert(h@[0].time <= h@[i].time);
        }
    }
}

/// Appending a sample no older than everything already logged keeps a
/// history ordered, and the new sample's time bounds the whole log.
pub proof fn lemma_push_keeps_order(s: Seq<TouchEntry>, e: TouchEntry, bound: u64)
    requires
        times_sorted(s),
        times_at_most(s, bound),
        bound <= e.time,
    ensures
        times_sorted(s.push(e)),
        times_at_most(s.push(e), e.time),
{
    assert forall|i: int, j: int|
        0 <= i <= j < s.push(e).len() implies s.push(e)[i].time <= s.push(e)[j].time by {
        if j < s.len() {
            assert(s.push(e)[i] == s[i]);
            assert(s.push(e)[j] == s[j]);
        } else if i < s.len() {
            assert(s.push(e)[i] == s[i]);
        }
    }
    assert forall|i: int| 0 <= i < s.push(e).len() implies s.push(e)[i].time <= e.time by {
        if i < s.len() {
            assert(s.push(e)[i] == s[i]);
        }
    }
}

/// Eviction only ever drops from the front: a newly appended sample
/// that is still inside the working window survives it, and stays the
/// newest member.
pub proof fn lemma_prune_keeps_fresh_last(s: Seq<TouchEntry>, e: TouchEntry, now: u64)
    requires
        now - e.time <= HISTORY_WINDOW_MS,
    ensures
        spec_pruned(s.push(e), now).len() >= 1,
        spec_pruned(s.push(e), now).last() == e,
    decreases s.len(),
{
    if s.len() == 0 {
        assert(s.push(e)[0] == e);
    } else if now - s.push(e)[0].time > HISTORY_WINDOW_MS {
        assert(s.push(e).drop_first() =~= s.drop_first().push(e));
        lemma_prune_keeps_fresh_last(s.drop_first(), e, now);
    } else {
        assert(s.push(e).last() == e);
    }
}

/// The start time of the most recent contiguous touch: the timestamp of
/// the sample just after the latest untouched-to-touched transition,
/// walking from the newest sample backwards.  Undefined when no such
/// transition remains in the window (for instance a touch held longer
/// than the window itself).
pub open spec fn spec_last_touch_start(s: Seq<TouchEntry>) -> Option<u64>
    decreases s.len(),
{
    if s.len() < 2 {
        None
    } else if s[s.len() - 1].spec_is_touched() && !s[s.len() - 2].spec_is_touched() {
        Some(s[s.len() - 1].time)
    } else {
        spec_last_touch_start(s.drop_last())
    }
}

/// Locate the start time of the current touch in a history, scanning
/// newest to oldest for the most recent untouched-to-touched transition.
pub fn get_last_touch_start_time(touch_history: &VecDeque<TouchEntry>) -> (r: Option<u64>)
    ensures
        r == spec_last_touch_start(touch_history@),
{
    let n = touch_history.len();
    if n == 0 {
        return None;
    }
    let mut i: usize = n - 1;
    proof {
        assert(touch_history@.take(n as int) =~= touch_history@);
    }
    while i >= 1
        invariant
            n == touch_history@.len(),
            0 <= i < n,
            spec_last_touch_start(touch_history@) == spec_last_touch_start(
                touch_history@.take(i + 1),
            ),
        decreases i,
    {
        let curr = touch_history[i];
        let prev = touch_history[i - 1];
        proof {
            let t = touch_history@.take(i + 1);
            assert(t.len() == i + 1);
            assert(t[i as int] == touch_history@[i as int]);
            assert(t[i - 1] == touch_history@[i - 1]);
        }
        if curr.is_touched() && !prev.is_touched() {
            return Some(curr.time);
        }
        proof {
            let t = touch_history@.take(i + 1);
            assert(t.drop_last() =~= touch_history@.take(i as int));
        }
        i = i - 1;
    }
    proof {
        assert(touch_history@.take(1).len() < 2);
    }
    None
}

} // verus!
