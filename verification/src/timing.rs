//! Which gaps between render schedules are slow enough to report.
//!
//! Times are nanoseconds on a monotonic clock; a time earlier than the one
//! it is compared with counts as no time at all, as the standard clock's
//! `duration_since` does.
use vstd::prelude::*;

verus! {

/// Gaps of at least this many nanoseconds (16 ms) are reported.
pub const SLOW_GAP_NANOS: u64 = 16000000u64;

/// The marker of the first schedule of a frame.
pub const FIRST_MARKER: &'static str = "First";

/// A slow gap between two markers.
#[derive(Debug, Clone, Copy)]
pub struct SlowGap {
    pub from: &'static str,
    pub to: &'static str,
    pub elapsed_nanos: u64,
}

/// The time from `earlier` to `now`, or none where `now` is earlier.
pub open spec fn elapsed(now: u64, earlier: u64) -> u64 {
    if now >= earlier {
        (now - earlier) as u64
    } else {
        0
    }
}

fn elapsed_since(now: u64, earlier: u64) -> (e: u64)
    ensures
        e == elapsed(now, earlier),
{
    if now >= earlier {
        now - earlier
    } else {
        0
    }
}

/// The gap since the previous marker, where there is one and it is slow.
pub open spec fn marker_gap(
    last_marker: Option<(u64, &'static str)>,
    marker: &'static str,
    now: u64,
) -> Option<SlowGap> {
    match last_marker {
        Some((last, from)) => if elapsed(now, last) >= SLOW_GAP_NANOS {
            Some(SlowGap { from, to: marker, elapsed_nanos: elapsed(now, last) })
        } else {
            None
        },
        None => None,
    }
}

fn slow_marker_gap(last_marker: Option<(u64, &'static str)>, marker: &'static str, now: u64) -> (g:
    Option<SlowGap>)
    ensures
        g == marker_gap(last_marker, marker, now),
{
    match last_marker {
        Some((last, from)) => {
            let e = elapsed_since(now, last);
            if e >= SLOW_GAP_NANOS {
                Some(SlowGap { from, to: marker, elapsed_nanos: e })
            } else {
                None
            }
        },
        None => None,
    }
}

/// Timing of the main render schedules of one render process.
pub struct RenderScheduleTiming {
    pub rank: u32,
    pub last_first: Option<u64>,
    pub last_marker: Option<(u64, &'static str)>,
}

impl RenderScheduleTiming {
    pub fn new(rank: u32) -> (t: Self)
        ensures
            t.rank == rank,
            t.last_first is None,
            t.last_marker is None,
    {
        RenderScheduleTiming { rank, last_first: None, last_marker: None }
    }

    /// Mark that schedule `marker` ran at `now`.  Gives back the slow gap
    /// since the previous `First`, where this is `First`, and the slow gap
    /// since the previous marker.
    pub fn mark(&mut self, marker: &'static str, now: u64) -> (r: (Option<u64>, Option<SlowGap>))
        ensures
            r.0 == (if marker@ == FIRST_MARKER@ {
                match old(self).last_first {
                    Some(f) => if elapsed(now, f) >= SLOW_GAP_NANOS {
                        Some(elapsed(now, f))
                    } else {
                        None
                    },
                    None => None,
                }
            } else {
                None
            }),
            r.1 == marker_gap(old(self).last_marker, marker, now),
            final(self).last_first == (if marker@ == FIRST_MARKER@ {
                Some(now)
            } else {
                old(self).last_first
            }),
            final(self).last_marker == Some((now, marker)),
            final(self).rank == old(self).rank,
    {
        let mut first_gap: Option<u64> = None;
        if marker.to_owned() == FIRST_MARKER.to_owned() {
            match self.last_first {
                Some(f) => {
                    let e = elapsed_since(now, f);
                    if e >= SLOW_GAP_NANOS {
                        first_gap = Some(e);
                    }
                },
                None => {},
            }
            self.last_first = Some(now);
        }
        let gap = slow_marker_gap(self.last_marker, marker, now);
        self.last_marker = Some((now, marker));
        (first_gap, gap)
    }
}

/// Timing of the render sub-app's schedules of one render process.
pub struct RenderSubAppTiming {
    pub rank: u32,
    pub pid: u32,
    pub last_marker: Option<(u64, &'static str)>,
}

impl RenderSubAppTiming {
    pub fn new(rank: u32, pid: u32) -> (t: Self)
        ensures
            t.rank == rank,
            t.pid == pid,
            t.last_marker is None,
    {
        RenderSubAppTiming { rank, pid, last_marker: None }
    }

    /// Mark that schedule `marker` ran at `now`; gives back the slow gap
    /// since the previous marker.
    pub fn mark(&mut self, marker: &'static str, now: u64) -> (g: Option<SlowGap>)
        ensures
            g == marker_gap(old(self).last_marker, marker, now),
            final(self).last_marker == Some((now, marker)),
            final(self).rank == old(self).rank,
            final(self).pid == old(self).pid,
    {
        let gap = slow_marker_gap(self.last_marker, marker, now);
        self.last_marker = Some((now, marker));
        gap
    }
}

/// Only slow gaps are reported: every reported gap is at least the
/// threshold, and spans from the previous marker to this one.
pub proof fn lemma_reported_gaps_are_slow(
    last_marker: Option<(u64, &'static str)>,
    marker: &'static str,
    now: u64,
)
    ensures
        marker_gap(last_marker, marker, now) matches Some(g) ==> (g.elapsed_nanos
            >= SLOW_GAP_NANOS && g.to == marker && (last_marker matches Some((t, from)) && g.from
            == from && g.elapsed_nanos == elapsed(now, t))),
{
}

} // verus!
