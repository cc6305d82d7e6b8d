//! Liveness accounting: how many times a loop ran in each reporting period.

use vstd::arithmetic::div_mod::{lemma_mod_add_multiples_vanish, lemma_mod_self_0};
use vstd::prelude::*;

verus! {

/// Length of a reporting period, in milliseconds.
pub const RECORD_TICKS_INTERVAL_MS: u64 = 2000;

/// Loop count of one finished period.
#[derive(Clone, Copy, Debug, PartialEq, Eq, Structural)]
pub struct TickReport {
    pub ticks: u32,
    pub period_ms: u64,
}

/// Counts loop iterations and closes a period once its end marker is
/// reached. Times are milliseconds on the caller's session clock.
#[derive(Clone, Copy, Debug, PartialEq, Eq, Structural)]
pub struct TickCounter {
    pub ticks: u32,
    pub prev_marker: u64,
    pub next_marker: u64,
}

/// One more tick, saturating.
pub open spec fn counted(ticks: u32) -> u32 {
    if ticks < u32::MAX {
        (ticks + 1) as u32
    } else {
        u32::MAX
    }
}

impl TickCounter {
    /// The period started at `prev_marker` ends no earlier than it began.
    pub open spec fn wf(&self) -> bool {
        self.prev_marker <= self.next_marker
    }

    /// A counter whose first period starts at `now`.
    pub fn new(now: u64) -> (r: Self)
        requires
            now <= u64::MAX - RECORD_TICKS_INTERVAL_MS,
        ensures
            r.wf(),
            r.ticks == 0,
            r.prev_marker == now,
            r.next_marker == now + RECORD_TICKS_INTERVAL_MS,
    {
        TickCounter { ticks: 0, prev_marker: now, next_marker: now + RECORD_TICKS_INTERVAL_MS }
    }

    /// Counts one loop iteration at time `now`. Where the period's end marker
    /// is reached, reports the count and the time since the period began,
    /// starts the next period at the old end marker, and moves the end marker
    /// forward by whole periods to the first one after `now`.
    pub fn advance_ticks(&mut self, now: u64) -> (r: Option<TickReport>)
        requires
            old(self).wf(),
            now <= u64::MAX - RECORD_TICKS_INTERVAL_MS,
        ensures
            final(self).wf(),
            now < old(self).next_marker ==> r is None && *final(self) == (TickCounter {
                ticks: counted(old(self).ticks),
                ..*old(self)
            }),
            now >= old(self).next_marker ==> {
                &&& r == Some(
                    TickReport {
                        ticks: counted(old(self).ticks),
                        period_ms: (now - old(self).prev_marker) as u64,
                    },
                )
                &&& final(self).ticks == 0
                &&& final(self).prev_marker == old(self).next_marker
                &&& now < final(self).next_marker <= now + RECORD_TICKS_INTERVAL_MS
                &&& (final(self).next_marker - old(self).next_marker)
                    % (RECORD_TICKS_INTERVAL_MS as int) == 0
            },
    {
        let ticks = self.ticks.saturating_add(1);
        if now < self.next_marker {
            self.ticks = ticks;
            return None;
        }
        let report = TickReport { ticks, period_ms: now - self.prev_marker };
        let start = self.next_marker;
        let mut next = start;
        proof {
            lemma_mod_self_0(RECORD_TICKS_INTERVAL_MS as int);
            assert((0int) % (RECORD_TICKS_INTERVAL_MS as int) == 0);
        }
        while next <= now
            invariant
                start <= next,
                next <= now + RECORD_TICKS_INTERVAL_MS,
                now <= u64::MAX - RECORD_TICKS_INTERVAL_MS,
                (next - start) % (RECORD_TICKS_INTERVAL_MS as int) == 0,
            decreases now + RECORD_TICKS_INTERVAL_MS - next,
        {
            proof {
                lemma_mod_add_multiples_vanish(next - start, RECORD_TICKS_INTERVAL_MS as int);
            }
            next = next + RECORD_TICKS_INTERVAL_MS;
        }
        self.ticks = 0;
        self.prev_marker = start;
        self.next_marker = next;
        Some(report)
    }
}

} // verus!
