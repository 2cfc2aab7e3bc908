use vstd::prelude::*;
use crate::log::{Event, EventLog, LogEntry};

verus! {

/// After this many readings in a row with the top sensor active and the
/// bottom one not, the top sensor is taken to be stuck.
pub const STUCK_THRESHOLD: u16 = 5000;

/// Counts of consecutive suspicious sensor readings.
pub struct SensorHealth {
    top_stuck_count: u16,
    bottom_stuck_count: u16,
    both_stuck_count: u16,
}

/// The top count after one more reading: one more (held at `u16::MAX`) on a
/// top-only reading, 0 on any other.
pub open spec fn next_top_count(count: u16, top: bool, bottom: bool) -> u16 {
    if top_only_reading(top, bottom) {
        saturating_inc(count)
    } else {
        0
    }
}

/// A top-only reading (top active, bottom not) adds one to the count, held
/// at 65535; every other reading sets it to 0. The stuck threshold is 5000.
pub proof fn lemma_top_count_step(count: u16, top: bool, bottom: bool)
    ensures
        STUCK_THRESHOLD == 5000,
        top && !bottom ==> next_top_count(count, top, bottom) == if count == 65535 {
            65535
        } else {
            count + 1
        },
        !(top && !bottom) ==> next_top_count(count, top, bottom) == 0,
{
}

/// How many readings, `(top, bottom)`, at the end of `readings` are
/// top-only, in a row.
pub open spec fn top_only_run(readings: Seq<(bool, bool)>) -> nat
    decreases readings.len(),
{
    if readings.len() == 0 {
        0
    } else if top_only_reading(readings.last().0, readings.last().1) {
        top_only_run(readings.drop_last()) + 1
    } else {
        0
    }
}

/// The top count after `SensorHealth::check` has taken each of `readings`,
/// in order, starting from `count`.
pub open spec fn top_count_after(count: u16, readings: Seq<(bool, bool)>) -> u16
    decreases readings.len(),
{
    if readings.len() == 0 {
        count
    } else {
        next_top_count(
            top_count_after(count, readings.drop_last()),
            readings.last().0,
            readings.last().1,
        )
    }
}

/// Whether `SensorHealth::check` judges the last of `readings` healthy,
/// when a fresh `SensorHealth` has taken them all in order.
pub open spec fn last_reading_healthy(readings: Seq<(bool, bool)>) -> bool {
    !(top_only_reading(readings.last().0, readings.last().1) && top_count_after(0, readings)
        == STUCK_THRESHOLD)
}

/// From a fresh `SensorHealth`, the top count is the length of the run of
/// top-only readings that ends the history, held at `u16::MAX`; so a
/// reading is judged unhealthy exactly when it is the `STUCK_THRESHOLD`-th
/// of such a run, and any other reading ends the run.
pub proof fn lemma_stuck_reported_once(readings: Seq<(bool, bool)>)
    ensures
        top_count_after(0, readings) == if top_only_run(readings) < u16::MAX {
            top_only_run(readings) as u16
        } else {
            u16::MAX
        },
        readings.len() > 0 ==> (last_reading_healthy(readings) <==> top_only_run(readings)
            != STUCK_THRESHOLD),
    decreases readings.len(),
{
    if readings.len() > 0 {
        lemma_stuck_reported_once(readings.drop_last());
    }
}

/// Whether a reading has the top sensor active and the bottom one not: what
/// the stuck-sensor check counts.
pub open spec fn top_only_reading(top: bool, bottom: bool) -> bool {
    top && !bottom
}

/// `n + 1`, held at `u16::MAX`.
pub open spec fn saturating_inc(n: u16) -> u16 {
    if n == u16::MAX {
        n
    } else {
        (n + 1) as u16
    }
}

impl SensorHealth {
    pub closed spec fn top_count(&self) -> u16 {
        self.top_stuck_count
    }

    pub closed spec fn bottom_count(&self) -> u16 {
        self.bottom_stuck_count
    }

    pub closed spec fn both_count(&self) -> u16 {
        self.both_stuck_count
    }

    pub fn new() -> (r: Self)
        ensures
            r.top_count() == 0,
            r.bottom_count() == 0,
            r.both_count() == 0,
    {
        SensorHealth { top_stuck_count: 0, bottom_stuck_count: 0, both_stuck_count: 0 }
    }

    pub fn top_stuck_count(&self) -> (r: u16)
        ensures
            r == self.top_count(),
    {
        self.top_stuck_count
    }

    pub fn bottom_stuck_count(&self) -> (r: u16)
        ensures
            r == self.bottom_count(),
    {
        self.bottom_stuck_count
    }

    pub fn both_stuck_count(&self) -> (r: u16)
        ensures
            r == self.both_count(),
    {
        self.both_stuck_count
    }

    /// Takes one reading of the two sensors. A reading with the top sensor
    /// active and the bottom one not adds one to the top count (held at
    /// `u16::MAX`); any other reading sets it back to 0. When the count
    /// reaches `STUCK_THRESHOLD` the top sensor is reported stuck: the event
    /// is logged and the reading is unhealthy (`false`). Every other
    /// reading is healthy.
    pub fn check(&mut self, top: bool, bottom: bool, log: &mut EventLog) -> (healthy: bool)
        requires
            old(log).wf(),
        ensures
            final(log).wf(),
            final(self).bottom_count() == old(self).bottom_count(),
            final(self).both_count() == old(self).both_count(),
            final(log).uptime() == old(log).uptime(),
            final(self).top_count() == next_top_count(old(self).top_count(), top, bottom),
            healthy <==> !(top_only_reading(top, bottom) && final(self).top_count() == STUCK_THRESHOLD),
            !healthy <==> (top && !bottom && final(self).top_count() == 5000),
            final(self).top_count() == if top && !bottom {
                if old(self).top_count() == 65535 {
                    65535
                } else {
                    (old(self).top_count() + 1) as u16
                }
            } else {
                0
            },
            healthy ==> final(log).entries() == old(log).entries(),
            !healthy ==> final(log).entries() == old(log).entries().drop_first().push(
                LogEntry { timestamp_ms: old(log).uptime(), event: Event::SensorTopStuck },
            ),
    {
        if top && !bottom {
            self.top_stuck_count = self.top_stuck_count.saturating_add(1);
            if self.top_stuck_count == STUCK_THRESHOLD {
                log.log_event(Event::SensorTopStuck);
                return false;
            }
        } else {
            self.top_stuck_count = 0;
        }
        true
    }
}

} // verus!
