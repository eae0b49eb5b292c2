//! Bounded window of timestamped readings and the cooling-rate estimate.

use vstd::prelude::*;

use crate::threshold::ThresholdTracker;

verus! {

/// A tick is worth sampling when the water is still above the threshold
/// but actively cooling: the current reading exceeds the threshold and is
/// strictly below the previous one.
pub open spec fn sampling_eligible(t: ThresholdTracker) -> bool {
    t.current > t.threshold && t.current < t.previous
}

/// Exec mirror of [`sampling_eligible`].
pub fn should_collect_for_sampling(tracker: &ThresholdTracker) -> (r: bool)
    ensures
        r == sampling_eligible(*tracker),
{
    tracker.current > tracker.threshold && tracker.current < tracker.previous
}

/// The exact cooling rate between the first and last window entries:
/// `delta_millidegrees` millidegrees over `elapsed_seconds` seconds
/// (negative delta while cooling).  Kept as a ratio so that no precision
/// is lost; `elapsed_seconds` is always at least one.
pub struct CoolingRate {
    /// Last reading minus first reading, millidegrees Celsius.
    pub delta_millidegrees: i64,
    /// Seconds between the first and last entries.
    pub elapsed_seconds: u64,
}

/// Bounded, append-only window of `(unix seconds, millidegrees)` pairs,
/// filled only on eligible ticks and flushed as a whole.
///
/// Append stops once the window holds `capacity` entries, and readiness
/// asks for at least `capacity` entries: the two guards use the same
/// boundary, so a window that has filled up is exactly a ready one.
pub struct SamplingWindow {
    /// The collected `(timestamp, reading)` pairs, in arrival order.
    pub entries: Vec<(i64, i32)>,
    /// Upper bound on the number of entries; at least one.
    pub capacity: usize,
}

impl SamplingWindow {
    /// Validity: the configured bound is positive and is never exceeded.
    pub open spec fn inv(self) -> bool {
        &&& self.capacity >= 1
        &&& self.entries@.len() <= self.capacity
    }

    /// What one tick does to the contents: append when the tick is
    /// eligible and there is room, otherwise leave them alone.
    pub open spec fn spec_collect_step(
        entries: Seq<(i64, i32)>,
        capacity: nat,
        t: ThresholdTracker,
        now: i64,
    ) -> Seq<(i64, i32)> {
        if sampling_eligible(t) && entries.len() < capacity {
            entries.push((now, t.current))
        } else {
            entries
        }
    }

    /// The contents after a whole sequence of ticks, each a tracker state
    /// paired with the time of the tick.
    pub open spec fn spec_collect_all(
        entries: Seq<(i64, i32)>,
        capacity: nat,
        ticks: Seq<(ThresholdTracker, i64)>,
    ) -> Seq<(i64, i32)>
        decreases ticks.len(),
    {
        if ticks.len() == 0 {
            entries
        } else {
            Self::spec_collect_all(
                Self::spec_collect_step(entries, capacity, ticks[0].0, ticks[0].1),
                capacity,
                ticks.drop_first(),
            )
        }
    }

    /// Readiness: an eligible tick is at hand and the window has filled
    /// to its capacity.
    pub open spec fn spec_is_ready(self, t: ThresholdTracker) -> bool {
        sampling_eligible(t) && self.entries@.len() >= self.capacity
    }

    /// An empty window with the given bound.
    pub fn new(capacity: usize) -> (w: SamplingWindow)
        requires
            capacity >= 1,
        ensures
            w.entries@ == Seq::<(i64, i32)>::empty(),
            w.capacity == capacity,
            w.inv(),
    {
        SamplingWindow { entries: Vec::new(), capacity }
    }

    /// Number of entries currently held.
    pub fn len(&self) -> (n: usize)
        ensures
            n == self.entries@.len(),
    {
        self.entries.len()
    }

    /// Append `(now, current reading)` when the tick is eligible and the
    /// window still has room; otherwise do nothing.
    pub fn maybe_collect(&mut self, tracker: &ThresholdTracker, now: i64)
        requires
            old(self).inv(),
        ensures
            final(self).entries@ == Self::spec_collect_step(
                old(self).entries@,
                old(self).capacity as nat,
                *tracker,
                now,
            ),
            final(self).capacity == old(self).capacity,
            final(self).inv(),
    {
        if should_collect_for_sampling(tracker) && self.entries.len() < self.capacity {
            self.entries.push((now, tracker.current));
        }
    }

    /// Exec mirror of [`SamplingWindow::spec_is_ready`].
    pub fn is_ready(&self, tracker: &ThresholdTracker) -> (r: bool)
        ensures
            r == self.spec_is_ready(*tracker),
    {
        should_collect_for_sampling(tracker) && self.entries.len() >= self.capacity
    }

    /// Drop every entry; the bound is kept.
    pub fn flush(&mut self)
        requires
            old(self).inv(),
        ensures
            final(self).entries@ == Seq::<(i64, i32)>::empty(),
            final(self).capacity == old(self).capacity,
            final(self).inv(),
    {
        self.entries.clear();
    }

    /// The cooling rate between the first and last entries, or `None`
    /// when fewer than two entries exist or no time passed between them
    /// (which would divide by zero).
    pub fn get_cooling_rate_per_sec(&self) -> (r: Option<CoolingRate>)
        ensures
            r is Some <==> self.entries@.len() >= 2 && self.entries@.last().0
                > self.entries@.first().0,
            r matches Some(rate) ==> {
                &&& rate.delta_millidegrees == self.entries@.last().1 - self.entries@.first().1
                &&& rate.elapsed_seconds == self.entries@.last().0 - self.entries@.first().0
                &&& rate.elapsed_seconds >= 1
            },
    {
        if self.entries.len() < 2 {
            return None;
        }
        let first: (i64, i32) = self.entries[0];
        let last: (i64, i32) = self.entries[self.entries.len() - 1];
        if last.0 <= first.0 {
            return None;
        }
        let delta: i64 = last.1 as i64 - first.1 as i64;
        let span_wide: i128 = last.0 as i128 - first.0 as i128;
        Some(CoolingRate { delta_millidegrees: delta, elapsed_seconds: span_wide as u64 })
    }
}

/// However many ticks are applied, eligible or not, the window's contents
/// never grow beyond the configured capacity.
pub proof fn lemma_capacity_never_exceeded(
    entries: Seq<(i64, i32)>,
    capacity: nat,
    ticks: Seq<(ThresholdTracker, i64)>,
)
    requires
        entries.len() <= capacity,
    ensures
        SamplingWindow::spec_collect_all(entries, capacity, ticks).len() <= capacity,
    decreases ticks.len(),
{
    if ticks.len() > 0 {
        lemma_capacity_never_exceeded(
            SamplingWindow::spec_collect_step(entries, capacity, ticks[0].0, ticks[0].1),
            capacity,
            ticks.drop_first(),
        );
    }
}

/// A window that was just flushed is never ready, whatever the tracker
/// says: readiness asks for at least `capacity` entries, and a valid
/// window's capacity is at least one.
pub proof fn lemma_flushed_window_not_ready(w: SamplingWindow, t: ThresholdTracker)
    requires
        w.inv(),
        w.entries@.len() == 0,
    ensures
        !w.spec_is_ready(t),
{
}

} // verus!
