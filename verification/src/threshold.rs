//! Threshold-crossing detection with a sticky back-to-normal flag.

use vstd::prelude::*;

verus! {

/// Tracks the latest two readings against a fixed threshold.
///
/// `changed` holds exactly when the current reading exceeds the threshold
/// (strictly).  `back_to_normal` is set on the transition of `changed` from
/// true to false and stays set until [`ThresholdTracker::reset_temperature_back_to_normal`]
/// is called; `update` never clears it.
///
/// All temperatures are millidegrees Celsius.
pub struct ThresholdTracker {
    /// The reading applied by the most recent `update`.
    pub current: i32,
    /// The reading that `current` replaced.
    pub previous: i32,
    /// Readings strictly above this count as a crossing.
    pub threshold: i32,
    /// Whether `current` exceeds `threshold`.
    pub changed: bool,
    /// Sticky flag: a crossing ended and nobody has acknowledged it yet.
    pub back_to_normal: bool,
}

impl ThresholdTracker {
    /// The tracker's one internal invariant: `changed` mirrors the
    /// comparison of the current reading against the threshold.
    pub open spec fn inv(self) -> bool {
        self.changed == (self.current > self.threshold)
    }

    /// The successor state after applying one reading.
    pub open spec fn spec_update(self, reading: i32) -> ThresholdTracker {
        ThresholdTracker {
            current: reading,
            previous: self.current,
            threshold: self.threshold,
            changed: reading > self.threshold,
            back_to_normal: self.back_to_normal || (self.changed && reading <= self.threshold),
        }
    }

    /// The state after applying a whole sequence of readings in order.
    pub open spec fn spec_update_all(self, readings: Seq<i32>) -> ThresholdTracker
        decreases readings.len(),
    {
        if readings.len() == 0 {
            self
        } else {
            self.spec_update(readings[0]).spec_update_all(readings.drop_first())
        }
    }

    /// A fresh tracker: no reading seen yet, both flags clear.
    pub fn new(threshold_millidegrees: i32) -> (t: ThresholdTracker)
        requires
            threshold_millidegrees >= 0,
        ensures
            t == (ThresholdTracker {
                current: 0,
                previous: 0,
                threshold: threshold_millidegrees,
                changed: false,
                back_to_normal: false,
            }),
            t.inv(),
    {
        ThresholdTracker {
            current: 0,
            previous: 0,
            threshold: threshold_millidegrees,
            changed: false,
            back_to_normal: false,
        }
    }

    /// Shift the current reading into `previous`, store the new one and
    /// recompute the flags.  `changed` is true afterwards iff the new
    /// reading exceeds the threshold; `back_to_normal` is set when a
    /// crossing just ended and is never cleared here.
    pub fn update(&mut self, reading: i32)
        ensures
            *final(self) == old(self).spec_update(reading),
            final(self).changed == (reading > old(self).threshold),
            final(self).back_to_normal == (old(self).back_to_normal || (old(self).changed
                && reading <= old(self).threshold)),
            final(self).inv(),
    {
        self.previous = self.current;
        self.current = reading;
        let now_changed: bool = reading > self.threshold;
        if self.changed && !now_changed {
            self.back_to_normal = true;
        }
        self.changed = now_changed;
    }

    /// Whether the reading moved at all since the last poll; the report
    /// pipeline only sends when it did.  (Exact inequality: any nonzero
    /// delta counts.)
    pub fn should_collect_data(&self) -> (r: bool)
        ensures
            r == (self.current != self.previous),
    {
        self.current != self.previous
    }

    /// Read the sticky back-to-normal flag.
    pub fn is_temperature_back_to_normal(&self) -> (r: bool)
        ensures
            r == self.back_to_normal,
    {
        self.back_to_normal
    }

    /// Read the crossing flag.
    pub fn get_temperature_has_changed(&self) -> (r: bool)
        ensures
            r == self.changed,
    {
        self.changed
    }

    /// Acknowledge the end of a crossing episode: the only operation that
    /// clears `back_to_normal`.
    pub fn reset_temperature_back_to_normal(&mut self)
        ensures
            *final(self) == (ThresholdTracker { back_to_normal: false, ..*old(self) }),
    {
        self.back_to_normal = false;
    }
}

/// `back_to_normal` becomes true only on a true-to-false transition of
/// `changed`: if an update sets it, it was either already set or the
/// tracker was above threshold and the new reading is not.
pub proof fn lemma_back_to_normal_only_on_transition(t: ThresholdTracker, reading: i32)
    ensures
        t.spec_update(reading).back_to_normal ==> t.back_to_normal || (t.changed
            && !t.spec_update(reading).changed),
{
}

/// Once set, `back_to_normal` survives any number of further updates:
/// only an explicit reset clears it.
pub proof fn lemma_back_to_normal_sticky(t: ThresholdTracker, readings: Seq<i32>)
    requires
        t.back_to_normal,
    ensures
        t.spec_update_all(readings).back_to_normal,
    decreases readings.len(),
{
    if readings.len() > 0 {
        lemma_back_to_normal_sticky(t.spec_update(readings[0]), readings.drop_first());
    }
}

} // verus!
