//! The sensor state as the control loop sees it: threshold tracker and
//! sampling window advanced together, one reading per tick.
//!
//! Reading the device file itself is the surrounding program's affair; it
//! hands the raw device value in here.  The sensor device reports
//! millidegrees Celsius, which is exactly the unit this state keeps.

use vstd::prelude::*;

use crate::sampling::CoolingRate;
use crate::sampling::SamplingWindow;
use crate::threshold::ThresholdTracker;

verus! {

/// Readings above 30 degrees Celsius count as a crossing.
pub const DEFAULT_THRESHOLD_MILLIDEGREES: i32 = 30000;

/// How many samples the cooling-rate window holds.
pub const SAMPLING_SIZE: usize = 300;

/// Relies on `chrono::Utc::now` and `DateTime::timestamp`: the current
/// time as whole seconds since the Unix epoch.  The clock can jump, so
/// nothing is assumed of the value and callers treat it as arbitrary.
#[verifier::external_body]
fn now_unix_seconds() -> i64 {
    chrono::Utc::now().timestamp()
}

/// Threshold tracker and sampling window of one water-temperature sensor.
pub struct WaterTemperatureSensor {
    /// Crossing detection over the latest two readings.
    pub tracker: ThresholdTracker,
    /// The cooling-rate sample window.
    pub window: SamplingWindow,
}

impl WaterTemperatureSensor {
    /// Both components valid.
    pub open spec fn inv(self) -> bool {
        self.tracker.inv() && self.window.inv()
    }

    /// A fresh sensor state with the default threshold and window size.
    pub fn new() -> (s: WaterTemperatureSensor)
        ensures
            s.tracker == (ThresholdTracker {
                current: 0,
                previous: 0,
                threshold: DEFAULT_THRESHOLD_MILLIDEGREES,
                changed: false,
                back_to_normal: false,
            }),
            s.window.entries@ == Seq::<(i64, i32)>::empty(),
            s.window.capacity == SAMPLING_SIZE,
            s.inv(),
    {
        WaterTemperatureSensor {
            tracker: ThresholdTracker::new(DEFAULT_THRESHOLD_MILLIDEGREES),
            window: SamplingWindow::new(SAMPLING_SIZE),
        }
    }

    /// One tick's worth of state change for a reading taken at `now`:
    /// the tracker shifts and recomputes its flags, then the window
    /// collects the new reading if the tick is eligible and room is left.
    pub fn apply_reading_at(&mut self, now: i64, millidegrees: i32)
        requires
            old(self).inv(),
        ensures
            final(self).tracker == old(self).tracker.spec_update(millidegrees),
            final(self).window.entries@ == SamplingWindow::spec_collect_step(
                old(self).window.entries@,
                old(self).window.capacity as nat,
                old(self).tracker.spec_update(millidegrees),
                now,
            ),
            final(self).window.capacity == old(self).window.capacity,
            final(self).inv(),
    {
        self.tracker.update(millidegrees);
        self.window.maybe_collect(&self.tracker, now);
    }

    /// [`WaterTemperatureSensor::apply_reading_at`] with the reading
    /// stamped by the wall clock.  The tracker's change is exact; of the
    /// window only the tick time is left open, since the clock decides it.
    pub fn apply_reading(&mut self, millidegrees: i32)
        requires
            old(self).inv(),
        ensures
            final(self).tracker == old(self).tracker.spec_update(millidegrees),
            exists|now: i64|
                final(self).window.entries@ == #[trigger] SamplingWindow::spec_collect_step(
                    old(self).window.entries@,
                    old(self).window.capacity as nat,
                    old(self).tracker.spec_update(millidegrees),
                    now,
                ),
            final(self).window.capacity == old(self).window.capacity,
            final(self).inv(),
    {
        let now: i64 = now_unix_seconds();
        self.apply_reading_at(now, millidegrees);
    }

    /// The latest reading, millidegrees Celsius.
    pub fn current_temperature_millidegrees(&self) -> (r: i32)
        ensures
            r == self.tracker.current,
    {
        self.tracker.current
    }

    /// Whether the reading moved since the last poll; gates reporting.
    pub fn should_collect_data(&self) -> (r: bool)
        ensures
            r == (self.tracker.current != self.tracker.previous),
    {
        self.tracker.should_collect_data()
    }

    /// Read the sticky back-to-normal flag.
    pub fn is_temperature_back_to_normal(&self) -> (r: bool)
        ensures
            r == self.tracker.back_to_normal,
    {
        self.tracker.is_temperature_back_to_normal()
    }

    /// Read the crossing flag.
    pub fn get_temperature_has_changed(&self) -> (r: bool)
        ensures
            r == self.tracker.changed,
    {
        self.tracker.get_temperature_has_changed()
    }

    /// Acknowledge the end of a crossing episode.
    pub fn reset_temperature_back_to_normal(&mut self)
        ensures
            final(self).tracker == (ThresholdTracker {
                back_to_normal: false,
                ..old(self).tracker
            }),
            final(self).window == old(self).window,
    {
        self.tracker.reset_temperature_back_to_normal();
    }

    /// Whether the window has filled and this tick is still eligible.
    pub fn is_sampling_ready(&self) -> (r: bool)
        ensures
            r == self.window.spec_is_ready(self.tracker),
    {
        self.window.is_ready(&self.tracker)
    }

    /// The cooling rate over the window; see
    /// [`SamplingWindow::get_cooling_rate_per_sec`].
    pub fn get_cooling_rate_per_sec(&self) -> (r: Option<CoolingRate>)
        ensures
            r is Some <==> self.window.entries@.len() >= 2 && self.window.entries@.last().0
                > self.window.entries@.first().0,
            r matches Some(rate) ==> {
                &&& rate.delta_millidegrees == self.window.entries@.last().1
                    - self.window.entries@.first().1
                &&& rate.elapsed_seconds == self.window.entries@.last().0
                    - self.window.entries@.first().0
            },
    {
        self.window.get_cooling_rate_per_sec()
    }

    /// Empty the window to start a fresh observation episode.
    pub fn flush(&mut self)
        requires
            old(self).inv(),
        ensures
            final(self).window.entries@ == Seq::<(i64, i32)>::empty(),
            final(self).window.capacity == old(self).window.capacity,
            final(self).tracker == old(self).tracker,
            final(self).inv(),
    {
        self.window.flush();
    }
}

} // verus!
