use water_monitor::SamplingWindow;
use water_monitor::ThresholdTracker;
use water_monitor::should_collect_for_sampling;

/// A tracker that is above the threshold and cooling: eligible.
fn cooling_tracker() -> ThresholdTracker {
    let mut t = ThresholdTracker::new(30000);
    t.update(45000);
    t.update(40000);
    t
}

#[test]
fn eligibility_needs_cooling_above_threshold() {
    let mut t = ThresholdTracker::new(30000);
    t.update(45000);
    // rising above the threshold: not eligible
    assert!(!should_collect_for_sampling(&t));
    t.update(40000);
    // cooling, still above: eligible
    assert!(should_collect_for_sampling(&t));
    t.update(29000);
    // cooling but below the threshold: not eligible
    assert!(!should_collect_for_sampling(&t));
}

#[test]
fn window_never_exceeds_capacity() {
    let mut t = ThresholdTracker::new(30000);
    t.update(60000);
    let mut w = SamplingWindow::new(3);
    // twenty eligible ticks in a row: the window stops at three entries
    for k in 1..=20 {
        t.update(60000 - k * 1000);
        assert!(should_collect_for_sampling(&t));
        w.maybe_collect(&t, 1000 + k as i64);
        assert!(w.len() <= 3);
    }
    assert_eq!(w.len(), 3);
}

#[test]
fn ineligible_ticks_are_not_collected() {
    let mut t = ThresholdTracker::new(30000);
    let mut w = SamplingWindow::new(10);
    t.update(20000);
    w.maybe_collect(&t, 1);
    t.update(25000);
    w.maybe_collect(&t, 2);
    t.update(20000);
    // cooling but below threshold
    w.maybe_collect(&t, 3);
    assert_eq!(w.len(), 0);
}

#[test]
fn cooling_rate_of_recorded_window() {
    let t0: i64 = 1_700_000_000;
    let mut t = cooling_tracker();
    let mut w = SamplingWindow::new(2);
    w.maybe_collect(&t, t0); // (t0, 40.0 degrees)
    t.update(35000);
    w.maybe_collect(&t, t0 + 10); // (t0 + 10 s, 35.0 degrees)
    let rate = w.get_cooling_rate_per_sec().unwrap();
    assert_eq!(rate.delta_millidegrees, -5000);
    assert_eq!(rate.elapsed_seconds, 10);
    let degrees_per_second = rate.delta_millidegrees as f64 / 1000.0 / rate.elapsed_seconds as f64;
    assert_eq!(degrees_per_second, -0.5);
}

#[test]
fn cooling_rate_needs_two_entries() {
    let t = cooling_tracker();
    let mut w = SamplingWindow::new(5);
    assert!(w.get_cooling_rate_per_sec().is_none());
    w.maybe_collect(&t, 100);
    assert!(w.get_cooling_rate_per_sec().is_none());
}

#[test]
fn cooling_rate_refuses_a_zero_time_span() {
    let mut t = cooling_tracker();
    let mut w = SamplingWindow::new(2);
    w.maybe_collect(&t, 500);
    t.update(35000);
    w.maybe_collect(&t, 500); // same second: no span to divide by
    assert_eq!(w.len(), 2);
    assert!(w.get_cooling_rate_per_sec().is_none());
}

#[test]
fn ready_exactly_when_full_and_eligible() {
    let mut t = cooling_tracker();
    let mut w = SamplingWindow::new(2);
    assert!(!w.is_ready(&t));
    w.maybe_collect(&t, 100);
    assert!(!w.is_ready(&t));
    t.update(35000);
    w.maybe_collect(&t, 110);
    assert!(w.is_ready(&t));
    // an ineligible tick is never ready, full window or not
    t.update(36000);
    assert!(!w.is_ready(&t));
}

#[test]
fn flushed_window_is_not_ready() {
    let mut t = cooling_tracker();
    let mut w = SamplingWindow::new(2);
    w.maybe_collect(&t, 100);
    t.update(35000);
    w.maybe_collect(&t, 110);
    assert!(w.is_ready(&t));
    w.flush();
    assert_eq!(w.len(), 0);
    assert!(!w.is_ready(&t));
    assert!(w.get_cooling_rate_per_sec().is_none());
}
