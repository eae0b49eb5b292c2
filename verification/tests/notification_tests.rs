use water_monitor::NotificationGate;
use water_monitor::ThresholdTracker;

#[test]
fn idle_gate_stays_idle_below_threshold() {
    let mut t = ThresholdTracker::new(30);
    let mut g = NotificationGate::new();
    for reading in [10, 20, 30, 25] {
        t.update(reading);
        assert!(!g.step(&mut t));
        assert!(!g.notified);
    }
}

#[test]
fn one_alert_per_episode_despite_flapping() {
    let mut t = ThresholdTracker::new(30);
    let mut g = NotificationGate::new();
    t.update(31);
    // the crossing fires exactly one alert
    assert!(g.step(&mut t));
    let mut alerts = 1;
    // the temperature flaps around above the threshold; no further alert
    for reading in [32, 35, 31, 40, 33] {
        t.update(reading);
        if g.step(&mut t) {
            alerts += 1;
        }
    }
    assert_eq!(alerts, 1);
    assert!(g.notified);
}

#[test]
fn back_to_normal_clears_gate_and_tracker_together() {
    let mut t = ThresholdTracker::new(30);
    let mut g = NotificationGate::new();
    t.update(31);
    assert!(g.step(&mut t));
    t.update(29);
    assert!(t.is_temperature_back_to_normal());
    // the same step clears the latch and the sticky flag, firing nothing
    assert!(!g.step(&mut t));
    assert!(!g.notified);
    assert!(!t.is_temperature_back_to_normal());
}

#[test]
fn a_new_crossing_is_a_new_episode() {
    let mut t = ThresholdTracker::new(30);
    let mut g = NotificationGate::new();
    let readings = [31, 29, 31];
    let expected_alerts = [true, false, true];
    for k in 0..readings.len() {
        t.update(readings[k]);
        assert_eq!(g.step(&mut t), expected_alerts[k]);
    }
}
