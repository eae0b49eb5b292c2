use water_monitor::DEFAULT_THRESHOLD_MILLIDEGREES;
use water_monitor::SAMPLING_SIZE;
use water_monitor::WaterTemperatureSensor;

#[test]
fn new_sensor_defaults() {
    let sensor = WaterTemperatureSensor::new();
    assert_eq!(sensor.current_temperature_millidegrees(), 0);
    assert_eq!(sensor.tracker.threshold, DEFAULT_THRESHOLD_MILLIDEGREES);
    assert_eq!(sensor.window.capacity, SAMPLING_SIZE);
    assert!(!sensor.get_temperature_has_changed());
    assert!(!sensor.is_temperature_back_to_normal());
}

#[test]
fn readings_flow_through_tracker_and_window() {
    let mut sensor = WaterTemperatureSensor::new();
    sensor.apply_reading_at(100, 45_000);
    assert!(sensor.get_temperature_has_changed());
    assert_eq!(sensor.window.entries.len(), 0); // rising, not eligible
    sensor.apply_reading_at(101, 40_000);
    assert_eq!(sensor.window.entries.len(), 1); // cooling above threshold
    sensor.apply_reading_at(102, 29_000);
    assert_eq!(sensor.window.entries.len(), 1); // below threshold again
    assert!(sensor.is_temperature_back_to_normal());
    assert_eq!(sensor.current_temperature_millidegrees(), 29_000);
}

#[test]
fn sampling_ready_and_flush_round_trip() {
    let mut sensor = WaterTemperatureSensor::new();
    sensor.apply_reading_at(0, 90_000);
    // one eligible cooling tick per second until the window fills
    let mut tick: i64 = 1;
    let mut temperature: i32 = 90_000;
    while sensor.window.entries.len() < SAMPLING_SIZE {
        temperature -= 100;
        sensor.apply_reading_at(tick, temperature);
        tick += 1;
    }
    // one more eligible tick: the window stays full and reports ready
    temperature -= 100;
    sensor.apply_reading_at(tick, temperature);
    assert_eq!(sensor.window.entries.len(), SAMPLING_SIZE);
    assert!(sensor.is_sampling_ready());
    let rate = sensor.get_cooling_rate_per_sec().unwrap();
    assert!(rate.delta_millidegrees < 0);
    assert!(rate.elapsed_seconds >= 1);
    // flushing ends the observation episode
    sensor.flush();
    assert!(!sensor.is_sampling_ready());
    assert_eq!(sensor.window.entries.len(), 0);
    assert!(sensor.get_cooling_rate_per_sec().is_none());
}

#[test]
fn wall_clock_reading_advances_the_tracker() {
    let mut sensor = WaterTemperatureSensor::new();
    sensor.apply_reading(12_000);
    assert_eq!(sensor.current_temperature_millidegrees(), 12_000);
    assert!(sensor.should_collect_data());
    sensor.apply_reading(12_000);
    assert!(!sensor.should_collect_data());
}
