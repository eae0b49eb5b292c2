use water_monitor::LogLevel;
use water_monitor::format_log_line;
use water_monitor::generate_file_name_with_now_time;
use water_monitor::init_logs;
use water_monitor::log_file_name;

#[test]
fn test_generate_file_name_with_now_time() {
    let file_name = generate_file_name_with_now_time(".log".to_string());
    let current_time = chrono::offset::Local::now();
    assert_eq!(file_name.contains(".log"), true);
    assert_eq!(
        file_name.contains(&current_time.format("%Y-%m-%d").to_string()),
        true
    );
}

#[test]
fn log_file_name_is_directory_date_extension() {
    assert_eq!(log_file_name("2024-01-31", ".log"), "logs/2024-01-31.log");
}

#[test]
fn init_logs_enables_info_and_above() {
    let policy = init_logs();
    assert_eq!(policy.max_level, LogLevel::Info);
    assert!(policy.enabled(LogLevel::Error));
    assert!(policy.enabled(LogLevel::Warn));
    assert!(policy.enabled(LogLevel::Info));
    assert!(!policy.enabled(LogLevel::Debug));
    assert!(!policy.enabled(LogLevel::Trace));
}

#[test]
fn log_line_layout() {
    let line = format_log_line("2024-01-31T12:00:00+00:00", LogLevel::Info, "Cooling rate: 0.5");
    assert_eq!(line, "\n2024-01-31T12:00:00+00:00 : INFO - Cooling rate: 0.5");
    let error_line = format_log_line("t", LogLevel::Error, "boom");
    assert_eq!(error_line, "\nt : ERROR - boom");
}

#[test]
fn level_names() {
    assert_eq!(LogLevel::Error.name(), "ERROR");
    assert_eq!(LogLevel::Warn.name(), "WARN");
    assert_eq!(LogLevel::Info.name(), "INFO");
    assert_eq!(LogLevel::Debug.name(), "DEBUG");
    assert_eq!(LogLevel::Trace.name(), "TRACE");
}
