use runeweb::config::{FileLogsConfig, LogsConfig, LogsLevel};
use runeweb::logging::{decimal_string, log_file_name, plan_logs, LogsPlan};

fn logs(enabled: bool, file_enabled: bool) -> LogsConfig {
    LogsConfig {
        enabled,
        level: LogsLevel::Warn,
        file: FileLogsConfig { enabled: file_enabled, path: String::from("logs") },
    }
}

#[test]
fn decimal_of_small_numbers() {
    assert_eq!(decimal_string(0), "0");
    assert_eq!(decimal_string(7), "7");
    assert_eq!(decimal_string(10), "10");
    assert_eq!(decimal_string(1234567890), "1234567890");
}

#[test]
fn decimal_of_largest_u64() {
    assert_eq!(decimal_string(u64::MAX), "18446744073709551615");
}

#[test]
fn decimal_round_trips_through_parse() {
    for n in [0u64, 1, 9, 99, 100, 65535, 1_700_000_000, u64::MAX - 1] {
        assert_eq!(decimal_string(n).parse::<u64>().unwrap(), n);
        assert_eq!(decimal_string(n), n.to_string());
    }
}

#[test]
fn log_file_name_is_seconds_dot_log() {
    assert_eq!(log_file_name(1700000000), "1700000000.log");
    assert_eq!(log_file_name(0), "0.log");
}

#[test]
fn log_file_names_differ_for_different_seconds() {
    assert_ne!(log_file_name(1), log_file_name(10));
    assert_ne!(log_file_name(12), log_file_name(21));
}

#[test]
fn disabled_logs_install_nothing() {
    assert!(matches!(plan_logs(&logs(false, true), Some(5)), LogsPlan::Off));
    assert!(matches!(plan_logs(&logs(false, false), None), LogsPlan::Off));
}

#[test]
fn file_off_logs_to_console() {
    match plan_logs(&logs(true, false), Some(5)) {
        LogsPlan::Console { directive } => assert_eq!(directive, "warn"),
        _ => panic!("expected console logging"),
    }
}

#[test]
fn clock_before_epoch_logs_to_console() {
    match plan_logs(&logs(true, true), None) {
        LogsPlan::Console { directive } => assert_eq!(directive, "warn"),
        _ => panic!("expected console logging"),
    }
}

#[test]
fn file_on_logs_to_console_and_file() {
    let mut c = logs(true, true);
    c.level = LogsLevel::Trace;
    c.file.path = String::from("var");
    match plan_logs(&c, Some(1700000123)) {
        LogsPlan::ConsoleAndFile { directive, folder, file_name } => {
            assert_eq!(directive, "trace");
            assert_eq!(folder, "var");
            assert_eq!(file_name, "1700000123.log");
        }
        _ => panic!("expected console and file logging"),
    }
}
