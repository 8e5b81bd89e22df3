use daily_logger::failure::{open_failure, open_report};
use daily_logger::line::{log_file_name, log_line, Console, LogFile, Severity};
use daily_logger::logger::{ClockReading, Logger};

fn reading(day: u32, date: &str, time: &str) -> ClockReading {
    ClockReading { day, date: date.to_string(), time: time.to_string() }
}

fn app_logger() -> Logger {
    Logger::new_at("%H:%M:%S", "log", "app-info", "app-error", "15-01-2024", 15)
}

#[test]
fn file_names_for_a_date() {
    let l = app_logger();
    assert_eq!(l.info_log_name(), "app-info - [15-01-2024].log");
    assert_eq!(l.err_log_name(), "app-error - [15-01-2024].log");
    assert_eq!(l.log_name(LogFile::Info), "app-info - [15-01-2024].log");
    assert_eq!(l.log_name(LogFile::Error), "app-error - [15-01-2024].log");
    assert_eq!(l.date(), "15-01-2024");
    assert_eq!(l.day(), 15);
}

#[test]
fn info_started_goes_to_info_file_and_stdout() {
    let l = app_logger();
    let e = l.emission_at(Severity::Info, "started", &reading(15, "15-01-2024", "09:30:05"));
    assert!(e.rotation.is_none());
    assert_eq!(e.line, "[09:30:05] [INFO]: started");
    assert_eq!(e.file, LogFile::Info);
    assert_eq!(e.console, Console::Stdout);
    assert_eq!(e.time, "09:30:05");
    assert_eq!(e.message, "started");
    assert_eq!(l.log_name(e.file), "app-info - [15-01-2024].log");
}

#[test]
fn warn_and_err_go_to_error_file_and_stderr() {
    let l = app_logger();
    let now = reading(15, "15-01-2024", "10:00:00");
    let w = l.emission_at(Severity::Warning, "disk low", &now);
    assert_eq!(w.line, "[10:00:00] [WARNING]: disk low");
    assert_eq!(w.file, LogFile::Error);
    assert_eq!(w.console, Console::Stderr);
    let e = l.emission_at(Severity::Error, "disk full", &now);
    assert_eq!(e.line, "[10:00:00] [ERROR]: disk full");
    assert_eq!(e.file, LogFile::Error);
    assert_eq!(e.console, Console::Stderr);
}

#[test]
fn same_day_needs_no_rotation() {
    let l = app_logger();
    assert!(l.rotation_for(15, "15-01-2024").is_none());
    let e = l.emission_at(Severity::Error, "x", &reading(15, "15-01-2024", "23:59:59"));
    assert!(e.rotation.is_none());
}

#[test]
fn new_day_rotates_both_files() {
    let mut l = app_logger();
    let e = l.emission_at(Severity::Info, "tick", &reading(16, "16-01-2024", "00:00:01"));
    let r = e.rotation.expect("a new day rotates");
    assert_eq!(r.day, 16);
    assert_eq!(r.date, "16-01-2024");
    assert_eq!(r.info_log_name, "app-info - [16-01-2024].log");
    assert_eq!(r.err_log_name, "app-error - [16-01-2024].log");
    l.rotate(&r);
    assert_eq!(l.day(), 16);
    assert_eq!(l.info_log_name(), "app-info - [16-01-2024].log");
    assert_eq!(l.err_log_name(), "app-error - [16-01-2024].log");
    assert_ne!(l.info_log_name(), l.err_log_name());
    // Observing the same day again rotates nothing.
    assert!(l.rotation_for(16, "16-01-2024").is_none());
    let again = l.emission_at(Severity::Info, "tock", &reading(16, "16-01-2024", "00:00:02"));
    assert!(again.rotation.is_none());
    assert_eq!(l.log_name(again.file), "app-info - [16-01-2024].log");
}

#[test]
fn info_open_failure_is_recorded_in_error_file() {
    let f = open_failure(LogFile::Info, "app-info - [15-01-2024].log", "09:30:05", "permission denied");
    assert_eq!(
        f.message,
        "failed to open info log \"app-info - [15-01-2024].log\" because of error: permission denied"
    );
    assert_eq!(
        f.line,
        "[09:30:05] [ERROR]: failed to open info log \"app-info - [15-01-2024].log\" because of error: permission denied"
    );
    assert!(f.record_in_error_file);
}

#[test]
fn error_open_failure_goes_to_console_only() {
    let f = open_failure(LogFile::Error, "app-error - [15-01-2024].log", "09:30:05", "no space");
    assert_eq!(
        f.line,
        "[09:30:05] [ERROR]: failed to open error log \"app-error - [15-01-2024].log\" because of error: no space"
    );
    assert!(!f.record_in_error_file);
}

#[test]
fn line_and_name_text() {
    assert_eq!(log_line("t", Severity::Warning, ""), "[t] [WARNING]: ");
    assert_eq!(log_file_name("p", "01-02-2025", "txt"), "p - [01-02-2025].txt");
    assert_eq!(log_file_name("", "", ""), " - [].");
    assert_eq!(Severity::Info.label(), "INFO");
    assert_eq!(Severity::Warning.label(), "WARNING");
    assert_eq!(Severity::Error.label(), "ERROR");
}

#[test]
fn new_reads_the_local_clock() {
    let l = Logger::new("%H:%M:%S", "log", "app-info", "app-error");
    assert!(l.day() >= 1 && l.day() <= 31);
    let date = l.date().to_string();
    assert_eq!(date.len(), 10);
    assert_eq!(&date[0..2], format!("{:02}", l.day()).as_str());
    assert_eq!(l.info_log_name(), format!("app-info - [{}].log", date));
    assert_eq!(l.err_log_name(), format!("app-error - [{}].log", date));
}

#[test]
fn info_call_now_formats_a_line() {
    let l = Logger::new("%H:%M:%S", "log", "app-info", "app-error");
    let e = l.info("started").expect("clock readable");
    assert_eq!(e.time.len(), 8);
    assert!(!e.time.contains('%'));
    assert_eq!(e.time.as_bytes()[2], b':');
    assert_eq!(e.line, format!("[{}] [INFO]: started", e.time));
    assert_eq!(e.file, LogFile::Info);
    assert_eq!(e.console, Console::Stdout);
    let w = l.warn("careful").expect("clock readable");
    assert_eq!(w.line, format!("[{}] [WARNING]: careful", w.time));
    let x = l.err("broken").expect("clock readable");
    assert_eq!(x.line, format!("[{}] [ERROR]: broken", x.time));
    assert_eq!(x.file, LogFile::Error);
}

#[test]
fn invalid_time_format_reads_no_clock() {
    let l = Logger::new_at("%Q", "log", "a", "b", "15-01-2024", 15);
    assert!(l.now().is_none());
    assert!(l.read_clock().is_none());
    assert!(l.info("x").is_none());
    assert!(l.warn("x").is_none());
    assert!(l.err("x").is_none());
}

#[test]
fn new_with_invalid_time_format_still_names_files() {
    let l = Logger::new("%Q", "log", "a", "b");
    assert!(l.day() >= 1 && l.day() <= 31);
    assert_eq!(l.info_log_name(), format!("a - [{}].log", l.date()));
    assert!(l.now().is_none());
}

#[test]
fn startup_with_info_open_failure_records_it_and_stops() {
    let r = open_report(
        "app-error - [15-01-2024].log",
        "app-info - [15-01-2024].log",
        "09:30:05",
        None,
        Some("permission denied"),
    );
    assert_eq!(
        r.console.as_deref(),
        Some("failed to open info log \"app-info - [15-01-2024].log\" because of error: permission denied")
    );
    assert_eq!(
        r.error_file_line.as_deref(),
        Some("[09:30:05] [ERROR]: failed to open info log \"app-info - [15-01-2024].log\" because of error: permission denied")
    );
    assert!(!r.proceed);
}

#[test]
fn startup_with_error_open_failure_reports_on_console_only() {
    let r = open_report("e.log", "i.log", "t", Some("no space"), None);
    assert_eq!(
        r.console.as_deref(),
        Some("failed to open error log \"e.log\" because of error: no space")
    );
    assert!(r.error_file_line.is_none());
    assert!(!r.proceed);
}

#[test]
fn startup_with_both_files_open_proceeds() {
    let r = open_report("e.log", "i.log", "t", None, None);
    assert!(r.console.is_none());
    assert!(r.error_file_line.is_none());
    assert!(r.proceed);
}
