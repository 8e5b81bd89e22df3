//! What is reported when a log file cannot be opened.
//!
//! Failing to open either file is fatal. The error file is opened first, so a
//! failure on the info file can still be recorded there; a failure on the
//! error file can only be reported on the console.

use crate::line::{line_of, log_line, LogFile, Severity};
use vstd::prelude::*;

verus! {

/// The diagnostic for one failed open.
pub struct OpenFailure {
    /// `failed to open {info|error} log "{path}" because of error: {error}`
    pub message: String,
    /// The message as an error line, as printed and as recorded.
    pub line: String,
    /// Whether the line is also appended to the (already open) error file.
    pub record_in_error_file: bool,
}

pub open spec fn kind_of(f: LogFile) -> Seq<char> {
    match f {
        LogFile::Info => "info"@,
        LogFile::Error => "error"@,
    }
}

pub open spec fn open_failure_message_of(f: LogFile, path: Seq<char>, error: Seq<char>) -> Seq<char> {
    "failed to open "@ + kind_of(f) + " log \""@ + path + "\" because of error: "@ + error
}

/// The report for a failure to open the `f` file at `path`, at `time`, with
/// the system's `error` text.
pub fn open_failure(f: LogFile, path: &str, time: &str, error: &str) -> (r: OpenFailure)
    ensures
        r.message@ == open_failure_message_of(f, path@, error@),
        r.line@ == line_of(time@, Severity::Error, r.message@),
        r.record_in_error_file == (f == LogFile::Info),
{
    let mut message = String::from_str("failed to open ");
    match f {
        LogFile::Info => message.append("info"),
        LogFile::Error => message.append("error"),
    }
    message.append(" log \"");
    message.append(path);
    message.append("\" because of error: ");
    message.append(error);
    let line = log_line(time, Severity::Error, message.as_str());
    let record_in_error_file = match f {
        LogFile::Info => true,
        LogFile::Error => false,
    };
    OpenFailure { message, line, record_in_error_file }
}

/// What to do once the two files of a day have been tried: the error file
/// first, then the info file only if the error file opened.
pub struct OpenReport {
    /// The notice to print on standard error, if any.
    pub console: Option<String>,
    /// The line to append to the error file, if any.
    pub error_file_line: Option<String>,
    /// Whether both files are open and logging can go on.
    pub proceed: bool,
}

pub open spec fn opt_view(o: Option<String>) -> Option<Seq<char>> {
    match o {
        Some(s) => Some(s@),
        None => None,
    }
}

pub open spec fn opt_str_view(o: Option<&str>) -> Option<Seq<char>> {
    match o {
        Some(s) => Some(s@),
        None => None,
    }
}

/// The report once the error file `err_log_name` opened or failed with
/// `error_open`, and then, if it opened, the info file `info_log_name` opened
/// or failed with `info_open`. A failure on the error file is reported on
/// the console only; one on the info file also goes into the error file.
/// Either one stops the logger.
pub fn open_report(
    err_log_name: &str,
    info_log_name: &str,
    time: &str,
    error_open: Option<&str>,
    info_open: Option<&str>,
) -> (r: OpenReport)
    ensures
        match opt_str_view(error_open) {
            Some(e) => {
                &&& opt_view(r.console) == Some(open_failure_message_of(LogFile::Error, err_log_name@, e))
                &&& r.error_file_line is None
                &&& !r.proceed
            },
            None => match opt_str_view(info_open) {
                Some(e) => {
                    &&& opt_view(r.console) == Some(open_failure_message_of(LogFile::Info, info_log_name@, e))
                    &&& opt_view(r.error_file_line) == Some(
                        line_of(time@, Severity::Error, open_failure_message_of(LogFile::Info, info_log_name@, e)),
                    )
                    &&& !r.proceed
                },
                None => r.console is None && r.error_file_line is None && r.proceed,
            },
        },
{
    match error_open {
        Some(e) => {
            let f = open_failure(LogFile::Error, err_log_name, time, e);
            OpenReport { console: Some(f.message), error_file_line: None, proceed: false }
        },
        None => match info_open {
            Some(e) => {
                let f = open_failure(LogFile::Info, info_log_name, time, e);
                OpenReport { console: Some(f.message), error_file_line: Some(f.line), proceed: false }
            },
            None => OpenReport { console: None, error_file_line: None, proceed: true },
        },
    }
}

} // verus!
