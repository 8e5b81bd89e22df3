//! Severities, where each one is routed, and the text of a log line.

use vstd::prelude::*;

verus! {

/// One of the three severities a message can carry.
#[derive(Clone, Copy, Debug, PartialEq, Eq, Structural)]
pub enum Severity {
    Warning,
    Info,
    Error,
}

/// Which of the two log files a line is appended to.
#[derive(Clone, Copy, Debug, PartialEq, Eq, Structural)]
pub enum LogFile {
    Info,
    Error,
}

/// Which console stream a line is printed on.
#[derive(Clone, Copy, Debug, PartialEq, Eq, Structural)]
pub enum Console {
    Stdout,
    Stderr,
}

/// The tag written between brackets for a severity.
pub open spec fn label_of(s: Severity) -> Seq<char> {
    match s {
        Severity::Warning => "WARNING"@,
        Severity::Info => "INFO"@,
        Severity::Error => "ERROR"@,
    }
}

/// Informational lines go to the info file; warnings and errors to the error file.
pub open spec fn file_of(s: Severity) -> LogFile {
    match s {
        Severity::Info => LogFile::Info,
        _ => LogFile::Error,
    }
}

/// Informational lines go to standard output; warnings and errors to standard error.
pub open spec fn console_of(s: Severity) -> Console {
    match s {
        Severity::Info => Console::Stdout,
        _ => Console::Stderr,
    }
}

/// `{prefix} - [{date}].{extension}`
pub open spec fn file_name_of(prefix: Seq<char>, date: Seq<char>, extension: Seq<char>) -> Seq<char> {
    prefix + " - ["@ + date + "]."@ + extension
}

/// `[{time}] [{SEVERITY}]: {message}`
pub open spec fn line_of(time: Seq<char>, s: Severity, message: Seq<char>) -> Seq<char> {
    "["@ + time + "] ["@ + label_of(s) + "]: "@ + message
}

impl Severity {
    pub fn label(self) -> (r: &'static str)
        ensures
            r@ == label_of(self),
    {
        match self {
            Severity::Warning => "WARNING",
            Severity::Info => "INFO",
            Severity::Error => "ERROR",
        }
    }

    pub fn file(self) -> (r: LogFile)
        ensures
            r == file_of(self),
    {
        match self {
            Severity::Info => LogFile::Info,
            _ => LogFile::Error,
        }
    }

    pub fn console(self) -> (r: Console)
        ensures
            r == console_of(self),
    {
        match self {
            Severity::Info => Console::Stdout,
            _ => Console::Stderr,
        }
    }
}

/// The name of a log file for one severity and one calendar date.
pub fn log_file_name(prefix: &str, date: &str, extension: &str) -> (r: String)
    ensures
        r@ == file_name_of(prefix@, date@, extension@),
{
    let mut r = String::from_str(prefix);
    r.append(" - [");
    r.append(date);
    r.append("].");
    r.append(extension);
    r
}

/// The text of one log line, without its line terminator.
pub fn log_line(time: &str, s: Severity, message: &str) -> (r: String)
    ensures
        r@ == line_of(time@, s, message@),
{
    let mut r = String::from_str("[");
    r.append(time);
    r.append("] [");
    r.append(s.label());
    r.append("]: ");
    r.append(message);
    r
}

} // verus!
