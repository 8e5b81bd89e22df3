//! The state of a daily log writer and its decisions: which files are open,
//! when they rotate, and what each logging call writes where.
//!
//! The writer here holds names and the day; opening and writing the files is
//! left to whoever owns the handles. A call yields an [`Emission`]: the
//! rotation to perform first, if the day changed, and the line to write.

use crate::clock::{day_of_date, leading_day, local_time, renders, DATE_PATTERN};
use crate::line::{
    console_of, file_name_of, file_of, line_of, log_file_name, log_line, Console, LogFile,
    Severity,
};
use vstd::prelude::*;

verus! {

/// The configuration and current files of a log writer.
pub struct Logger {
    time_format: String,
    log_extension: String,
    info_log_prefix: String,
    err_log_prefix: String,
    date: String,
    info_log_name: String,
    err_log_name: String,
    day: u32,
}

pub struct LoggerView {
    pub time_format: Seq<char>,
    pub log_extension: Seq<char>,
    pub info_log_prefix: Seq<char>,
    pub err_log_prefix: Seq<char>,
    pub date: Seq<char>,
    pub info_log_name: Seq<char>,
    pub err_log_name: Seq<char>,
    pub day: nat,
}

/// One reading of the local clock: the day of the month, the date as it
/// appears in file names, and the time as it appears in lines.
pub struct ClockReading {
    pub day: u32,
    pub date: String,
    pub time: String,
}

pub struct ClockView {
    pub day: nat,
    pub date: Seq<char>,
    pub time: Seq<char>,
}

/// A switch of both files to a new calendar day.
pub struct Rotation {
    pub day: u32,
    pub date: String,
    pub info_log_name: String,
    pub err_log_name: String,
}

pub struct RotationView {
    pub day: nat,
    pub date: Seq<char>,
    pub info_log_name: Seq<char>,
    pub err_log_name: Seq<char>,
}

/// What one logging call does: rotate first where `rotation` is set, then
/// print `line` on `console` and append it to `file`.
pub struct Emission {
    pub rotation: Option<Rotation>,
    pub severity: Severity,
    pub time: String,
    pub message: String,
    pub console: Console,
    pub file: LogFile,
    pub line: String,
}

pub struct EmissionView {
    pub rotation: Option<RotationView>,
    pub severity: Severity,
    pub time: Seq<char>,
    pub message: Seq<char>,
    pub console: Console,
    pub file: LogFile,
    pub line: Seq<char>,
}

impl View for Logger {
    type V = LoggerView;

    closed spec fn view(&self) -> LoggerView {
        LoggerView {
            time_format: self.time_format@,
            log_extension: self.log_extension@,
            info_log_prefix: self.info_log_prefix@,
            err_log_prefix: self.err_log_prefix@,
            date: self.date@,
            info_log_name: self.info_log_name@,
            err_log_name: self.err_log_name@,
            day: self.day as nat,
        }
    }
}

impl View for ClockReading {
    type V = ClockView;

    open spec fn view(&self) -> ClockView {
        ClockView { day: self.day as nat, date: self.date@, time: self.time@ }
    }
}

impl View for Rotation {
    type V = RotationView;

    open spec fn view(&self) -> RotationView {
        RotationView {
            day: self.day as nat,
            date: self.date@,
            info_log_name: self.info_log_name@,
            err_log_name: self.err_log_name@,
        }
    }
}

pub open spec fn rotation_view(r: Option<Rotation>) -> Option<RotationView> {
    match r {
        Some(r) => Some(r@),
        None => None,
    }
}

impl View for Emission {
    type V = EmissionView;

    open spec fn view(&self) -> EmissionView {
        EmissionView {
            rotation: rotation_view(self.rotation),
            severity: self.severity,
            time: self.time@,
            message: self.message@,
            console: self.console,
            file: self.file,
            line: self.line@,
        }
    }
}

impl LoggerView {
    /// Each file name is the one that its prefix, the current date and the
    /// extension imply.
    pub open spec fn wf(self) -> bool {
        &&& self.info_log_name == file_name_of(self.info_log_prefix, self.date, self.log_extension)
        &&& self.err_log_name == file_name_of(self.err_log_prefix, self.date, self.log_extension)
    }

    /// The name of the file that lines routed to `f` are appended to.
    pub open spec fn name_of(self, f: LogFile) -> Seq<char> {
        match f {
            LogFile::Info => self.info_log_name,
            LogFile::Error => self.err_log_name,
        }
    }

    /// A writer built from its configuration on a given date and day.
    pub open spec fn started(
        time_format: Seq<char>,
        log_extension: Seq<char>,
        info_log_prefix: Seq<char>,
        err_log_prefix: Seq<char>,
        date: Seq<char>,
        day: nat,
    ) -> LoggerView {
        LoggerView {
            time_format,
            log_extension,
            info_log_prefix,
            err_log_prefix,
            date,
            info_log_name: file_name_of(info_log_prefix, date, log_extension),
            err_log_name: file_name_of(err_log_prefix, date, log_extension),
            day,
        }
    }

    /// The files change only when the observed day of the month differs
    /// from the stored one.
    pub open spec fn rotation_due(self, day: nat) -> bool {
        day != self.day
    }

    /// The switch to the files of `date`, observed on `day`.
    pub open spec fn rotation_to(self, day: nat, date: Seq<char>) -> RotationView {
        RotationView {
            day,
            date,
            info_log_name: file_name_of(self.info_log_prefix, date, self.log_extension),
            err_log_name: file_name_of(self.err_log_prefix, date, self.log_extension),
        }
    }

    /// The writer after a rotation: same configuration, new date, day and names.
    pub open spec fn rotated(self, r: RotationView) -> LoggerView {
        LoggerView {
            date: r.date,
            day: r.day,
            info_log_name: file_name_of(self.info_log_prefix, r.date, self.log_extension),
            err_log_name: file_name_of(self.err_log_prefix, r.date, self.log_extension),
            ..self
        }
    }

    /// What a call with severity `s` and `message` does at clock reading `now`.
    pub open spec fn emission(self, s: Severity, message: Seq<char>, now: ClockView) -> EmissionView {
        EmissionView {
            rotation: if self.rotation_due(now.day) {
                Some(self.rotation_to(now.day, now.date))
            } else {
                None
            },
            severity: s,
            time: now.time,
            message,
            console: console_of(s),
            file: file_of(s),
            line: line_of(now.time, s, message),
        }
    }
}

impl Logger {

    /// A writer for the files of `date`, with `day` as the stored day.
    pub fn new_at(
        time_format: &str,
        log_extension: &str,
        info_log_prefix: &str,
        err_log_prefix: &str,
        date: &str,
        day: u32,
    ) -> (r: Logger)
        ensures
            r@ == LoggerView::started(
                time_format@,
                log_extension@,
                info_log_prefix@,
                err_log_prefix@,
                date@,
                day as nat,
            ),
            r@.wf(),
    {
        Logger {
            time_format: String::from_str(time_format),
            log_extension: String::from_str(log_extension),
            info_log_prefix: String::from_str(info_log_prefix),
            err_log_prefix: String::from_str(err_log_prefix),
            date: String::from_str(date),
            info_log_name: log_file_name(info_log_prefix, date, log_extension),
            err_log_name: log_file_name(err_log_prefix, date, log_extension),
            day,
        }
    }

    /// A writer for the files of today's local date; its stored day is the
    /// day of the month of that same date.
    pub fn new(
        time_format: &str,
        log_extension: &str,
        info_log_prefix: &str,
        err_log_prefix: &str,
    ) -> (r: Logger)
        ensures
            r@.wf(),
            1 <= r@.day <= 31,
            r@.day == leading_day(r@.date),
            r@ == LoggerView::started(
                time_format@,
                log_extension@,
                info_log_prefix@,
                err_log_prefix@,
                r@.date,
                r@.day,
            ),
    {
        let date = match local_time(DATE_PATTERN) {
            Some(d) => d,
            // the date pattern always renders
            None => String::new(),
        };
        let day = day_of_date(date.as_str());
        Logger::new_at(time_format, log_extension, info_log_prefix, err_log_prefix, date.as_str(), day)
    }
    /// The local time now, rendered with the configured time format.
    pub fn now(&self) -> (r: Option<String>)
        ensures
            r is Some <==> renders(self@.time_format),
    {
        local_time(self.time_format.as_str())
    }

    /// Reads the local clock: the date, the day of the month that the date
    /// opens with, and the time. `None` where the configured time format
    /// cannot be rendered.
    pub fn read_clock(&self) -> (r: Option<ClockReading>)
        ensures
            r is Some <==> renders(self@.time_format),
            r matches Some(c) ==> 1 <= c.day <= 31 && c.day == leading_day(c.date@),
    {
        let date = match local_time(DATE_PATTERN) {
            Some(d) => d,
            // the date pattern always renders
            None => String::new(),
        };
        let day = day_of_date(date.as_str());
        match self.now() {
            Some(time) => Some(ClockReading { day, date, time }),
            None => None,
        }
    }

    /// The rotation that a call observing `day` and `date` has to perform
    /// before it writes: none while the day of the month is unchanged.
    pub fn rotation_for(&self, day: u32, date: &str) -> (r: Option<Rotation>)
        ensures
            rotation_view(r) == (if self@.rotation_due(day as nat) {
                Some(self@.rotation_to(day as nat, date@))
            } else {
                None
            }),
    {
        if day == self.day {
            None
        } else {
            Some(Rotation {
                day,
                date: String::from_str(date),
                info_log_name: log_file_name(self.info_log_prefix.as_str(), date, self.log_extension.as_str()),
                err_log_name: log_file_name(self.err_log_prefix.as_str(), date, self.log_extension.as_str()),
            })
        }
    }

    /// Switches to the files of a rotation, once both have been opened.
    pub fn rotate(&mut self, r: &Rotation)
        requires
            old(self)@.wf(),
        ensures
            final(self)@ == old(self)@.rotated(r@),
            final(self)@.wf(),
    {
        self.info_log_name = log_file_name(self.info_log_prefix.as_str(), r.date.as_str(), self.log_extension.as_str());
        self.err_log_name = log_file_name(self.err_log_prefix.as_str(), r.date.as_str(), self.log_extension.as_str());
        self.date = r.date.clone();
        self.day = r.day;
    }

    /// What a call with severity `s` and `message` does at clock reading `now`.
    pub fn emission_at(&self, s: Severity, message: &str, now: &ClockReading) -> (r: Emission)
        ensures
            r@ == self@.emission(s, message@, now@),
    {
        Emission {
            rotation: self.rotation_for(now.day, now.date.as_str()),
            severity: s,
            time: now.time.clone(),
            message: String::from_str(message),
            console: s.console(),
            file: s.file(),
            line: log_line(now.time.as_str(), s, message),
        }
    }

    /// What a call with severity `s` and `message` does now. `None` where the
    /// configured time format cannot be rendered.
    pub fn emit(&self, s: Severity, message: &str) -> (r: Option<Emission>)
        ensures
            r is Some <==> renders(self@.time_format),
            r matches Some(e) ==> exists|now: ClockView|
                1 <= now.day <= 31 && now.day == leading_day(now.date) && #[trigger] self@.emission(s, message@, now) == e@,
    {
        match self.read_clock() {
            Some(now) => {
                let e = self.emission_at(s, message, &now);
                assert(self@.emission(s, message@, now@) == e@);
                Some(e)
            },
            None => None,
        }
    }

    pub fn warn(&self, msg: &str) -> (r: Option<Emission>)
        ensures
            r is Some <==> renders(self@.time_format),
            r matches Some(e) ==> exists|now: ClockView|
                1 <= now.day <= 31 && now.day == leading_day(now.date) && #[trigger] self@.emission(Severity::Warning, msg@, now) == e@,
    {
        self.emit(Severity::Warning, msg)
    }

    pub fn info(&self, msg: &str) -> (r: Option<Emission>)
        ensures
            r is Some <==> renders(self@.time_format),
            r matches Some(e) ==> exists|now: ClockView|
                1 <= now.day <= 31 && now.day == leading_day(now.date) && #[trigger] self@.emission(Severity::Info, msg@, now) == e@,
    {
        self.emit(Severity::Info, msg)
    }

    pub fn err(&self, msg: &str) -> (r: Option<Emission>)
        ensures
            r is Some <==> renders(self@.time_format),
            r matches Some(e) ==> exists|now: ClockView|
                1 <= now.day <= 31 && now.day == leading_day(now.date) && #[trigger] self@.emission(Severity::Error, msg@, now) == e@,
    {
        self.emit(Severity::Error, msg)
    }

    /// The name of the file that lines routed to `f` are appended to.
    pub fn log_name(&self, f: LogFile) -> (r: &str)
        ensures
            r@ == self@.name_of(f),
    {
        match f {
            LogFile::Info => self.info_log_name.as_str(),
            LogFile::Error => self.err_log_name.as_str(),
        }
    }

    pub fn info_log_name(&self) -> (r: &str)
        ensures
            r@ == self@.info_log_name,
    {
        self.info_log_name.as_str()
    }

    pub fn err_log_name(&self) -> (r: &str)
        ensures
            r@ == self@.err_log_name,
    {
        self.err_log_name.as_str()
    }

    /// The date of the current files, as it appears in their names.
    pub fn date(&self) -> (r: &str)
        ensures
            r@ == self@.date,
    {
        self.date.as_str()
    }

    /// The day of the month of the current files.
    pub fn day(&self) -> (r: u32)
        ensures
            r as nat == self@.day,
    {
        self.day
    }
}

} // verus!
