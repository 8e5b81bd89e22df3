//! Properties of the writer that span several calls.

use crate::line::{file_name_of, file_of, line_of, LogFile, Severity};
use crate::logger::{ClockView, LoggerView};
use vstd::prelude::*;

verus! {

/// Checking for rotation twice on the same day opens files at most once:
/// once the writer has rotated to a day, a call observing that day again
/// leaves the files as they are.
pub proof fn lemma_rotation_idempotent(l: LoggerView, day: nat, date: Seq<char>, later: ClockView)
    requires
        l.wf(),
        later.day == day,
    ensures
        ({
            let r = l.rotated(l.rotation_to(day, date));
            &&& r.wf()
            &&& !r.rotation_due(later.day)
            &&& forall|s: Severity, m: Seq<char>| (#[trigger] r.emission(s, m, later)).rotation is None
        }),
{
}

/// A writer whose stored day is `d` that observes another day reopens both
/// files under the new date, and the lines written after the rotation go to
/// those files, not to the old ones.
pub proof fn lemma_day_change(l: LoggerView, now: ClockView, s: Severity, m: Seq<char>)
    requires
        l.wf(),
        now.day != l.day,
    ensures
        ({
            let e = l.emission(s, m, now);
            let r = e.rotation->0;
            let after = l.rotated(r);
            &&& e.rotation is Some
            &&& r.info_log_name == file_name_of(l.info_log_prefix, now.date, l.log_extension)
            &&& r.err_log_name == file_name_of(l.err_log_prefix, now.date, l.log_extension)
            &&& after.wf()
            &&& after.day == now.day
            &&& after.info_log_name == r.info_log_name
            &&& after.err_log_name == r.err_log_name
            &&& after.name_of(e.file) == file_name_of(
                if s == Severity::Info { l.info_log_prefix } else { l.err_log_prefix },
                now.date,
                l.log_extension,
            )
        }),
{
}

/// Every call writes exactly one line, of the form
/// `[<time>] [<SEVERITY>]: <message>`, to the file and console stream of its
/// severity.
pub proof fn lemma_one_line_per_call(l: LoggerView, s: Severity, m: Seq<char>, now: ClockView)
    ensures
        ({
            let e = l.emission(s, m, now);
            &&& e.line == line_of(now.time, s, m)
            &&& e.file == file_of(s)
            &&& e.console == (if s == Severity::Info {
                crate::line::Console::Stdout
            } else {
                crate::line::Console::Stderr
            })
        }),
{
}

/// Warnings and errors are appended to the error file, informational lines
/// to the info file, and never the other way round.
pub proof fn lemma_routing(l: LoggerView, s: Severity, m: Seq<char>, now: ClockView)
    ensures
        (l.emission(s, m, now).file == LogFile::Error) <==> (s == Severity::Warning || s == Severity::Error),
        (l.emission(s, m, now).file == LogFile::Info) <==> (s == Severity::Info),
{
}

/// One logging call: its severity, its message and the clock it observed.
pub struct Call {
    pub severity: Severity,
    pub message: Seq<char>,
    pub now: ClockView,
}

/// The lines that a run of calls on writer `l` appends to the file `f`, in
/// the order of the calls.
pub open spec fn appended(l: LoggerView, calls: Seq<Call>, f: LogFile) -> Seq<Seq<char>>
    decreases calls.len(),
{
    if calls.len() == 0 {
        Seq::empty()
    } else {
        let c = calls.last();
        let e = l.emission(c.severity, c.message, c.now);
        let rest = appended(l, calls.drop_last(), f);
        if e.file == f {
            rest.push(e.line)
        } else {
            rest
        }
    }
}

pub open spec fn line_of_call(c: Call) -> Seq<char> {
    line_of(c.now.time, c.severity, c.message)
}

pub open spec fn is_info_call(c: Call) -> bool {
    c.severity == Severity::Info
}

pub open spec fn is_error_call(c: Call) -> bool {
    c.severity != Severity::Info
}

/// Over a run of calls on one day, the error file gains exactly the lines of
/// the warning and error calls, in call order, and the info file exactly the
/// lines of the informational calls, in call order; no call rotates.
pub proof fn lemma_run_routing(l: LoggerView, calls: Seq<Call>)
    requires
        l.wf(),
        forall|i: int| 0 <= i < calls.len() ==> (#[trigger] calls[i]).now.day == l.day,
    ensures
        forall|i: int| 0 <= i < calls.len() ==>
            (#[trigger] l.emission(calls[i].severity, calls[i].message, calls[i].now)).rotation is None,
        appended(l, calls, LogFile::Error) == calls.filter(|c: Call| is_error_call(c)).map_values(
            |c: Call| line_of_call(c),
        ),
        appended(l, calls, LogFile::Info) == calls.filter(|c: Call| is_info_call(c)).map_values(
            |c: Call| line_of_call(c),
        ),
    decreases calls.len(),
{
    reveal(Seq::filter);
    if calls.len() > 0 {
        let rest = calls.drop_last();
        assert forall|i: int| 0 <= i < rest.len() implies (#[trigger] rest[i]).now.day == l.day by {
            assert(rest[i] == calls[i]);
        }
        lemma_run_routing(l, rest);
        let ep = |c: Call| is_error_call(c);
        let ip = |c: Call| is_info_call(c);
        let lf = |c: Call| line_of_call(c);
        let c = calls.last();
        assert(rest.filter(ep).push(c).map_values(lf) =~= rest.filter(ep).map_values(lf).push(lf(c)));
        assert(rest.filter(ip).push(c).map_values(lf) =~= rest.filter(ip).map_values(lf).push(lf(c)));
    }
}

} // verus!
