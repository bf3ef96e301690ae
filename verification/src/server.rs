//! The process of the app-server: what it is told, and what is said when it fails.

use crate::capture::{provider_error, provider_error_wording};
use crate::session::AppServerResult;
use crate::text::lossy_utf8;
use vstd::prelude::*;
use vstd::string::*;
use vstd::utf8::*;

verus! {

/// The variable that names the server's home.
pub const HOME_VARIABLE: &'static str = "CODEX_HOME";

/// The variable that marks the server as a scout's own.
pub const SUBPROCESS_VARIABLE: &'static str = "REPOTRACER_SUBPROCESS";

/// What that variable is set to.
pub const SUBPROCESS_VALUE: &'static str = "1";

/// How long the server may take to exit once its input is closed, in milliseconds.
pub const EXIT_GRACE_MILLIS: u64 = 250;

/// What came of waiting for the server to exit.
#[derive(Clone, Copy, Debug, PartialEq, Eq)]
pub enum Exit {
    Exited,
    NotWaited,
    StillRunning,
}

/// Whether the server is to be killed.
pub open spec fn is_to_be_killed(exit: Exit) -> bool {
    match exit {
        Exit::Exited => false,
        _ => true,
    }
}

impl Exit {
    /// Whether the server is to be killed: always, unless it is known to have exited.
    pub fn must_kill(&self) -> (kill: bool)
        ensures
            kill == is_to_be_killed(*self),
            kill == !(*self is Exited),
    {
        match self {
            Exit::Exited => false,
            _ => true,
        }
    }
}

/// What is said of a server that could not be started.
pub open spec fn not_started_wording(executable: Seq<char>) -> Seq<char> {
    "could not start `"@ + executable + "`"@
}

/// What is said of a session that took too long.
pub open spec fn timed_out_wording(label: Seq<char>, seconds: Seq<char>) -> Seq<char> {
    label + " timed out after "@ + seconds + "s"@
}

/// What a run comes to.
pub open spec fn comes_to<E>(
    label: Seq<char>,
    session: Result<AppServerResult, SessionFault<E>>,
    stderr: Seq<u8>,
    result: Result<AppServerResult, RunFault<E>>,
) -> bool {
    match session {
        Ok(done) => result == Ok::<AppServerResult, RunFault<E>>(done),
        Err(fault) => if stderr.len() == 0 {
            result == Err::<AppServerResult, RunFault<E>>(RunFault::Session(fault.error))
        } else {
            result matches Err(RunFault::Report(text)) && text@ == full_report(
                label,
                fault.report@,
                lossy_utf8(stderr),
            )
        },
    }
}

/// What is said of a server that could not be started.
pub fn not_started_text(executable: &str) -> (text: String)
    ensures
        text@ == not_started_wording(executable@),
        text@ == "could not start `"@ + executable@ + "`"@,
{
    "could not start `".to_string().concat(executable).concat("`")
}

/// What is said of a session that took too long; `seconds` is the limit as it is written out.
pub fn timed_out_text(label: &str, seconds: &str) -> (text: String)
    ensures
        text@ == timed_out_wording(label@, seconds@),
        text@ == label@ + " timed out after "@ + seconds@ + "s"@,
{
    label.to_string().concat(" timed out after ").concat(seconds).concat("s")
}

/// The report of a session that failed and of its standard error, which reads as `text`.
pub open spec fn full_report(label: Seq<char>, report: Seq<char>, text: Seq<char>) -> Seq<char> {
    report + "; "@ + provider_error_wording(label, text)
}

/// The report of a session that failed and of its standard error.
fn failure_report(label: &str, report: &str, stderr: &[u8]) -> (full: String)
    ensures
        full@ == full_report(label@, report@, lossy_utf8(stderr@)),
        valid_utf8(stderr@) ==> full@ == full_report(label@, report@, decode_utf8(stderr@)),
{
    report.to_string().concat("; ").concat(provider_error(label, stderr).as_str())
}

/// Why a session failed: an error, and its report with all causes.
#[derive(Debug)]
pub struct SessionFault<E> {
    pub error: E,
    pub report: String,
}

/// Why a run failed.
#[derive(Debug)]
pub enum RunFault<E> {
    /// The session's own error, as it came.
    Session(E),
    /// A report in its place, which has the standard error too.
    Report(String),
}

/// What a run comes to: the session's result, whatever is on the standard error; else the
/// session's error, and where there is anything on the standard error, a report of both.
pub fn outcome<E>(
    label: &str,
    session: Result<AppServerResult, SessionFault<E>>,
    stderr: &[u8],
) -> (result: Result<AppServerResult, RunFault<E>>)
    ensures
        comes_to(label@, session, stderr@, result),
        match session {
            Ok(done) => result == Ok::<AppServerResult, RunFault<E>>(done),
            Err(fault) => if stderr@.len() == 0 {
                result == Err::<AppServerResult, RunFault<E>>(RunFault::Session(fault.error))
            } else {
                result matches Err(RunFault::Report(text)) && text@ == full_report(
                    label@,
                    fault.report@,
                    lossy_utf8(stderr@),
                ) && (valid_utf8(stderr@) ==> text@ == full_report(
                    label@,
                    fault.report@,
                    decode_utf8(stderr@),
                ))
            },
        },
{
    match session {
        Ok(done) => Ok(done),
        Err(fault) => if stderr.len() == 0 {
            Err(RunFault::Session(fault.error))
        } else {
            Err(RunFault::Report(failure_report(label, fault.report.as_str(), stderr)))
        },
    }
}

/// No server is left running: one is killed unless it is known to have exited by itself.
pub proof fn no_server_is_left_running(exit: Exit)
    ensures
        is_to_be_killed(exit) <==> exit != Exit::Exited,
        EXIT_GRACE_MILLIS == 250,
        HOME_VARIABLE@ == "CODEX_HOME"@,
        SUBPROCESS_VARIABLE@ == "REPOTRACER_SUBPROCESS"@,
        SUBPROCESS_VALUE@ == "1"@,
{
}

/// A full report starts with the session's own, whole, and then says who failed.
pub proof fn a_full_report_has_both_parts(label: Seq<char>, report: Seq<char>, text: Seq<char>)
    ensures
        report.is_prefix_of(full_report(label, report, text)),
        (report + "; "@ + label + " failed"@).is_prefix_of(full_report(label, report, text)),
        provider_error_wording(label, text).is_suffix_of(full_report(label, report, text)),
{
    let full = full_report(label, report, text);
    let tail = provider_error_wording(label, text);
    let n = full.len() as int;
    assert(report == full.subrange(0, report.len() as int));
    assert(tail == full.subrange(n - tail.len(), n));
    reveal_strlit(" failed");
    reveal_strlit(" failed: ");
    assert(" failed"@.len() == 7);
    assert(" failed: "@.len() == 9);
    crate::capture::a_report_says_what_was_written(label, text);
    let start = report + "; "@ + label + " failed"@;
    assert(" failed: "@.take(7) == " failed"@);
    assert(start == full.subrange(0, start.len() as int)) by {
        assert forall|i: int| 0 <= i < start.len() implies start[i] == full[i] by {
            let k = i - (report + "; "@ + label).len();
            if k >= 0 {
                assert(start[i] == " failed"@[k]);
                assert(" failed: "@.take(7)[k] == " failed"@[k]);
            }
        }
    }
}

/// A session's result stands as it is, whatever is on the standard error. An error stands as it is
/// where nothing is there; else a report takes its place that has both, whole. A run never comes to
/// a result where the session failed, nor to an error where it did not.
pub proof fn a_result_stands_and_an_error_is_told_in_full<E>(
    label: Seq<char>,
    session: Result<AppServerResult, SessionFault<E>>,
    stderr: Seq<u8>,
    result: Result<AppServerResult, RunFault<E>>,
)
    requires
        comes_to(label, session, stderr, result),
    ensures
        session is Ok <==> result is Ok,
        session matches Ok(done) ==> result->Ok_0 == done,
        session matches Err(fault) ==> {
            &&& stderr.len() == 0 ==> result->Err_0 == RunFault::Session(fault.error)
            &&& stderr.len() > 0 ==> (result->Err_0 matches RunFault::Report(text)
                && fault.report@.is_prefix_of(text@) && text@ == fault.report@ + "; "@
                + provider_error_wording(label, lossy_utf8(stderr)))
        },
{
    if let Err(fault) = session {
        a_full_report_has_both_parts(label, fault.report@, lossy_utf8(stderr));
    }
}

/// A server that did not start is named, and a session that took too long is told with its limit.
pub proof fn what_did_not_come_about_is_named(
    executable: Seq<char>,
    label: Seq<char>,
    seconds: Seq<char>,
)
    ensures
        not_started_wording(executable) == "could not start `"@ + executable + "`"@,
        timed_out_wording(label, seconds) == label + " timed out after "@ + seconds + "s"@,
{
}

} // verus!
