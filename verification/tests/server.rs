use codex_scout::server::{
    not_started_text, outcome, timed_out_text, Exit, RunFault, SessionFault,
};
use codex_scout::session::{AppServerResult, CodexMetrics};

#[test]
fn only_an_exited_server_is_left_alone() {
    assert!(!Exit::Exited.must_kill());
    assert!(Exit::NotWaited.must_kill());
    assert!(Exit::StillRunning.must_kill());
}

#[test]
fn failures_of_the_process_are_worded() {
    assert_eq!(not_started_text("/opt/codex"), "could not start `/opt/codex`");
    assert_eq!(timed_out_text("scout", "0.05"), "scout timed out after 0.05s");
}

#[test]
fn a_result_stands_whatever_is_on_the_standard_error() {
    for stderr in [b"".as_slice(), b"warning\n"] {
        let done = AppServerResult {
            raw: "{}".to_string(),
            metrics: CodexMetrics { usage: None, tool_calls: 2 },
        };
        let result = outcome::<u8>("scout", Ok(done), stderr).unwrap();
        assert_eq!(result.raw, "{}");
        assert_eq!(result.metrics, CodexMetrics { usage: None, tool_calls: 2 });
    }
}

#[test]
fn an_error_is_reported_with_the_standard_error_if_there_is_any() {
    let fault = || SessionFault { error: 7u8, report: "bad line: no value".to_string() };
    assert!(matches!(
        outcome("scout", Err(fault()), b""),
        Err(RunFault::Session(7))
    ));
    match outcome("scout", Err(fault()), b"no  login\n") {
        Err(RunFault::Report(text)) => {
            assert_eq!(text, "bad line: no value; scout failed: no login")
        }
        _ => panic!("no report"),
    }
    match outcome("scout", Err(fault()), b" ") {
        Err(RunFault::Report(text)) => assert_eq!(text, "bad line: no value; scout failed"),
        _ => panic!("no report"),
    }
}
