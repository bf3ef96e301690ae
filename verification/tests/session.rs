use codex_scout::codec::{parse, render};
use codex_scout::json::Json;
use codex_scout::protocol::{initialized_notice, thread_start_request, turn_start_request};
use codex_scout::session::{AppServerResult, Progress, Session, SessionError};
use codex_scout::usage::TokenUsage;

fn open() -> Session {
    let (session, first) = Session::start("1.2.3", "/srv/repo", "find entry", None, "low");
    assert_eq!(
        render(first),
        "{\"id\":1,\"method\":\"initialize\",\"params\":{\"clientInfo\":{\"name\":\"repotracer\",\"version\":\"1.2.3\"}}}"
    );
    session
}

fn texts(messages: Vec<Json>) -> Vec<String> {
    messages.into_iter().map(render).collect()
}

/// Feeds a line that the session goes on after.
fn goes_on(session: Session, line: &str) -> (Session, Vec<String>) {
    match session.on_line(Some(line)) {
        Progress::Continue { session, send } => (session, texts(send)),
        Progress::Finished(_) => panic!("finished"),
        Progress::Failed(error) => panic!("{}", error.report()),
    }
}

fn fails(session: Session, line: Option<&str>) -> SessionError {
    match session.on_line(line) {
        Progress::Failed(error) => error,
        _ => panic!("did not fail"),
    }
}

fn finishes(session: Session, line: &str) -> AppServerResult {
    match session.on_line(Some(line)) {
        Progress::Finished(result) => result,
        _ => panic!("did not finish"),
    }
}

fn streaming() -> Session {
    let (session, _) = goes_on(open(), "{\"id\":1,\"result\":{}}");
    let (session, _) = goes_on(session, "{\"id\":2,\"result\":{\"thread\":{\"id\":\"t\"}}}");
    let (session, sent) = goes_on(session, "{\"id\":3,\"result\":null}");
    assert!(sent.is_empty());
    session
}

const DONE: &str = "{\"method\":\"turn/completed\",\"params\":{\"turn\":{\"status\":\"completed\"}}}";

#[test]
fn startup_reports_fatal_app_server_notifications() {
    let error = fails(
        open(),
        Some("{\"method\":\"error\",\"params\":{\"willRetry\":false,\"error\":{\"message\":\"sandbox failed\"}}}"),
    );
    assert!(error.message().contains("sandbox failed"));
}

#[test]
fn a_whole_conversation_is_held() {
    let (session, sent) = goes_on(
        open(),
        "{\"id\":1,\"result\":{\"userAgent\":\"fake\",\"codexHome\":\"/tmp\"}}",
    );
    assert_eq!(
        sent,
        vec![
            render(initialized_notice()),
            render(thread_start_request("/srv/repo", None)),
        ]
    );
    let (session, sent) = goes_on(session, "{\"id\":2,\"result\":{\"thread\":{\"id\":\"thread-1\"}}}");
    assert_eq!(sent, vec![render(turn_start_request("thread-1", "find entry", "low"))]);
    let lines = [
        "{\"id\":3,\"result\":{\"turn\":{\"id\":\"turn-1\",\"status\":\"inProgress\",\"items\":[]}}}",
        "{\"method\":\"item/completed\",\"params\":{\"item\":{\"type\":\"commandExecution\"},\"threadId\":\"thread-1\"}}",
        "{\"method\":\"item/completed\",\"params\":{\"item\":{\"type\":\"agentMessage\",\"text\":\"{\\\"answer\\\":\\\"found\\\"}\"}}}",
        "{\"method\":\"thread/tokenUsage/updated\",\"params\":{\"tokenUsage\":{\"last\":{\"inputTokens\":100,\"cachedInputTokens\":40,\"outputTokens\":20,\"reasoningOutputTokens\":5,\"totalTokens\":120}}}}",
    ];
    let mut session = session;
    for line in lines {
        let (after, sent) = goes_on(session, line);
        assert!(sent.is_empty());
        session = after;
    }
    assert_eq!(session.tool_calls(), 1);
    let result = finishes(
        session,
        "{\"method\":\"turn/completed\",\"params\":{\"threadId\":\"thread-1\",\"turn\":{\"id\":\"turn-1\",\"status\":\"completed\",\"items\":[]}}}",
    );
    assert_eq!(result.raw, "{\"answer\":\"found\"}");
    assert_eq!(result.metrics.tool_calls, 1);
    assert_eq!(
        result.metrics.usage,
        Some(TokenUsage {
            input_tokens: Some(100),
            cached_input_tokens: Some(40),
            output_tokens: Some(20),
            reasoning_output_tokens: Some(5),
        })
    );
}

#[test]
fn requests_are_written_out() {
    assert_eq!(render(initialized_notice()), "{\"method\":\"initialized\",\"params\":{}}");
    assert_eq!(
        render(thread_start_request("/srv/repo", Some("gpt-5"))),
        "{\"id\":2,\"method\":\"thread/start\",\"params\":{\"approvalPolicy\":\"on-request\",\"approvalsReviewer\":\"auto_review\",\"config\":{\"approval_policy\":\"on-request\",\"approvals_reviewer\":\"auto_review\",\"default_permissions\":\":workspace\",\"project_doc_max_bytes\":0},\"cwd\":\"/srv/repo\",\"developerInstructions\":\"RepoTracer repository scout. Never call MCP tools, apps, hooks, plugins, browser or computer-use tools, or delegate. Never edit files or use the network.\",\"ephemeral\":true,\"model\":\"gpt-5\",\"serviceTier\":\"default\"}}"
    );
    assert!(render(thread_start_request("/srv/repo", None)).contains("\"model\":null"));
    let turn = render(turn_start_request("t\"1", "a\nb", "high"));
    assert!(turn.starts_with(
        "{\"id\":3,\"method\":\"turn/start\",\"params\":{\"effort\":\"high\",\"input\":[{\"text\":\"a\\nb\",\"type\":\"text\"}],\"outputSchema\":{\"additionalProperties\":false,\"properties\":"
    ));
    assert!(turn.ends_with(
        "\"required\":[\"answer\",\"citations\"],\"type\":\"object\"},\"threadId\":\"t\\\"1\"}}"
    ));
}

#[test]
fn server_requests_are_rejected_under_their_id() {
    for id in ["7", "-3", "\"seven\"", "null", "1.5", "[1,{\"a\":2}]", "18446744073709551615"] {
        let line = format!("{{\"id\":{id},\"method\":\"applyPatchApproval\",\"params\":{{}}}}");
        let wanted = format!(
            "{{\"error\":{{\"code\":-32601,\"message\":\"RepoTracer does not accept server requests\"}},\"id\":{id}}}"
        );
        let (session, sent) = goes_on(open(), &line);
        assert_eq!(sent, vec![wanted.clone()]);
        let (_, sent) = goes_on(session, "{\"id\":1,\"result\":{}}");
        assert_eq!(sent.len(), 2);
        let (_, sent) = goes_on(streaming(), &line);
        assert_eq!(sent, vec![wanted]);
    }
}

#[test]
fn a_streamed_request_is_rejected_even_if_it_is_named_like_a_notice() {
    let (session, sent) = goes_on(
        streaming(),
        "{\"id\":1,\"method\":\"turn/completed\",\"params\":{\"turn\":{\"status\":\"completed\"}}}",
    );
    assert_eq!(sent.len(), 1);
    let (session, sent) = goes_on(session, "{\"id\":null,\"method\":\"error\"}");
    assert_eq!(sent.len(), 1);
    assert!(matches!(fails(session, Some(DONE)), SessionError::MissingOutput));
}

#[test]
fn unknown_messages_are_ignored() {
    for line in ["{}", "[]", "5", "\"id\"", "{\"id\":2}", "{\"id\":\"1\"}", "{\"method\":\"x\"}"] {
        let (session, sent) = goes_on(open(), line);
        assert!(sent.is_empty());
        let (_, sent) = goes_on(session, "{\"id\":1,\"result\":{}}");
        assert_eq!(sent.len(), 2);
    }
    for line in ["{}", "[]", "{\"id\":3,\"result\":{}}", "{\"method\":\"turn/started\"}"] {
        let (_, sent) = goes_on(streaming(), line);
        assert!(sent.is_empty());
    }
}

#[test]
fn answers_that_do_not_help_fail_the_session() {
    let error = fails(open(), Some("{\"id\":1,\"error\":{\"message\":\"no\"},\"result\":{}}"));
    assert_eq!(error.message(), "Codex app-server request failed: no");
    let error = fails(open(), Some("{\"id\":1,\"error\":null}"));
    assert_eq!(error.message(), "Codex app-server request failed: unknown error");
    let error = fails(open(), Some("{\"id\":1}"));
    assert_eq!(error.message(), "Codex app-server response had no result");
    let (session, _) = goes_on(open(), "{\"id\":1,\"result\":{}}");
    let error = fails(session, Some("{\"id\":2,\"result\":{\"thread\":{\"id\":4}}}"));
    assert_eq!(error.message(), "Codex app-server returned no thread id");
}

#[test]
fn errors_that_will_be_retried_are_waited_out() {
    let retried = "{\"method\":\"error\",\"params\":{\"willRetry\":true,\"error\":{\"message\":\"x\"}}}";
    let fatal = "{\"method\":\"error\"}";
    let (session, sent) = goes_on(open(), retried);
    assert!(sent.is_empty());
    assert_eq!(fails(session, Some(fatal)).message(), "Codex app-server request failed");
    let (session, sent) = goes_on(streaming(), retried);
    assert!(sent.is_empty());
    assert_eq!(fails(session, Some(fatal)).message(), "Codex app-server turn failed");
    assert_eq!(
        fails(
            streaming(),
            Some("{\"method\":\"error\",\"params\":{\"error\":{\"message\":\"quota\"}}}")
        )
        .message(),
        "quota"
    );
}

#[test]
fn the_end_of_the_output_fails_the_session() {
    assert_eq!(fails(open(), None).message(), "Codex app-server closed its output");
    assert_eq!(fails(streaming(), None).report(), "Codex app-server closed its output");
}

#[test]
fn a_line_that_is_no_json_fails_the_session() {
    let error = fails(open(), Some("{\"id\":"));
    assert_eq!(error.message(), "Codex app-server returned malformed JSON");
    assert_eq!(
        error.report(),
        "Codex app-server returned malformed JSON: EOF while parsing a value at line 1 column 6"
    );
}

#[test]
fn a_turn_that_is_not_completed_fails_the_session() {
    let line = "{\"method\":\"turn/completed\",\"params\":{\"turn\":{\"status\":\"failed\",\"error\":{\"message\":\"limit\"}}}}";
    assert_eq!(fails(streaming(), Some(line)).message(), "limit");
    let line = "{\"method\":\"turn/completed\"}";
    assert_eq!(fails(streaming(), Some(line)).message(), "Codex turn did not complete");
}

#[test]
fn the_answer_streamed_last_counts() {
    let mut session = streaming();
    for line in [
        "{\"method\":\"item/completed\",\"params\":{\"item\":{\"type\":\"agentMessage\",\"text\":\"one\"}}}",
        "{\"method\":\"item/completed\",\"params\":{\"item\":{\"type\":\"webSearch\"}}}",
        "{\"method\":\"item/completed\",\"params\":{\"item\":{\"type\":\"agentMessage\",\"text\":\"two\"}}}",
        "{\"method\":\"item/completed\",\"params\":{\"item\":{\"type\":\"agentMessage\",\"text\":3}}}",
        "{\"method\":\"item/completed\",\"params\":{\"item\":{\"type\":\"mcpToolCall\"}}}",
        "{\"method\":\"item/completed\",\"params\":{\"item\":{\"type\":\"reasoning\"}}}",
    ] {
        session = goes_on(session, line).0;
    }
    let result = finishes(
        session,
        "{\"method\":\"turn/completed\",\"params\":{\"turn\":{\"status\":\"completed\",\"items\":[{\"type\":\"agentMessage\",\"text\":\"listed\"}]}}}",
    );
    assert_eq!(result.raw, "two");
    assert_eq!(result.metrics.tool_calls, 2);
    assert_eq!(result.metrics.usage, None);
}

#[test]
fn a_turn_ends_only_after_it_was_started() {
    let early = "{\"method\":\"turn/completed\",\"params\":{\"turn\":{\"status\":\"completed\",\"items\":[{\"type\":\"agentMessage\",\"text\":\"early\"}]}}}";
    let call = "{\"method\":\"item/completed\",\"params\":{\"item\":{\"type\":\"commandExecution\"}}}";
    let (session, _) = goes_on(open(), early);
    let (session, _) = goes_on(session, "{\"id\":1,\"result\":{}}");
    let (session, _) = goes_on(session, early);
    let (session, _) = goes_on(session, call);
    let (session, _) = goes_on(session, "{\"id\":2,\"result\":{\"thread\":{\"id\":\"t\"}}}");
    let (session, _) = goes_on(session, early);
    let (session, _) = goes_on(session, "{\"id\":3,\"result\":{}}");
    assert_eq!(session.tool_calls(), 0);
    let (session, _) = goes_on(session, call);
    let result = finishes(session, early);
    assert_eq!(result.raw, "early");
    assert_eq!(result.metrics.tool_calls, 1);
}

#[test]
fn the_answer_listed_last_stands_in() {
    let line = "{\"method\":\"turn/completed\",\"params\":{\"turn\":{\"status\":\"completed\",\"items\":[{\"type\":\"agentMessage\",\"text\":\"a\"},{\"type\":\"agentMessage\",\"text\":\"b\"},{\"type\":\"reasoning\",\"text\":\"c\"}]}}}";
    assert_eq!(finishes(streaming(), line).raw, "b");
    let line = "{\"method\":\"turn/completed\",\"params\":{\"turn\":{\"status\":\"completed\",\"items\":[{\"type\":\"agentMessage\",\"text\":\"a\"},{\"type\":\"agentMessage\"}]}}}";
    let error = fails(streaming(), Some(line));
    assert_eq!(error.message(), "Codex app-server returned no structured result");
    assert!(matches!(fails(streaming(), Some(DONE)), SessionError::MissingOutput));
}

fn usage(text: &str) -> Option<TokenUsage> {
    TokenUsage::from_report(&parse(text).unwrap())
}

#[test]
fn usage_reports_are_read() {
    let none = TokenUsage {
        input_tokens: None,
        cached_input_tokens: None,
        output_tokens: None,
        reasoning_output_tokens: None,
    };
    assert_eq!(usage("{}"), Some(none));
    assert_eq!(usage("{\"inputTokens\":null,\"other\":[]}"), Some(none));
    assert_eq!(
        usage("{\"inputTokens\":4294967295,\"outputTokens\":0}"),
        Some(TokenUsage { input_tokens: Some(4294967295), output_tokens: Some(0), ..none })
    );
    assert_eq!(usage("{\"inputTokens\":4294967296}"), None);
    assert_eq!(usage("{\"inputTokens\":-1}"), None);
    assert_eq!(usage("{\"inputTokens\":1.0}"), None);
    assert_eq!(usage("{\"cachedInputTokens\":\"1\"}"), None);
    assert_eq!(usage("{\"reasoningOutputTokens\":true}"), None);
    assert_eq!(usage("[]"), Some(none));
    assert_eq!(
        usage("[1,null,3]"),
        Some(TokenUsage { input_tokens: Some(1), output_tokens: Some(3), ..none })
    );
    assert_eq!(usage("[1,2,3,4,5]"), None);
    assert_eq!(usage("[1,2,3,[]]"), None);
    assert_eq!(usage("null"), None);
    assert_eq!(usage("7"), None);
    assert_eq!(usage("2.5"), None);
}

#[test]
fn a_report_that_does_not_read_takes_the_last_one_back() {
    let session = streaming();
    let (session, _) = goes_on(
        session,
        "{\"method\":\"thread/tokenUsage/updated\",\"params\":{\"tokenUsage\":{\"last\":{\"inputTokens\":1}}}}",
    );
    let (session, _) = goes_on(session, "{\"method\":\"thread/tokenUsage/updated\"}");
    let (session, _) = goes_on(
        session,
        "{\"method\":\"item/completed\",\"params\":{\"item\":{\"type\":\"agentMessage\",\"text\":\"\"}}}",
    );
    let result = finishes(session, DONE);
    assert_eq!(result.raw, "");
    assert_eq!(result.metrics.usage, None);
}
