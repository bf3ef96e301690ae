use codex_scout::git::GitSnapshot;
use codex_scout::run::{
    advance, probe_verdict, Citation, Event, RunError, RunFailure, RunProgress, ScoutResult, Stage,
    StructuredOutput,
};
use codex_scout::scout::{CliScout, ModelSettings, RepoTracerConfig, ScoutRequest};
use codex_scout::session::{AppServerResult, CodexMetrics};
use codex_scout::usage::TokenUsage;

fn scout(model: &str) -> CliScout {
    CliScout::from_config(&RepoTracerConfig {
        model: ModelSettings {
            backend: "codex-cli".to_string(),
            executable: None,
            model: model.to_string(),
            reasoning_effort: "low".to_string(),
            timeout_ms: 2_000,
        },
    })
    .unwrap()
}

fn request() -> ScoutRequest {
    ScoutRequest {
        query: "find entry".to_string(),
        root: "/srv/repository".to_string(),
        focus: None,
        max_turns: None,
        timeout_nanos: None,
    }
}

fn snapshot(status: u8) -> GitSnapshot {
    GitSnapshot { status: vec![status], unstaged_diff: vec![], staged_diff: vec![] }
}

fn response(tool_calls: u32, usage: Option<TokenUsage>) -> AppServerResult {
    AppServerResult { raw: "{}".to_string(), metrics: CodexMetrics { usage, tool_calls } }
}

fn citation() -> Citation {
    Citation {
        path: "source.rs".to_string(),
        start_line: 1,
        end_line: 1,
        reason: "entry".to_string(),
    }
}

fn answer(text: &str, citations: Vec<Citation>) -> StructuredOutput {
    StructuredOutput { answer: text.to_string(), citations }
}

type Step = RunProgress<String>;

fn step(stage: Stage<String>, event: Event<String>) -> Step {
    advance(&scout("default"), &request(), stage, event)
}

fn stage_of(progress: Step) -> Stage<String> {
    match progress {
        RunProgress::Continue(stage) => stage,
        _ => panic!("ended"),
    }
}

fn error_of(progress: Step) -> RunError {
    match progress {
        RunProgress::Failed(RunFailure::Run(error)) => error,
        _ => panic!("no error of the run"),
    }
}

fn outside_of(progress: Step) -> String {
    match progress {
        RunProgress::Failed(RunFailure::Outside(error)) => error,
        _ => panic!("no outside error"),
    }
}

fn result_of(progress: Step) -> ScoutResult {
    match progress {
        RunProgress::Finished(result) => result,
        _ => panic!("not finished"),
    }
}

fn whole_run(before: Option<GitSnapshot>, after: Option<GitSnapshot>) -> Step {
    let stage = stage_of(step(Stage::Open, Event::Root { is_dir: true }));
    let stage = stage_of(step(stage, Event::Captured(Ok(before))));
    let usage = TokenUsage {
        input_tokens: Some(100),
        cached_input_tokens: Some(40),
        output_tokens: Some(20),
        reasoning_output_tokens: Some(5),
    };
    let mut progress = step(stage, Event::Served(Ok(response(1, Some(usage)))));
    if matches!(progress, RunProgress::Continue(Stage::CaptureAfter { .. })) {
        progress = step(stage_of(progress), Event::Captured(Ok(after)));
    }
    let stage = match progress {
        RunProgress::Continue(stage) => stage,
        end => return end,
    };
    let decoded = Ok(answer(" found\n", vec![citation()]));
    let stage = stage_of(step(stage, Event::Decoded(decoded)));
    step(stage, Event::Validated { citations: vec![citation()], elapsed_ms: 1_500 })
}

#[test]
fn a_clean_run_is_reported() {
    for (before, after) in [(None, None), (Some(snapshot(1)), Some(snapshot(1)))] {
        let result = result_of(whole_run(before, after));
        assert_eq!(result.summary, "found");
        assert_eq!(result.citations[0].path, "source.rs");
        assert_eq!(result.stats.turns, 2);
        assert_eq!(result.stats.tool_calls, 1);
        assert_eq!(result.stats.duration_ms, 1_500);
        assert_eq!(result.stats.model, "GPT scout via Codex CLI");
        assert_eq!(result.stats.prompt_tokens, Some(100));
        assert_eq!(result.stats.cached_prompt_tokens, Some(40));
        assert_eq!(result.stats.completion_tokens, Some(20));
        assert_eq!(result.stats.reasoning_output_tokens, Some(5));
        assert_eq!(result.raw_final, Some("{}".to_string()));
        assert!(probe_verdict(&result).is_ok());
    }
}

#[test]
fn a_changed_repository_discards_the_result() {
    for after in [Some(snapshot(2)), None] {
        let error = error_of(whole_run(Some(snapshot(1)), after));
        assert!(matches!(error, RunError::RepositoryChanged));
        assert!(error.message().contains("changed Git-visible repository state"));
    }
    let stage = Stage::CaptureAfter {
        earlier: snapshot(1),
        outcome: Err("timed out".to_string()),
    };
    let error = error_of(step(stage, Event::Captured(Ok(Some(snapshot(2))))));
    assert!(matches!(error, RunError::RepositoryChanged));
}

#[test]
fn outside_errors_end_the_run() {
    assert_eq!(
        outside_of(step(Stage::CaptureBefore, Event::Captured(Err("no git".to_string())))),
        "no git"
    );
    assert_eq!(
        outside_of(step(Stage::Serve { before: None }, Event::Served(Err("gone".to_string())))),
        "gone"
    );
    let failed = || Stage::CaptureAfter { earlier: snapshot(1), outcome: Err("gone".to_string()) };
    assert_eq!(outside_of(step(failed(), Event::Captured(Ok(Some(snapshot(1)))))), "gone");
    assert_eq!(outside_of(step(failed(), Event::Captured(Err("no git".to_string())))), "no git");
}

#[test]
fn errors_of_the_run_are_worded() {
    let error = error_of(step(Stage::Open, Event::Root { is_dir: false }));
    assert_eq!(error.message(), "repository root does not exist: /srv/repository");
    let stage = Stage::Decode { response: response(0, None) };
    let error = error_of(step(stage, Event::Decoded(Err("expected value".to_string()))));
    assert_eq!(error.message(), "Codex returned malformed structured output");
    assert!(matches!(error, RunError::MalformedOutput(cause) if cause == "expected value"));
    let stage = Stage::Validate {
        response: response(0, None),
        structured: answer("x", vec![citation()]),
    };
    let error = error_of(step(stage, Event::Validated { citations: vec![], elapsed_ms: 0 }));
    assert_eq!(error.message(), "GPT scout via Codex CLI returned only invalid citations");
}

#[test]
fn an_answer_without_citations_counts_but_not_for_a_probe() {
    let stage = Stage::Validate { response: response(u32::MAX, None), structured: answer("x", vec![]) };
    let event = Event::Validated { citations: vec![], elapsed_ms: (1 << 64) + 3 };
    let result = match advance::<String>(&scout("gpt-5"), &request(), stage, event) {
        RunProgress::Finished(result) => result,
        _ => panic!("not finished"),
    };
    assert_eq!(result.stats.turns, u32::MAX);
    assert_eq!(result.stats.duration_ms, 3);
    assert_eq!(result.stats.model, "GPT scout via Codex CLI (gpt-5)");
    assert_eq!(result.stats.prompt_tokens, None);
    assert_eq!(
        probe_verdict(&result).err().unwrap().message(),
        "GPT scout via Codex CLI returned no valid citation"
    );
}

#[test]
fn the_summary_is_cut_to_its_size() {
    let stage = Stage::Validate {
        response: response(0, None),
        structured: answer(&format!("  {}", "\u{20ac}".repeat(1_001)), vec![]),
    };
    let result = result_of(step(stage, Event::Validated { citations: vec![], elapsed_ms: 0 }));
    assert_eq!(result.summary, "\u{20ac}".repeat(1_000));
}
