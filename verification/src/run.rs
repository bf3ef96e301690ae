//! A scouting run: from the request to a result that counts.
//!
//! A run is told what came of each outside step and says which is next: the repository's state is
//! captured, the app-server answers, the state is captured again, the answer is decoded, and its
//! citations are checked against the repository. A result counts only if all of that went well and
//! the repository was left as it was.

use crate::git::{is_unchanged, snapshot_view, GitSnapshot, RepositoryChanged};
use crate::scout::{CliScout, ScoutRequest, ScoutSettings, GPT_SCOUT_LABEL};
use crate::session::AppServerResult;
use crate::text::{trim, trimmed, truncate_utf8, truncated};
use crate::usage::TokenUsage;
use vstd::prelude::*;
use vstd::string::*;

verus! {

/// How many bytes of the answer are kept as the summary.
pub const MAX_SUMMARY_BYTES: usize = 3_000;

/// A range of lines of a file, and why it is cited.
#[derive(Debug, PartialEq, Eq)]
pub struct Citation {
    pub path: String,
    pub start_line: u64,
    pub end_line: u64,
    pub reason: String,
}

/// The answer, decoded.
#[derive(Debug)]
pub struct StructuredOutput {
    pub answer: String,
    pub citations: Vec<Citation>,
}

/// What a run took.
#[derive(Debug)]
pub struct ScoutStats {
    pub turns: u32,
    pub tool_calls: u32,
    pub duration_ms: u64,
    pub model: String,
    pub prompt_tokens: Option<u32>,
    pub cached_prompt_tokens: Option<u32>,
    pub completion_tokens: Option<u32>,
    pub reasoning_output_tokens: Option<u32>,
}

/// What a run found.
#[derive(Debug)]
pub struct ScoutResult {
    pub summary: String,
    pub citations: Vec<Citation>,
    pub stats: ScoutStats,
    /// The answer as it was given.
    pub raw_final: Option<String>,
}

/// Why a run fails of itself.
#[derive(Debug)]
pub enum RunError {
    /// The root is no directory.
    MissingRoot(String),
    /// The repository was not left as it was.
    RepositoryChanged,
    /// The answer does not decode; the text is the decoder's wording.
    MalformedOutput(String),
    /// There were citations, and none of them holds.
    OnlyInvalidCitations,
    /// A probe was answered without a citation that holds.
    NoValidCitation,
}

impl RunError {
    /// The wording of the error.
    pub open spec fn wording(&self) -> Seq<char> {
        match *self {
            RunError::MissingRoot(root) => "repository root does not exist: "@ + root@,
            RunError::RepositoryChanged =>
                "Codex repository scout changed Git-visible repository state; result discarded"@,
            RunError::MalformedOutput(_) => "Codex returned malformed structured output"@,
            RunError::OnlyInvalidCitations => GPT_SCOUT_LABEL@ + " returned only invalid citations"@,
            RunError::NoValidCitation => GPT_SCOUT_LABEL@ + " returned no valid citation"@,
        }
    }

    /// The wording of the error.
    pub fn message(&self) -> (text: String)
        ensures
            text@ == self.wording(),
    {
        match self {
            RunError::MissingRoot(root) => "repository root does not exist: ".to_string().concat(
                root.as_str(),
            ),
            RunError::RepositoryChanged => RepositoryChanged.message().to_string(),
            RunError::MalformedOutput(_) =>
                "Codex returned malformed structured output".to_string(),
            RunError::OnlyInvalidCitations => GPT_SCOUT_LABEL.to_string().concat(
                " returned only invalid citations",
            ),
            RunError::NoValidCitation => GPT_SCOUT_LABEL.to_string().concat(
                " returned no valid citation",
            ),
        }
    }
}

/// How the model is named in the statistics.
pub open spec fn model_name(settings: ScoutSettings) -> Seq<char> {
    match settings.model {
        Some(name) => GPT_SCOUT_LABEL@ + " ("@ + name + ")"@,
        None => GPT_SCOUT_LABEL@,
    }
}

/// A count of the usage, where one was reported.
pub open spec fn reported(
    usage: Option<TokenUsage>,
    count: spec_fn(TokenUsage) -> Option<u32>,
) -> Option<u32> {
    match usage {
        Some(u) => count(u),
        None => None,
    }
}

/// One more than the tool calls, as far as 32 bits hold it.
pub open spec fn turns_of(tool_calls: u32) -> u32 {
    if tool_calls < u32::MAX {
        (tool_calls + 1) as u32
    } else {
        u32::MAX
    }
}

/// The statistics are those of the session, the clock and the settings.
pub open spec fn sums_up(
    stats: ScoutStats,
    settings: ScoutSettings,
    response: AppServerResult,
    elapsed_ms: u128,
) -> bool {
    let usage = response.metrics.usage;
    &&& stats.tool_calls == response.metrics.tool_calls
    &&& stats.turns == turns_of(response.metrics.tool_calls)
    &&& stats.duration_ms == elapsed_ms % 0x1_0000_0000_0000_0000
    &&& stats.model@ == model_name(settings)
    &&& stats.prompt_tokens == reported(usage, |u: TokenUsage| u.input_tokens)
    &&& stats.cached_prompt_tokens == reported(usage, |u: TokenUsage| u.cached_input_tokens)
    &&& stats.completion_tokens == reported(usage, |u: TokenUsage| u.output_tokens)
    &&& stats.reasoning_output_tokens == reported(
        usage,
        |u: TokenUsage| u.reasoning_output_tokens,
    )
}

/// The result is what was answered: the answer, trimmed and cut to the summary's size, the
/// citations that hold, the statistics, and the answer as it was given.
pub open spec fn reports(
    result: ScoutResult,
    settings: ScoutSettings,
    response: AppServerResult,
    structured: StructuredOutput,
    citations: Vec<Citation>,
    elapsed_ms: u128,
) -> bool {
    &&& result.summary@ == truncated(trimmed(structured.answer@), MAX_SUMMARY_BYTES as nat)
    &&& result.citations == citations
    &&& sums_up(result.stats, settings, response, elapsed_ms)
    &&& result.raw_final matches Some(raw) && raw@ == response.raw@
}

/// Puts the result together, unless there were citations and none of them holds.
pub fn conclude(
    scout: &CliScout,
    response: AppServerResult,
    structured: StructuredOutput,
    citations: Vec<Citation>,
    elapsed_ms: u128,
) -> (result: Result<ScoutResult, RunError>)
    ensures
        match result {
            Ok(found) => {
                &&& structured.citations@.len() == 0 || citations@.len() > 0
                &&& reports(found, scout@, response, structured, citations, elapsed_ms)
                &&& found.citations@.len() == citations@.len()
                &&& forall|i: int|
                    0 <= i < citations@.len() ==> #[trigger] found.citations@[i] == citations@[i]
                &&& found.summary@ == truncated(trimmed(structured.answer@), 3_000)
                &&& found.raw_final is Some
                &&& found.raw_final->0@ == response.raw@
            },
            Err(error) => {
                &&& structured.citations@.len() > 0
                &&& citations@.len() == 0
                &&& error is OnlyInvalidCitations
            },
        },
{
    if structured.citations.len() > 0 && citations.len() == 0 {
        return Err(RunError::OnlyInvalidCitations);
    }
    let metrics = response.metrics;
    let (input, cached, output, reasoning) = match metrics.usage {
        Some(usage) => (
            usage.input_tokens,
            usage.cached_input_tokens,
            usage.output_tokens,
            usage.reasoning_output_tokens,
        ),
        None => (None, None, None, None),
    };
    let model = match scout.model() {
        Some(name) => scout.label().to_string().concat(" (").concat(name).concat(")"),
        None => scout.label().to_string(),
    };
    let stats = ScoutStats {
        turns: metrics.tool_calls.saturating_add(1),
        tool_calls: metrics.tool_calls,
        duration_ms: low_bits(elapsed_ms),
        model,
        prompt_tokens: input,
        cached_prompt_tokens: cached,
        completion_tokens: output,
        reasoning_output_tokens: reasoning,
    };
    Ok(
        ScoutResult {
            summary: truncate_utf8(trim(structured.answer.as_str()), MAX_SUMMARY_BYTES),
            citations,
            stats,
            raw_final: Some(response.raw),
        },
    )
}

/// The lower 64 bits of a number.
fn low_bits(n: u128) -> (low: u64)
    ensures
        low == n % 0x1_0000_0000_0000_0000,
{
    (n % 0x1_0000_0000_0000_0000) as u64
}

/// A probe went well that came to these citations.
pub open spec fn passes_probe(citations: Seq<Citation>) -> bool {
    citations.len() > 0
}

/// A probe went well if its result has a citation that holds.
pub fn probe_verdict(result: &ScoutResult) -> (verdict: Result<(), RunError>)
    ensures
        verdict is Ok <==> passes_probe(result.citations@),
        verdict matches Err(error) ==> error is NoValidCitation,
        match verdict {
            Ok(_) => result.citations@.len() > 0,
            Err(error) => result.citations@.len() == 0 && error is NoValidCitation,
        },
{
    if result.citations.len() == 0 {
        Err(RunError::NoValidCitation)
    } else {
        Ok(())
    }
}

/// How far a run has got. `E` is what an outside step reports when it fails.
#[derive(Debug)]
pub enum Stage<E> {
    /// The root is to be looked at.
    Open,
    /// The repository's state is to be captured.
    CaptureBefore,
    /// The app-server is to answer.
    Serve { before: Option<GitSnapshot> },
    /// The repository's state is to be captured again.
    CaptureAfter { earlier: GitSnapshot, outcome: Result<AppServerResult, E> },
    /// The answer is to be decoded.
    Decode { response: AppServerResult },
    /// The citations are to be checked.
    Validate { response: AppServerResult, structured: StructuredOutput },
}

/// What came of an outside step.
#[derive(Debug)]
pub enum Event<E> {
    Root { is_dir: bool },
    Captured(Result<Option<GitSnapshot>, E>),
    Served(Result<AppServerResult, E>),
    Decoded(Result<StructuredOutput, String>),
    Validated { citations: Vec<Citation>, elapsed_ms: u128 },
}

/// Why a run failed: of itself, or with an outside step.
#[derive(Debug)]
pub enum RunFailure<E> {
    Run(RunError),
    Outside(E),
}

/// What comes of an event.
#[derive(Debug)]
pub enum RunProgress<E> {
    /// The next outside step is the one that the stage says.
    Continue(Stage<E>),
    Finished(ScoutResult),
    Failed(RunFailure<E>),
}

/// The event is what the stage waits for.
pub open spec fn fits<E>(stage: Stage<E>, event: Event<E>) -> bool {
    match stage {
        Stage::Open => event is Root,
        Stage::CaptureBefore => event is Captured,
        Stage::Serve { .. } => event is Served,
        Stage::CaptureAfter { .. } => event is Captured,
        Stage::Decode { .. } => event is Decoded,
        Stage::Validate { .. } => event is Validated,
    }
}

/// What follows once the repository was left as it was: the answer counts, or else the error.
pub open spec fn settled<E>(response: Result<AppServerResult, E>) -> RunProgress<E> {
    match response {
        Ok(result) => RunProgress::Continue(Stage::Decode { response: result }),
        Err(error) => RunProgress::Failed(RunFailure::Outside(error)),
    }
}

/// What comes of an event that the stage waits for.
pub open spec fn follows<E>(
    settings: ScoutSettings,
    root: Seq<char>,
    stage: Stage<E>,
    event: Event<E>,
    progress: RunProgress<E>,
) -> bool {
    match (stage, event) {
        (Stage::Open, Event::Root { is_dir }) => if is_dir {
            progress == RunProgress::Continue(Stage::<E>::CaptureBefore)
        } else {
            progress matches RunProgress::Failed(RunFailure::Run(RunError::MissingRoot(path)))
                && path@ == root
        },
        (Stage::CaptureBefore, Event::Captured(Ok(before))) => progress == RunProgress::Continue(
            Stage::<E>::Serve { before },
        ),
        (Stage::CaptureBefore, Event::Captured(Err(error))) => progress == RunProgress::Failed(
            RunFailure::Outside(error),
        ),
        // Where nothing was captured, nothing is compared.
        (Stage::Serve { before: None }, Event::Served(response)) => progress == settled(response),
        (Stage::Serve { before: Some(before) }, Event::Served(response)) => progress
            == RunProgress::Continue(
            Stage::CaptureAfter { earlier: before, outcome: response },
        ),
        (Stage::CaptureAfter { .. }, Event::Captured(Err(error))) => progress
            == RunProgress::Failed(RunFailure::Outside(error)),
        // A change outweighs whatever the app-server answered.
        (Stage::CaptureAfter { earlier, outcome }, Event::Captured(Ok(after))) => if is_unchanged(
            Some(earlier@),
            snapshot_view(after),
        ) {
            progress == settled(outcome)
        } else {
            progress matches RunProgress::Failed(RunFailure::Run(RunError::RepositoryChanged))
        },
        (Stage::Decode { response }, Event::Decoded(Ok(structured))) => progress
            == RunProgress::Continue(Stage::<E>::Validate { response, structured }),
        (Stage::Decode { .. }, Event::Decoded(Err(wording))) => progress matches RunProgress::Failed(
            RunFailure::Run(RunError::MalformedOutput(text)),
        ) && text@ == wording@,
        (Stage::Validate { response, structured }, Event::Validated { citations, elapsed_ms }) =>
            if structured.citations@.len() > 0 && citations@.len() == 0 {
                progress matches RunProgress::Failed(
                    RunFailure::Run(RunError::OnlyInvalidCitations),
                )
            } else {
                progress matches RunProgress::Finished(result) && reports(
                    result,
                    settings,
                    response,
                    structured,
                    citations,
                    elapsed_ms,
                )
            },
        _ => true,
    }
}

fn settle<E>(response: Result<AppServerResult, E>) -> (progress: RunProgress<E>)
    ensures
        progress == settled(response),
{
    match response {
        Ok(result) => RunProgress::Continue(Stage::Decode { response: result }),
        Err(error) => RunProgress::Failed(RunFailure::Outside(error)),
    }
}

/// Takes a run on by what came of the outside step that its stage waits for.
pub fn advance<E>(
    scout: &CliScout,
    request: &ScoutRequest,
    stage: Stage<E>,
    event: Event<E>,
) -> (progress: RunProgress<E>)
    requires
        fits(stage, event),
    ensures
        follows(scout@, request.root@, stage, event, progress),
{
    match (stage, event) {
        (Stage::Open, Event::Root { is_dir }) => if is_dir {
            RunProgress::Continue(Stage::CaptureBefore)
        } else {
            RunProgress::Failed(RunFailure::Run(RunError::MissingRoot(request.root.clone())))
        },
        (Stage::CaptureBefore, Event::Captured(captured)) => match captured {
            Ok(before) => RunProgress::Continue(Stage::Serve { before }),
            Err(error) => RunProgress::Failed(RunFailure::Outside(error)),
        },
        (Stage::Serve { before }, Event::Served(response)) => match before {
            Some(before) => RunProgress::Continue(
            Stage::CaptureAfter { earlier: before, outcome: response },
        ),
            None => settle(response),
        },
        (Stage::CaptureAfter { earlier, outcome }, Event::Captured(captured)) => match captured {
            Ok(after) => match GitSnapshot::ensure_unchanged(&Some(earlier), &after) {
                Ok(_) => settle(outcome),
                Err(_) => RunProgress::Failed(RunFailure::Run(RunError::RepositoryChanged)),
            },
            Err(error) => RunProgress::Failed(RunFailure::Outside(error)),
        },
        (Stage::Decode { response }, Event::Decoded(decoded)) => match decoded {
            Ok(structured) => RunProgress::Continue(Stage::Validate { response, structured }),
            Err(wording) => RunProgress::Failed(
                RunFailure::Run(RunError::MalformedOutput(wording)),
            ),
        },
        (Stage::Validate { response, structured }, Event::Validated { citations, elapsed_ms }) => {
            match conclude(scout, response, structured, citations, elapsed_ms) {
                Ok(result) => RunProgress::Finished(result),
                Err(error) => RunProgress::Failed(RunFailure::Run(error)),
            }
        },
        // No event fits here.
        (stage, _) => RunProgress::Continue(stage),
    }
}

/// The stages of a run and what came of each: the first stage is the opening, and each of the
/// others follows from the one before it.
pub open spec fn is_run<E>(
    settings: ScoutSettings,
    root: Seq<char>,
    stages: Seq<Stage<E>>,
    events: Seq<Event<E>>,
) -> bool {
    &&& stages.len() == events.len()
    &&& stages.len() > 0
    &&& stages[0] is Open
    &&& forall|i: int|
        0 <= i < stages.len() ==> fits(#[trigger] stages[i], events[i]) && (i + 1 < stages.len()
            ==> follows(
            settings,
            root,
            stages[i],
            events[i],
            RunProgress::Continue(stages[i + 1]),
        ))
}

/// The app-server answered at this point of the run.
pub open spec fn answers<E>(event: Event<E>, response: AppServerResult) -> bool {
    event matches Event::Served(Ok(given)) && given == response
}

/// The answer was decoded at this point of the run.
pub open spec fn decodes<E>(event: Event<E>, structured: StructuredOutput) -> bool {
    event matches Event::Decoded(Ok(given)) && given == structured
}

/// At this point of the run the repository was found as it had been, or nothing was there to
/// compare.
pub open spec fn clears<E>(stage: Stage<E>, event: Event<E>) -> bool {
    match (stage, event) {
        (Stage::CaptureAfter { earlier, .. }, Event::Captured(Ok(after))) => is_unchanged(
            Some(earlier@),
            snapshot_view(after),
        ),
        (Stage::CaptureBefore, Event::Captured(Ok(before))) => before is None,
        _ => false,
    }
}

/// A run finishes only if the repository was left as it was, and then its result reports what the
/// app-server answered.
pub proof fn only_clean_runs_finish<E>(
    settings: ScoutSettings,
    root: Seq<char>,
    stages: Seq<Stage<E>>,
    events: Seq<Event<E>>,
    result: ScoutResult,
)
    requires
        is_run(settings, root, stages, events),
        follows(settings, root, stages.last(), events.last(), RunProgress::Finished(result)),
    ensures
        exists|i: int| 0 <= i < stages.len() && clears(#[trigger] stages[i], events[i]),
        exists|i: int, response: AppServerResult|
            0 <= i < events.len() && #[trigger] answers(events[i], response)
                && result.raw_final is Some && result.raw_final->0@ == response.raw@
                && result.stats.tool_calls == response.metrics.tool_calls,
        exists|i: int, structured: StructuredOutput|
            0 <= i < events.len() && #[trigger] decodes(events[i], structured) && result.summary@
                == truncated(trimmed(structured.answer@), 3_000) && (
            structured.citations@.len() > 0 ==> result.citations@.len() > 0),
        events.last() matches Event::Validated { citations, elapsed_ms }
            && result.citations@.len() == citations@.len() && forall|i: int|
            0 <= i < citations@.len() ==> #[trigger] result.citations@[i] == citations@[i],
{
    let n = stages.len() - 1;
    assert(fits(stages[n], events[n]));
    assert(stages[n] is Validate);
    let response = stages[n]->Validate_response;
    assert(fits(stages[n - 1], events[n - 1]));
    assert(stages[n - 1] is Decode && stages[n - 1]->Decode_response == response);
    assert(decodes(events[n - 1], stages[n]->structured));
    assert(fits(stages[n - 2], events[n - 2]));
    if stages[n - 2] is CaptureAfter {
        assert(clears(stages[n - 2], events[n - 2]));
        assert(fits(stages[n - 3], events[n - 3]));
        assert(answers(events[n - 3], response));
    } else {
        assert(stages[n - 2] is Serve);
        assert(answers(events[n - 2], response));
        assert(fits(stages[n - 3], events[n - 3]));
        assert(clears(stages[n - 3], events[n - 3]));
    }
}

/// A repository that was not left as it was is the end of the run, whatever was answered.
pub proof fn a_change_is_never_overlooked<E>(
    settings: ScoutSettings,
    root: Seq<char>,
    before: GitSnapshot,
    response: Result<AppServerResult, E>,
    after: Option<GitSnapshot>,
    progress: RunProgress<E>,
)
    requires
        snapshot_view(after) != Some(before@),
        follows(
            settings,
            root,
            Stage::CaptureAfter { earlier: before, outcome: response },
            Event::Captured(Ok(after)),
            progress,
        ),
    ensures
        progress matches RunProgress::Failed(RunFailure::Run(RunError::RepositoryChanged)),
{
}

/// The summary of a result is never longer than it may be.
pub proof fn summaries_are_short(
    result: ScoutResult,
    settings: ScoutSettings,
    response: AppServerResult,
    structured: StructuredOutput,
    citations: Vec<Citation>,
    elapsed_ms: u128,
)
    requires
        reports(result, settings, response, structured, citations, elapsed_ms),
    ensures
        vstd::utf8::encode_utf8(result.summary@).len() <= MAX_SUMMARY_BYTES,
{
    crate::text::truncation_fits(trimmed(structured.answer@), MAX_SUMMARY_BYTES as nat);
}

/// What a finished result holds: every citation that was validated, as many and in the same order;
/// the answer, trimmed and cut to 3000 bytes; the answer as it was given; one turn more than tool
/// calls; the time; the model; and each count of the usage under its own name. The result is
/// refused if and only if there were citations and none of them holds.
pub proof fn a_result_holds_what_was_found<E>(
    settings: ScoutSettings,
    root: Seq<char>,
    response: AppServerResult,
    structured: StructuredOutput,
    citations: Vec<Citation>,
    elapsed_ms: u128,
    progress: RunProgress<E>,
)
    requires
        follows(
            settings,
            root,
            Stage::Validate { response, structured },
            Event::Validated { citations, elapsed_ms },
            progress,
        ),
    ensures
        progress is Finished <==> structured.citations@.len() == 0 || citations@.len() > 0,
        !(progress is Finished) ==> (progress matches RunProgress::Failed(
            RunFailure::Run(RunError::OnlyInvalidCitations),
        )),
        progress matches RunProgress::Finished(result) ==> {
            &&& result.citations@.len() == citations@.len()
            &&& forall|i: int|
                0 <= i < citations@.len() ==> #[trigger] result.citations@[i] == citations@[i]
            &&& result.summary@ == truncated(trimmed(structured.answer@), 3_000)
            &&& result.raw_final is Some
            &&& result.raw_final->0@ == response.raw@
            &&& result.stats.tool_calls == response.metrics.tool_calls
            &&& response.metrics.tool_calls < 0xffff_ffff ==> result.stats.turns
                == response.metrics.tool_calls + 1
            &&& response.metrics.tool_calls == 0xffff_ffff ==> result.stats.turns == 0xffff_ffff
            &&& elapsed_ms < 0x1_0000_0000_0000_0000 ==> result.stats.duration_ms == elapsed_ms
            &&& result.stats.duration_ms == elapsed_ms % 0x1_0000_0000_0000_0000
            &&& settings.model is None ==> result.stats.model@ == "GPT scout via Codex CLI"@
            &&& settings.model matches Some(name) ==> result.stats.model@
                == "GPT scout via Codex CLI"@ + " ("@ + name + ")"@
            &&& response.metrics.usage matches Some(usage) ==> {
                &&& result.stats.prompt_tokens == usage.input_tokens
                &&& result.stats.cached_prompt_tokens == usage.cached_input_tokens
                &&& result.stats.completion_tokens == usage.output_tokens
                &&& result.stats.reasoning_output_tokens == usage.reasoning_output_tokens
            }
            &&& response.metrics.usage is None ==> {
                &&& result.stats.prompt_tokens is None
                &&& result.stats.cached_prompt_tokens is None
                &&& result.stats.completion_tokens is None
                &&& result.stats.reasoning_output_tokens is None
            }
        },
{
}

/// A repository that shows the same three outputs as before, whatever they hold, does not stand in
/// the way: the app-server's answer goes on to be decoded, and its error is the error of the run.
pub proof fn an_unchanged_repository_lets_the_outcome_stand<E>(
    settings: ScoutSettings,
    root: Seq<char>,
    before: GitSnapshot,
    outcome: Result<AppServerResult, E>,
    after: GitSnapshot,
    progress: RunProgress<E>,
)
    requires
        after.status@ == before.status@,
        after.unstaged_diff@ == before.unstaged_diff@,
        after.staged_diff@ == before.staged_diff@,
        follows(
            settings,
            root,
            Stage::CaptureAfter { earlier: before, outcome },
            Event::Captured(Ok(Some(after))),
            progress,
        ),
    ensures
        match outcome {
            Ok(response) => progress == RunProgress::Continue(Stage::<E>::Decode { response }),
            Err(error) => progress == RunProgress::Failed(RunFailure::Outside(error)),
        },
{
    crate::git::a_repository_is_unchanged_if_it_shows_the_same(before, Some(after));
}

/// A repository that shows another output than before, or nothing any more, is the end of the run,
/// whatever the app-server came to.
pub proof fn a_changed_repository_discards_the_outcome<E>(
    settings: ScoutSettings,
    root: Seq<char>,
    before: GitSnapshot,
    outcome: Result<AppServerResult, E>,
    after: Option<GitSnapshot>,
    progress: RunProgress<E>,
)
    requires
        after matches Some(a) ==> a.status@ != before.status@ || a.unstaged_diff@
            != before.unstaged_diff@ || a.staged_diff@ != before.staged_diff@,
        follows(
            settings,
            root,
            Stage::CaptureAfter { earlier: before, outcome },
            Event::Captured(Ok(after)),
            progress,
        ),
    ensures
        progress matches RunProgress::Failed(RunFailure::Run(RunError::RepositoryChanged)),
{
    crate::git::a_repository_is_unchanged_if_it_shows_the_same(before, after);
}

/// A run starts in a directory and nowhere else, and then the repository is captured.
pub proof fn a_run_starts_in_a_directory<E>(
    settings: ScoutSettings,
    root: Seq<char>,
    is_dir: bool,
    progress: RunProgress<E>,
)
    requires
        follows(settings, root, Stage::<E>::Open, Event::<E>::Root { is_dir }, progress),
    ensures
        is_dir ==> progress == RunProgress::Continue(Stage::<E>::CaptureBefore),
        !is_dir ==> (progress matches RunProgress::Failed(
            RunFailure::Run(RunError::MissingRoot(path)),
        ) && path@ == root),
{
}

/// The app-server is asked once the repository was captured, whatever was there; a capture that
/// fails, before or after, is the end of the run with its own error.
pub proof fn a_capture_that_fails_ends_the_run<E>(
    settings: ScoutSettings,
    root: Seq<char>,
    captured: Result<Option<GitSnapshot>, E>,
    earlier: GitSnapshot,
    outcome: Result<AppServerResult, E>,
    first: RunProgress<E>,
    second: RunProgress<E>,
)
    requires
        follows(
            settings,
            root,
            Stage::<E>::CaptureBefore,
            Event::Captured(captured),
            first,
        ),
        follows(
            settings,
            root,
            Stage::CaptureAfter { earlier, outcome },
            Event::Captured(captured),
            second,
        ),
    ensures
        captured matches Ok(before) ==> first == RunProgress::Continue(Stage::<E>::Serve { before }),
        captured matches Err(error) ==> first == RunProgress::Failed(RunFailure::Outside(error)),
        captured matches Err(error) ==> second == RunProgress::Failed(RunFailure::Outside(error)),
{
}

/// What the app-server came to waits until the repository was captured again, where it had been
/// captured before; else it counts at once.
pub proof fn the_outcome_waits_for_the_repository<E>(
    settings: ScoutSettings,
    root: Seq<char>,
    before: Option<GitSnapshot>,
    outcome: Result<AppServerResult, E>,
    progress: RunProgress<E>,
)
    requires
        follows(settings, root, Stage::Serve { before }, Event::Served(outcome), progress),
    ensures
        before matches Some(earlier) ==> progress == RunProgress::Continue(
            Stage::CaptureAfter { earlier, outcome },
        ),
        before is None ==> match outcome {
            Ok(response) => progress == RunProgress::Continue(Stage::<E>::Decode { response }),
            Err(error) => progress == RunProgress::Failed(RunFailure::Outside(error)),
        },
{
}

/// An answer that decodes is handed on with what was decoded; one that does not is the end of the
/// run, for the decoder's reason.
pub proof fn an_answer_has_to_decode<E>(
    settings: ScoutSettings,
    root: Seq<char>,
    response: AppServerResult,
    decoded: Result<StructuredOutput, String>,
    progress: RunProgress<E>,
)
    requires
        follows(settings, root, Stage::<E>::Decode { response }, Event::Decoded(decoded), progress),
    ensures
        decoded matches Ok(structured) ==> progress == RunProgress::Continue(
            Stage::<E>::Validate { response, structured },
        ),
        decoded matches Err(wording) ==> (progress matches RunProgress::Failed(
            RunFailure::Run(RunError::MalformedOutput(text)),
        ) && text@ == wording@),
{
}

/// Each error of a run has its own wording.
pub proof fn errors_of_a_run_say_what_went_wrong(text: String)
    ensures
        RunError::MissingRoot(text).wording() == "repository root does not exist: "@ + text@,
        RunError::RepositoryChanged.wording()
            == "Codex repository scout changed Git-visible repository state; result discarded"@,
        RunError::MalformedOutput(text).wording() == "Codex returned malformed structured output"@,
        RunError::OnlyInvalidCitations.wording() == "GPT scout via Codex CLI"@
            + " returned only invalid citations"@,
        RunError::NoValidCitation.wording() == "GPT scout via Codex CLI"@
            + " returned no valid citation"@,
{
}

/// A probe goes well with any citation that holds, and not without one.
pub proof fn a_probe_needs_a_citation(citations: Seq<Citation>, citation: Citation)
    ensures
        passes_probe(citations.push(citation)),
        !passes_probe(Seq::empty()),
{
}

/// Every probe that was answered at all either fails for want of a citation or has one of those
/// that were validated.
pub proof fn a_probe_goes_by_what_was_validated<E>(
    settings: ScoutSettings,
    root: Seq<char>,
    response: AppServerResult,
    structured: StructuredOutput,
    citations: Vec<Citation>,
    elapsed_ms: u128,
    result: ScoutResult,
)
    requires
        follows(
            settings,
            root,
            Stage::<E>::Validate { response, structured },
            Event::<E>::Validated { citations, elapsed_ms },
            RunProgress::<E>::Finished(result),
        ),
    ensures
        passes_probe(result.citations@) <==> citations@.len() > 0,
{
}

} // verus!
