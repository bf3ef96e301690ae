//! The conversation with the app-server, from the opening to the end of the turn.
//!
//! A session is told each message that the server sends and says what to send back. The opening
//! request goes out when it starts; each of the next two requests follows the answer to the one
//! before it; after the answer to the third the turn is streamed until it completes or fails.

use crate::json::{array_view, array_view_index, Json, JsonTree};
use crate::protocol::{
    initialize_request, initialize_tree, initialized_notice, initialized_tree, rejection,
    rejection_tree, thread_start_request, thread_start_tree, turn_start_request, turn_start_tree,
};
use crate::usage::{usage_of, TokenUsage};
use crate::wire::{message_of, next_message};
use vstd::prelude::*;
use vstd::string::*;

verus! {

/// What a session waits for.
#[derive(Clone, Copy, Debug, PartialEq, Eq)]
pub enum Phase {
    /// The answer to the opening request.
    Initialize,
    /// The answer to the request for a thread.
    StartThread,
    /// The answer to the request for a turn.
    StartTurn,
    /// The end of the turn.
    Stream,
}

/// Why a session fails; `T` is the type of its texts.
#[derive(Debug)]
pub enum Failure<T> {
    /// The server closed its output.
    OutputClosed,
    /// A line was no JSON document; the text is the parser's wording.
    MalformedMessage(T),
    /// A request was answered with an error, under its message if it has one.
    RequestFailed(Option<T>),
    /// A request was answered with neither an error nor a result.
    MissingResult,
    /// The server reported an error before the turn was started.
    StartupFailed(Option<T>),
    /// The answer to the request for a thread does not say its id.
    MissingThreadId,
    /// The turn ended in another state than completed.
    TurnIncomplete(Option<T>),
    /// The server reported an error during the turn.
    TurnFailed(Option<T>),
    /// The turn completed without an answer.
    MissingOutput,
}

/// Why a session failed.
pub type SessionError = Failure<String>;

/// An optional text, as contracts speak of it.
pub open spec fn text_view(text: Option<String>) -> Option<Seq<char>> {
    match text {
        Some(t) => Some(t@),
        None => None,
    }
}

/// What a completed turn leaves.
#[derive(Debug)]
pub struct AppServerResult {
    /// The structured answer, as text.
    pub raw: String,
    pub metrics: CodexMetrics,
}

/// What was counted during a turn.
#[derive(Clone, Copy, Debug, PartialEq, Eq)]
pub struct CodexMetrics {
    pub usage: Option<TokenUsage>,
    pub tool_calls: u32,
}

/// A session under way.
#[derive(Debug)]
pub struct Session {
    phase: Phase,
    cwd: String,
    prompt: String,
    model: Option<String>,
    effort: String,
    raw: Option<String>,
    metrics: CodexMetrics,
}

/// What a session is: its parameters, what it waits for, and what the turn has brought so far.
pub struct SessionState {
    pub phase: Phase,
    pub cwd: Seq<char>,
    pub prompt: Seq<char>,
    pub model: Option<Seq<char>>,
    pub effort: Seq<char>,
    /// The last answer that was streamed.
    pub raw: Option<Seq<char>>,
    /// The last usage that was reported.
    pub usage: Option<TokenUsage>,
    /// The tool calls that were completed.
    pub tool_calls: nat,
}

/// What comes of a message.
pub enum Progress {
    /// The messages are to be sent, and the session goes on.
    Continue { session: Session, send: Vec<Json> },
    /// The turn completed.
    Finished(AppServerResult),
    Failed(SessionError),
}

/// What comes of a message, as contracts speak of it.
pub enum Outcome {
    Continue { state: SessionState, sent: Seq<JsonTree> },
    Finished { raw: Seq<char>, usage: Option<TokenUsage>, tool_calls: nat },
    Failed(Failure<Seq<char>>),
}

impl Failure<String> {
    pub open spec fn view(&self) -> Failure<Seq<char>> {
        match *self {
            Failure::OutputClosed => Failure::OutputClosed,
            Failure::MalformedMessage(wording) => Failure::MalformedMessage(wording@),
            Failure::RequestFailed(text) => Failure::RequestFailed(text_view(text)),
            Failure::MissingResult => Failure::MissingResult,
            Failure::StartupFailed(text) => Failure::StartupFailed(text_view(text)),
            Failure::MissingThreadId => Failure::MissingThreadId,
            Failure::TurnIncomplete(text) => Failure::TurnIncomplete(text_view(text)),
            Failure::TurnFailed(text) => Failure::TurnFailed(text_view(text)),
            Failure::MissingOutput => Failure::MissingOutput,
        }
    }

    /// The wording of the error.
    pub fn message(&self) -> (text: String)
        ensures
            text@ == failure_wording(self@),
    {
        match self {
            Failure::OutputClosed => "Codex app-server closed its output".to_string(),
            Failure::MalformedMessage(_) => "Codex app-server returned malformed JSON".to_string(),
            Failure::RequestFailed(text) => "Codex app-server request failed: ".to_string().concat(
                text_or(text, "unknown error").as_str(),
            ),
            Failure::MissingResult => "Codex app-server response had no result".to_string(),
            Failure::StartupFailed(text) => text_or(text, "Codex app-server request failed"),
            Failure::MissingThreadId => "Codex app-server returned no thread id".to_string(),
            Failure::TurnIncomplete(text) => text_or(text, "Codex turn did not complete"),
            Failure::TurnFailed(text) => text_or(text, "Codex app-server turn failed"),
            Failure::MissingOutput => "Codex app-server returned no structured result".to_string(),
        }
    }

    /// The wording of the error, and of its cause if it has one.
    pub fn report(&self) -> (text: String)
        ensures
            text@ == failure_report_wording(self@),
            text@ == (match self@ {
                Failure::MalformedMessage(wording) => failure_wording(self@) + ": "@ + wording,
                _ => failure_wording(self@),
            }),
    {
        match self {
            Failure::MalformedMessage(wording) => self.message().concat(": ").concat(
                wording.as_str(),
            ),
            _ => self.message(),
        }
    }
}

/// A text, or another one in its place.
pub open spec fn or_else(text: Option<Seq<char>>, default: Seq<char>) -> Seq<char> {
    match text {
        Some(t) => t,
        None => default,
    }
}

/// What is said of a failure: the server's own words where it gives any.
pub open spec fn failure_wording(failure: Failure<Seq<char>>) -> Seq<char> {
    match failure {
        Failure::OutputClosed => "Codex app-server closed its output"@,
        Failure::MalformedMessage(_) => "Codex app-server returned malformed JSON"@,
        Failure::RequestFailed(text) => "Codex app-server request failed: "@ + or_else(
            text,
            "unknown error"@,
        ),
        Failure::MissingResult => "Codex app-server response had no result"@,
        Failure::StartupFailed(text) => or_else(text, "Codex app-server request failed"@),
        Failure::MissingThreadId => "Codex app-server returned no thread id"@,
        Failure::TurnIncomplete(text) => or_else(text, "Codex turn did not complete"@),
        Failure::TurnFailed(text) => or_else(text, "Codex app-server turn failed"@),
        Failure::MissingOutput => "Codex app-server returned no structured result"@,
    }
}

fn text_or(text: &Option<String>, default: &str) -> (chosen: String)
    ensures
        chosen@ == or_else(text_view(*text), default@),
{
    match text {
        Some(t) => t.clone(),
        None => default.to_string(),
    }
}

impl Progress {
    pub open spec fn view(&self) -> Outcome {
        match *self {
            Progress::Continue { session, send } => Outcome::Continue {
                state: session@,
                sent: array_view(send@),
            },
            Progress::Finished(result) => Outcome::Finished {
                raw: result.raw@,
                usage: result.metrics.usage,
                tool_calls: result.metrics.tool_calls as nat,
            },
            Progress::Failed(error) => Outcome::Failed(error@),
        }
    }
}

/// The id of the request whose answer is waited for.
pub open spec fn awaited_id(phase: Phase) -> Option<u64> {
    match phase {
        Phase::Initialize => Some(1),
        Phase::StartThread => Some(2),
        Phase::StartTurn => Some(3),
        Phase::Stream => None,
    }
}

/// A request of the server's own: it has an id and a method.
pub open spec fn is_server_request(message: JsonTree) -> bool {
    message.has("id"@) && message.has("method"@)
}

/// An error that the server will not get over by itself.
pub open spec fn is_fatal_error(message: JsonTree) -> bool {
    &&& message.at("method"@).is_text("error"@)
    &&& message.at("params"@).at("willRetry"@).truth() != Some(true)
}

/// The wording of an error that the server reports.
pub open spec fn error_message(message: JsonTree) -> Option<Seq<char>> {
    message.at("params"@).at("error"@).at("message"@).text()
}

/// The session goes on as it is and answers nothing.
pub open spec fn ignored(state: SessionState) -> Outcome {
    Outcome::Continue { state, sent: Seq::empty() }
}

/// The session goes on as it is and rejects the request.
pub open spec fn rejected(state: SessionState, message: JsonTree) -> Outcome {
    Outcome::Continue { state, sent: seq![rejection_tree(message.at("id"@))] }
}

/// What follows the answer that was waited for.
pub open spec fn answered(state: SessionState, message: JsonTree) -> Outcome {
    if message.has("error"@) {
        Outcome::Failed(
            Failure::RequestFailed(message.at("error"@).at("message"@).text()),
        )
    } else if !message.has("result"@) {
        Outcome::Failed(Failure::MissingResult)
    } else {
        match state.phase {
            Phase::Initialize => Outcome::Continue {
                state: SessionState { phase: Phase::StartThread, ..state },
                sent: seq![initialized_tree(), thread_start_tree(state.cwd, state.model)],
            },
            Phase::StartThread => match message.at("result"@).at("thread"@).at("id"@).text() {
                Some(thread_id) => Outcome::Continue {
                    state: SessionState { phase: Phase::StartTurn, ..state },
                    sent: seq![turn_start_tree(thread_id, state.prompt, state.effort)],
                },
                None => Outcome::Failed(Failure::MissingThreadId),
            },
            _ => Outcome::Continue {
                state: SessionState { phase: Phase::Stream, ..state },
                sent: Seq::empty(),
            },
        }
    }
}

/// What a message does to a session that waits for an answer.
pub open spec fn waiting_next(state: SessionState, message: JsonTree) -> Outcome {
    if message.at("id"@).unsigned() == awaited_id(state.phase) {
        answered(state, message)
    } else if is_fatal_error(message) {
        Outcome::Failed(Failure::StartupFailed(error_message(message)))
    } else if is_server_request(message) {
        rejected(state, message)
    } else {
        ignored(state)
    }
}

/// A completed item of the turn.
pub open spec fn is_item(message: JsonTree) -> bool {
    message.at("method"@).is_text("item/completed"@) && !is_server_request(message)
}

pub open spec fn item_of(message: JsonTree) -> JsonTree {
    message.at("params"@).at("item"@)
}

/// A completed tool call.
pub open spec fn is_tool_call(message: JsonTree) -> bool {
    let kind = item_of(message).at("type"@);
    is_item(message) && (kind.is_text("commandExecution"@) || kind.is_text("mcpToolCall"@)
        || kind.is_text("webSearch"@))
}

/// The answer that a message streams.
pub open spec fn streamed_answer(message: JsonTree) -> Option<Seq<char>> {
    if is_item(message) && item_of(message).at("type"@).is_text("agentMessage"@) {
        item_of(message).at("text"@).text()
    } else {
        None
    }
}

/// A report of the usage so far.
pub open spec fn is_usage_report(message: JsonTree) -> bool {
    message.at("method"@).is_text("thread/tokenUsage/updated"@) && !is_server_request(message)
}

pub open spec fn reported_usage(message: JsonTree) -> Option<TokenUsage> {
    usage_of(message.at("params"@).at("tokenUsage"@).at("last"@))
}

/// The end of the turn.
pub open spec fn is_turn_end(message: JsonTree) -> bool {
    message.at("method"@).is_text("turn/completed"@) && !is_server_request(message)
}

/// The last agent message among the items.
pub open spec fn last_agent_message(items: Seq<JsonTree>) -> Option<JsonTree>
    decreases items.len(),
{
    if items.len() == 0 {
        None
    } else if items.last().at("type"@).is_text("agentMessage"@) {
        Some(items.last())
    } else {
        last_agent_message(items.drop_last())
    }
}

/// The answer that the turn's own list of items ends in.
pub open spec fn listed_answer(turn: JsonTree) -> Option<Seq<char>> {
    match turn.at("items"@) {
        JsonTree::Array(items) => match last_agent_message(items) {
            Some(item) => item.at("text"@).text(),
            None => None,
        },
        _ => None,
    }
}

/// What the end of the turn comes to: the answer streamed last, or else the answer listed last.
pub open spec fn turn_end(state: SessionState, turn: JsonTree) -> Outcome {
    let raw = if state.raw is Some {
        state.raw
    } else {
        listed_answer(turn)
    };
    if !turn.at("status"@).is_text("completed"@) {
        Outcome::Failed(Failure::TurnIncomplete(turn.at("error"@).at("message"@).text()))
    } else {
        match raw {
            Some(text) => Outcome::Finished {
                raw: text,
                usage: state.usage,
                tool_calls: state.tool_calls,
            },
            None => Outcome::Failed(Failure::MissingOutput),
        }
    }
}

/// What a message does to a session whose turn is streamed.
pub open spec fn streaming_next(state: SessionState, message: JsonTree) -> Outcome {
    if is_server_request(message) {
        rejected(state, message)
    } else if is_turn_end(message) {
        turn_end(state, message.at("params"@).at("turn"@))
    } else if is_fatal_error(message) {
        Outcome::Failed(Failure::TurnFailed(error_message(message)))
    } else if is_usage_report(message) {
        ignored(SessionState { usage: reported_usage(message), ..state })
    } else if is_tool_call(message) {
        ignored(SessionState { tool_calls: state.tool_calls + 1, ..state })
    } else if streamed_answer(message) is Some {
        ignored(SessionState { raw: streamed_answer(message), ..state })
    } else {
        ignored(state)
    }
}

/// What a message does to a session.
pub open spec fn next(state: SessionState, message: JsonTree) -> Outcome {
    if state.phase == Phase::Stream {
        streaming_next(state, message)
    } else {
        waiting_next(state, message)
    }
}

/// The message is a tool call that the session counts.
pub open spec fn counts(state: SessionState, message: JsonTree) -> bool {
    state.phase == Phase::Stream && is_tool_call(message)
}

/// The methods that a turn is streamed in are told apart by their names, and so are the items.
pub(crate) proof fn lemma_names_differ()
    ensures
        "item/completed"@ != "turn/completed"@,
        "item/completed"@ != "thread/tokenUsage/updated"@,
        "item/completed"@ != "error"@,
        "turn/completed"@ != "thread/tokenUsage/updated"@,
        "turn/completed"@ != "error"@,
        "thread/tokenUsage/updated"@ != "error"@,
        "agentMessage"@ != "commandExecution"@,
        "agentMessage"@ != "mcpToolCall"@,
        "agentMessage"@ != "webSearch"@,
{
    reveal_strlit("item/completed");
    reveal_strlit("turn/completed");
    reveal_strlit("thread/tokenUsage/updated");
    reveal_strlit("error");
    reveal_strlit("agentMessage");
    reveal_strlit("commandExecution");
    reveal_strlit("mcpToolCall");
    reveal_strlit("webSearch");
    assert("item/completed"@[0] != "turn/completed"@[0]);
    assert("item/completed"@.len() == 14);
    assert("turn/completed"@.len() == 14);
    assert("thread/tokenUsage/updated"@.len() == 25);
    assert("error"@.len() == 5);
    assert("agentMessage"@.len() == 12);
    assert("commandExecution"@.len() == 16);
    assert("mcpToolCall"@.len() == 11);
    assert("webSearch"@.len() == 9);
}

fn owned(text: Option<&str>) -> (copy: Option<String>)
    ensures
        text is Some <==> copy is Some,
        copy matches Some(c) ==> c@ == text->0@,
{
    match text {
        Some(t) => Some(t.to_string()),
        None => None,
    }
}

fn server_request(message: &Json) -> (found: bool)
    ensures
        found == is_server_request(message@),
{
    message.get("id").is_some() && message.get("method").is_some()
}

fn fatal_error(message: &Json) -> (found: bool)
    ensures
        found == is_fatal_error(message@),
{
    message.at("method").is_text("error") && match message.at("params").at("willRetry").as_bool() {
        Some(retries) => !retries,
        None => true,
    }
}

fn error_text(message: &Json) -> (text: Option<String>)
    ensures
        text_view(text) == error_message(message@),
{
    owned(message.at("params").at("error").at("message").as_str())
}

/// The answer listed last among the items of a turn.
fn listed(turn: &Json) -> (text: Option<String>)
    ensures
        text_view(text) == listed_answer(turn@),
{
    match turn.at("items").as_array() {
        Some(items) => {
            let ghost trees = array_view(items@);
            proof {
                array_view_index(items@);
                assert(trees.take(trees.len() as int) == trees);
            }
            let mut n: usize = items.len();
            while n > 0
                invariant
                    n <= items@.len(),
                    trees == array_view(items@),
                    trees.len() == items@.len(),
                    forall|i: int| 0 <= i < items@.len() ==> #[trigger] trees[i] == items@[i]@,
                    turn@.at("items"@) == JsonTree::Array(trees),
                    last_agent_message(trees) == last_agent_message(trees.take(n as int)),
                decreases n,
            {
                n = n - 1;
                let item = &items[n];
                proof {
                    assert(trees.take(n + 1).last() == item@);
                    assert(trees.take(n + 1).drop_last() == trees.take(n as int));
                }
                if item.at("type").is_text("agentMessage") {
                    return owned(item.at("text").as_str());
                }
            }
            None
        },
        None => None,
    }
}

/// The state that a session starts in.
pub open spec fn opening_state(
    cwd: Seq<char>,
    prompt: Seq<char>,
    model: Option<Seq<char>>,
    effort: Seq<char>,
) -> SessionState {
    SessionState {
        phase: Phase::Initialize,
        cwd,
        prompt,
        model,
        effort,
        raw: None,
        usage: None,
        tool_calls: 0,
    }
}

/// The wording of a failure, and of its cause if it has one.
pub open spec fn failure_report_wording(failure: Failure<Seq<char>>) -> Seq<char> {
    match failure {
        Failure::MalformedMessage(wording) => failure_wording(failure) + ": "@ + wording,
        _ => failure_wording(failure),
    }
}

impl Session {
    pub closed spec fn view(&self) -> SessionState {
        SessionState {
            phase: self.phase,
            cwd: self.cwd@,
            prompt: self.prompt@,
            model: text_view(self.model),
            effort: self.effort@,
            raw: text_view(self.raw),
            usage: self.metrics.usage,
            tool_calls: self.metrics.tool_calls as nat,
        }
    }

    /// Starts a session; the message is to be sent first.
    pub fn start(
        version: &str,
        cwd: &str,
        prompt: &str,
        model: Option<&str>,
        reasoning_effort: &str,
    ) -> (started: (Session, Json))
        ensures
            started.0@ == (SessionState {
                phase: Phase::Initialize,
                cwd: cwd@,
                prompt: prompt@,
                model: match model {
                    Some(name) => Some(name@),
                    None => None,
                },
                effort: reasoning_effort@,
                raw: None,
                usage: None,
                tool_calls: 0,
            }),
            started.0@ == opening_state(
                cwd@,
                prompt@,
                match model {
                    Some(name) => Some(name@),
                    None => None,
                },
                reasoning_effort@,
            ),
            started.1@ == initialize_tree(version@),
    {
        let session = Session {
            phase: Phase::Initialize,
            cwd: cwd.to_string(),
            prompt: prompt.to_string(),
            model: owned(model),
            effort: reasoning_effort.to_string(),
            raw: None,
            metrics: CodexMetrics { usage: None, tool_calls: 0 },
        };
        (session, initialize_request(version))
    }

    /// The tool calls counted so far.
    pub fn tool_calls(&self) -> (n: u32)
        ensures
            n == self@.tool_calls,
    {
        self.metrics.tool_calls
    }

    /// Goes on with nothing to send.
    fn quiet(self) -> (progress: Progress)
        ensures
            progress@ == ignored(self@),
    {
        Progress::Continue { session: self, send: Vec::new() }
    }

    /// Goes on and rejects a request of the server.
    fn reject(self, message: Json) -> (progress: Progress)
        ensures
            progress@ == rejected(self@, message@),
    {
        let mut send: Vec<Json> = Vec::new();
        send.push(rejection(message.into_field("id")));
        proof {
            array_view_index(send@);
            assert(array_view(send@) == seq![rejection_tree(message@.at("id"@))]);
        }
        Progress::Continue { session: self, send }
    }

    /// Takes the answer that was waited for.
    fn on_answer(self, message: &Json) -> (progress: Progress)
        ensures
            progress@ == answered(self@, message@),
    {
        if let Some(error) = message.get("error") {
            return Progress::Failed(
                Failure::RequestFailed(owned(error.at("message").as_str())),
            );
        }
        if message.get("result").is_none() {
            return Progress::Failed(Failure::MissingResult);
        }
        let mut session = self;
        let mut send: Vec<Json> = Vec::new();
        match session.phase {
            Phase::Initialize => {
                let model = match &session.model {
                    Some(name) => Some(name.as_str()),
                    None => None,
                };
                send.push(initialized_notice());
                send.push(thread_start_request(session.cwd.as_str(), model));
                session.phase = Phase::StartThread;
            },
            Phase::StartThread => {
                match message.at("result").at("thread").at("id").as_str() {
                    Some(thread_id) => {
                        send.push(
                            turn_start_request(
                                thread_id,
                                session.prompt.as_str(),
                                session.effort.as_str(),
                            ),
                        );
                        session.phase = Phase::StartTurn;
                    },
                    None => {
                        return Progress::Failed(Failure::MissingThreadId);
                    },
                }
            },
            _ => {
                session.phase = Phase::Stream;
            },
        }
        proof {
            array_view_index(send@);
            assert(array_view(send@) == answered(self@, message@)->sent);
        }
        Progress::Continue { session, send }
    }

    /// Takes the end of the turn.
    fn on_turn_end(self, turn: &Json) -> (progress: Progress)
        ensures
            progress@ == turn_end(self@, turn@),
    {
        if !turn.at("status").is_text("completed") {
            return Progress::Failed(
                Failure::TurnIncomplete(owned(turn.at("error").at("message").as_str())),
            );
        }
        let metrics = self.metrics;
        let raw = match self.raw {
            Some(text) => Some(text),
            None => listed(turn),
        };
        match raw {
            Some(raw) => Progress::Finished(AppServerResult { raw, metrics }),
            None => Progress::Failed(Failure::MissingOutput),
        }
    }

    /// Takes a message while the turn is streamed.
    fn on_stream(self, message: Json) -> (progress: Progress)
        requires
            is_tool_call(message@) ==> self@.tool_calls < u32::MAX,
        ensures
            progress@ == streaming_next(self@, message@),
    {
        if server_request(&message) {
            return self.reject(message);
        }
        proof {
            lemma_names_differ();
        }
        let mut session = self;
        let method = message.at("method");
        if method.is_text("item/completed") {
            let item = message.at("params").at("item");
            let kind = item.at("type");
            if kind.is_text("agentMessage") {
                if let Some(text) = item.at("text").as_str() {
                    session.raw = Some(text.to_string());
                }
            } else if kind.is_text("commandExecution") || kind.is_text("mcpToolCall")
                || kind.is_text("webSearch") {
                session.metrics.tool_calls = session.metrics.tool_calls + 1;
            }
        } else if method.is_text("thread/tokenUsage/updated") {
            session.metrics.usage = TokenUsage::from_report(
                message.at("params").at("tokenUsage").at("last"),
            );
        } else if method.is_text("turn/completed") {
            return session.on_turn_end(message.at("params").at("turn"));
        } else if fatal_error(&message) {
            return Progress::Failed(Failure::TurnFailed(error_text(&message)));
        }
        session.quiet()
    }

    /// Takes a message of the server.
    pub fn on_message(self, message: Json) -> (progress: Progress)
        requires
            counts(self@, message@) ==> self@.tool_calls < u32::MAX,
        ensures
            progress@ == next(self@, message@),
    {
        let id: u64 = match self.phase {
            Phase::Initialize => 1,
            Phase::StartThread => 2,
            Phase::StartTurn => 3,
            Phase::Stream => {
                return self.on_stream(message);
            },
        };
        if message.at("id").as_u64() == Some(id) {
            return self.on_answer(&message);
        }
        if fatal_error(&message) {
            return Progress::Failed(Failure::StartupFailed(error_text(&message)));
        }
        if server_request(&message) {
            return self.reject(message);
        }
        self.quiet()
    }

    /// Takes a line of the server's output, or `None` for its end.
    pub fn on_line(self, line: Option<&str>) -> (progress: Progress)
        requires
            self@.tool_calls < u32::MAX,
        ensures
            progress@ == match message_of(
                match line {
                    Some(text) => Some(text@),
                    None => None,
                },
            ) {
                Ok(message) => next(self@, message),
                Err(failure) => Outcome::Failed(failure),
            },
            line matches Some(text) && text@.len() == 0 ==> (progress matches Progress::Failed(
                error,
            ) && error is MalformedMessage),
    {
        match next_message(line) {
            Ok(message) => self.on_message(message),
            Err(error) => Progress::Failed(error),
        }
    }
}

/// What comes of a message is read off it as it is: what is to be sent, each in its place; the
/// result; or the error, with its own text.
pub proof fn progress_is_what_it_holds(
    session: Session,
    send: Vec<Json>,
    result: AppServerResult,
    error: SessionError,
    text: String,
    i: int,
)
    ensures
        (Progress::Continue { session, send })@ == (Outcome::Continue {
            state: session@,
            sent: array_view(send@),
        }),
        array_view(send@).len() == send@.len(),
        0 <= i < send@.len() ==> array_view(send@)[i] == send@[i]@,
        Progress::Finished(result)@ == (Outcome::Finished {
            raw: result.raw@,
            usage: result.metrics.usage,
            tool_calls: result.metrics.tool_calls as nat,
        }),
        Progress::Failed(error)@ == Outcome::Failed(error@),
        Failure::MalformedMessage(text)@ == Failure::MalformedMessage(text@),
        Failure::RequestFailed(Some(text))@ == Failure::RequestFailed(Some(text@)),
        Failure::<String>::RequestFailed(None)@ == Failure::<Seq<char>>::RequestFailed(None),
        Failure::StartupFailed(Some(text))@ == Failure::StartupFailed(Some(text@)),
        Failure::<String>::StartupFailed(None)@ == Failure::<Seq<char>>::StartupFailed(None),
        Failure::TurnIncomplete(Some(text))@ == Failure::TurnIncomplete(Some(text@)),
        Failure::<String>::TurnIncomplete(None)@ == Failure::<Seq<char>>::TurnIncomplete(None),
        Failure::TurnFailed(Some(text))@ == Failure::TurnFailed(Some(text@)),
        Failure::<String>::TurnFailed(None)@ == Failure::<Seq<char>>::TurnFailed(None),
        error is OutputClosed <==> error@ is OutputClosed,
        error is MissingResult <==> error@ is MissingResult,
        error is MissingThreadId <==> error@ is MissingThreadId,
        error is MissingOutput <==> error@ is MissingOutput,
{
    array_view_index(send@);
}

/// A session starts with what it is given, each as it is, before any answer and with nothing
/// counted; and it goes by what it was given to the end: its first answer asks for a thread in the
/// directory with the model, and the next one for a turn with the prompt and the effort.
pub proof fn a_session_starts_with_what_it_is_given(
    cwd: Seq<char>,
    prompt: Seq<char>,
    model: Option<Seq<char>>,
    effort: Seq<char>,
    first: JsonTree,
    second: JsonTree,
)
    requires
        first.at("id"@) == JsonTree::Unsigned(1),
        !first.has("error"@),
        first.has("result"@),
        second.at("id"@) == JsonTree::Unsigned(2),
        !second.has("error"@),
        second.has("result"@),
        second.at("result"@).at("thread"@).at("id"@) is Text,
    ensures
        ({
            let state = opening_state(cwd, prompt, model, effort);
            let thread_id = second.at("result"@).at("thread"@).at("id"@)->Text_0;
            &&& state.phase == Phase::Initialize
            &&& state.raw is None
            &&& state.usage is None
            &&& state.tool_calls == 0
            &&& next(state, first) matches Outcome::Continue { state: begun, sent } && sent.len()
                == 2 && sent[1] == thread_start_tree(cwd, model) && (next(
                begun,
                second,
            ) matches Outcome::Continue { state: asked, sent: more } && more == seq![
                turn_start_tree(thread_id, prompt, effort),
            ])
        }),
{
}

/// A report of a failure says what failed, and after it the cause of a line that was not read;
/// no other failure has a cause to be told.
pub proof fn a_report_tells_the_cause(failure: Failure<Seq<char>>, cause: Seq<char>)
    ensures
        failure_report_wording(Failure::MalformedMessage(cause))
            == "Codex app-server returned malformed JSON"@ + ": "@ + cause,
        !(failure is MalformedMessage) ==> failure_report_wording(failure) == failure_wording(
            failure,
        ),
{
}

} // verus!
