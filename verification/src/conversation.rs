//! What holds of a whole conversation with the app-server, whatever the server sends.

use crate::json::JsonTree;
use crate::protocol::{initialized_tree, rejection_tree, thread_start_tree, turn_start_tree};
use crate::session::{
    is_fatal_error, is_server_request, is_tool_call, is_turn_end, is_usage_report, next, rejected,
    reported_usage, streamed_answer, Failure, Outcome, Phase, SessionState,
};
use crate::usage::TokenUsage;
use vstd::prelude::*;

verus! {

/// What comes of the messages, taken one after the other: where the session goes on, all that it
/// has sent meanwhile, in order; else how it ended.
pub open spec fn converse(state: SessionState, messages: Seq<JsonTree>) -> Outcome
    decreases messages.len(),
{
    if messages.len() == 0 {
        Outcome::Continue { state, sent: Seq::empty() }
    } else {
        match converse(state, messages.drop_last()) {
            Outcome::Continue { state: before, sent } => match next(before, messages.last()) {
                Outcome::Continue { state: after, sent: more } => Outcome::Continue {
                    state: after,
                    sent: sent + more,
                },
                end => end,
            },
            end => end,
        }
    }
}

/// What the session sends of its own accord: all but the rejections, which carry an error.
pub open spec fn own_messages(sent: Seq<JsonTree>) -> Seq<JsonTree> {
    sent.filter(|message: JsonTree| !message.has("error"@))
}

/// The rejections of the server's requests among the messages, in order.
pub open spec fn rejections(messages: Seq<JsonTree>) -> Seq<JsonTree> {
    messages.filter_map(
        |message: JsonTree|
            if is_server_request(message) {
                Some(rejection_tree(message.at("id"@)))
            } else {
                None
            },
    )
}

/// The answer streamed last among the messages.
pub open spec fn last_streamed(messages: Seq<JsonTree>) -> Option<Seq<char>>
    decreases messages.len(),
{
    if messages.len() == 0 {
        None
    } else if streamed_answer(messages.last()) is Some {
        streamed_answer(messages.last())
    } else {
        last_streamed(messages.drop_last())
    }
}

/// The usage reported last among the messages, if any report is there.
pub open spec fn last_reported(messages: Seq<JsonTree>) -> Option<Option<TokenUsage>>
    decreases messages.len(),
{
    if messages.len() == 0 {
        None
    } else if is_usage_report(messages.last()) {
        Some(reported_usage(messages.last()))
    } else {
        last_reported(messages.drop_last())
    }
}

/// The requests of a session that has got as far as the phase; the thread's id is the server's.
pub open spec fn requests_until(state: SessionState, thread_id: Seq<char>) -> Seq<JsonTree> {
    match state.phase {
        Phase::Initialize => seq![],
        Phase::StartThread => seq![initialized_tree(), thread_start_tree(state.cwd, state.model)],
        _ => seq![
            initialized_tree(),
            thread_start_tree(state.cwd, state.model),
            turn_start_tree(thread_id, state.prompt, state.effort),
        ],
    }
}

/// The thread that a message grants, by its id.
pub open spec fn granted_thread(message: JsonTree) -> Option<Seq<char>> {
    message.at("result"@).at("thread"@).at("id"@).text()
}

/// The message at `n` granted the thread: it took the session from waiting for a thread to waiting
/// for a turn, and names the thread.
pub open spec fn grants(
    state: SessionState,
    messages: Seq<JsonTree>,
    n: int,
    thread_id: Seq<char>,
) -> bool {
    &&& 0 <= n < messages.len()
    &&& converse(state, messages.take(n)) matches Outcome::Continue { state: before, .. }
        && before.phase == Phase::StartThread
    &&& converse(state, messages.take(n + 1)) matches Outcome::Continue { state: after, .. }
        && after.phase == Phase::StartTurn
    &&& granted_thread(messages[n]) == Some(thread_id)
}

/// What was sent of the session's own accord are the requests up to its phase: each once, in
/// order, and nothing else; and the turn was asked for on the thread that was granted.
pub open spec fn is_in_order(
    state: SessionState,
    messages: Seq<JsonTree>,
    after: SessionState,
    sent: Seq<JsonTree>,
) -> bool {
    exists|thread_id: Seq<char>|
        own_messages(sent) == #[trigger] requests_until(after, thread_id) && (after.phase
            == Phase::StartTurn || after.phase == Phase::Stream ==> exists|n: int|
            #[trigger] grants(state, messages, n, thread_id))
}

/// The session is the same but for its progress.
pub open spec fn same_task(a: SessionState, b: SessionState) -> bool {
    a.cwd == b.cwd && a.prompt == b.prompt && a.model == b.model && a.effort == b.effort
}

proof fn lemma_own_messages(sent: Seq<JsonTree>, more: Seq<JsonTree>)
    ensures
        own_messages(sent + more) == own_messages(sent) + own_messages(more),
{
    Seq::filter_distributes_over_add(sent, more, |message: JsonTree| !message.has("error"@));
}

/// Rejections are told from the requests by their error.
proof fn lemma_own_step(state: SessionState, thread_id: Seq<char>, id: JsonTree)
    ensures
        own_messages(Seq::<JsonTree>::empty()) == Seq::<JsonTree>::empty(),
        own_messages(seq![rejection_tree(id)]) == Seq::<JsonTree>::empty(),
        own_messages(seq![initialized_tree(), thread_start_tree(state.cwd, state.model)]) == seq![
            initialized_tree(),
            thread_start_tree(state.cwd, state.model),
        ],
        own_messages(seq![turn_start_tree(thread_id, state.prompt, state.effort)]) == seq![
            turn_start_tree(thread_id, state.prompt, state.effort),
        ],
{
    reveal_strlit("error");
    reveal_strlit("id");
    reveal_strlit("method");
    reveal_strlit("params");
    assert("error"@.len() == 5);
    assert("id"@.len() == 2);
    assert("method"@.len() == 6);
    assert("params"@.len() == 6);
    reveal_with_fuel(Seq::filter, 3);
    let opening = seq![initialized_tree(), thread_start_tree(state.cwd, state.model)];
    let turn = seq![turn_start_tree(thread_id, state.prompt, state.effort)];
    assert(seq![rejection_tree(id)].drop_last() == Seq::<JsonTree>::empty());
    assert(opening.drop_last() == seq![initialized_tree()]);
    assert(seq![initialized_tree()].drop_last() == Seq::<JsonTree>::empty());
    assert(turn.drop_last() == Seq::<JsonTree>::empty());
    assert(own_messages(opening) == opening);
    assert(own_messages(turn) == turn);
}

/// What one message makes a session send of its own accord.
proof fn lemma_step(before: SessionState, message: JsonTree)
    ensures
        next(before, message) matches Outcome::Continue { state: after, sent } ==> {
            let granted = granted_thread(message);
            &&& same_task(before, after)
            &&& after.phase == before.phase ==> own_messages(sent) == Seq::<JsonTree>::empty()
            &&& after.phase != before.phase ==> match before.phase {
                Phase::Initialize => after.phase == Phase::StartThread && own_messages(sent)
                    == seq![initialized_tree(), thread_start_tree(before.cwd, before.model)],
                Phase::StartThread => after.phase == Phase::StartTurn && granted is Some
                    && own_messages(sent) == seq![
                    turn_start_tree(granted->0, before.prompt, before.effort),
                ],
                _ => after.phase == Phase::Stream && own_messages(sent)
                    == Seq::<JsonTree>::empty(),
            }
        },
{
    let granted = granted_thread(message);
    lemma_own_step(before, granted->0, message.at("id"@));
}

/// What is sent of its own accord in a step carries on from what was sent before.
proof fn lemma_requests_grow(
    before: SessionState,
    after: SessionState,
    own: Seq<JsonTree>,
    more: Seq<JsonTree>,
    known: Seq<char>,
    granted: Seq<char>,
)
    requires
        own == requests_until(before, known),
        same_task(before, after),
        after.phase == before.phase ==> more == Seq::<JsonTree>::empty(),
        after.phase != before.phase ==> match before.phase {
            Phase::Initialize => after.phase == Phase::StartThread && more == seq![
                initialized_tree(),
                thread_start_tree(before.cwd, before.model),
            ],
            Phase::StartThread => after.phase == Phase::StartTurn && more == seq![
                turn_start_tree(granted, before.prompt, before.effort),
            ],
            _ => after.phase == Phase::Stream && more == Seq::<JsonTree>::empty(),
        },
    ensures
        own + more == requests_until(
            after,
            if before.phase == Phase::StartThread && after.phase == Phase::StartTurn {
                granted
            } else {
                known
            },
        ),
{
    if before.phase == Phase::StartThread && after.phase == Phase::StartTurn {
        assert(own + more =~= requests_until(after, granted));
    } else {
        assert(own + more =~= requests_until(after, known));
    }
}

/// What was granted stays granted.
proof fn lemma_grants(state: SessionState, messages: Seq<JsonTree>, n: int, thread_id: Seq<char>)
    requires
        messages.len() > 0,
        grants(state, messages.drop_last(), n, thread_id),
    ensures
        grants(state, messages, n, thread_id),
{
    let front = messages.drop_last();
    assert(front.take(n) == messages.take(n));
    assert(front.take(n + 1) == messages.take(n + 1));
}

/// Whatever the server sends, a session that goes on keeps its task, and of its own accord has
/// sent the requests up to its phase: each once, in order, and nothing else. It asks for the turn
/// on the thread that the server granted.
pub proof fn requests_go_out_in_order(state: SessionState, messages: Seq<JsonTree>)
    requires
        state.phase == Phase::Initialize,
    ensures
        converse(state, messages) matches Outcome::Continue { state: after, sent } ==> {
            &&& same_task(state, after)
            &&& is_in_order(state, messages, after, sent)
        },
    decreases messages.len(),
{
    if messages.len() == 0 {
        lemma_own_step(state, Seq::empty(), JsonTree::Null);
        assert(own_messages(Seq::<JsonTree>::empty()) == requests_until(state, Seq::empty()));
    } else {
        let front = messages.drop_last();
        requests_go_out_in_order(state, front);
        if let Outcome::Continue { state: before, sent } = converse(state, front) {
            let message = messages.last();
            if let Outcome::Continue { state: after, sent: more } = next(before, message) {
                let known = choose|thread_id: Seq<char>|
                    own_messages(sent) == #[trigger] requests_until(before, thread_id) && (
                    before.phase == Phase::StartTurn || before.phase == Phase::Stream
                        ==> exists|n: int| #[trigger] grants(state, front, n, thread_id));
                lemma_own_messages(sent, more);
                lemma_step(before, message);
                let granted = granted_thread(message);
                lemma_requests_grow(
                    before,
                    after,
                    own_messages(sent),
                    own_messages(more),
                    known,
                    granted->0,
                );
                if before.phase == Phase::StartThread && after.phase == Phase::StartTurn {
                    let n = messages.len() - 1;
                    assert(messages.take(n) == front);
                    assert(messages.take(n + 1) == messages);
                    assert(grants(state, messages, n, granted->0));
                    assert(own_messages(sent + more) == requests_until(after, granted->0));
                } else {
                    if before.phase == Phase::StartTurn || before.phase == Phase::Stream {
                        let n = choose|n: int| #[trigger] grants(state, front, n, known);
                        lemma_grants(state, messages, n, known);
                    }
                    assert(own_messages(sent + more) == requests_until(after, known));
                }
            }
        }
    }
}

/// The message at `n` ends a turn that the session has started, and says that it was completed: the
/// messages before it have led to the turn being streamed, after all requests in their order.
pub open spec fn ends_its_turn(state: SessionState, messages: Seq<JsonTree>, n: int) -> bool {
    &&& 0 <= n < messages.len()
    &&& is_turn_end(messages[n])
    &&& messages[n].at("method"@) == JsonTree::Text("turn/completed"@)
    &&& messages[n].at("params"@).at("turn"@).at("status"@) == JsonTree::Text("completed"@)
    &&& converse(state, messages.take(n)) matches Outcome::Continue { state: before, sent }
        && before.phase == Phase::Stream && is_in_order(state, messages.take(n), before, sent)
}

/// A session finishes only by the end of a turn that it has started and that was completed: there
/// is a first stretch of the messages after which the turn was streamed, and the message after it
/// ends the turn.
pub proof fn finishes_only_after_a_turn(state: SessionState, messages: Seq<JsonTree>)
    requires
        state.phase == Phase::Initialize,
        converse(state, messages) is Finished,
    ensures
        exists|n: int| #[trigger] ends_its_turn(state, messages, n),
    decreases messages.len(),
{
    let front = messages.drop_last();
    let n = messages.len() - 1;
    assert(messages.take(n) == front);
    if converse(state, front) is Finished {
        finishes_only_after_a_turn(state, front);
        let m = choose|m: int| #[trigger] ends_its_turn(state, front, m);
        assert(front.take(m) == messages.take(m));
        assert(ends_its_turn(state, messages, m));
    } else {
        requests_go_out_in_order(state, front);
        assert(ends_its_turn(state, messages, n));
    }
}

/// While the turn is streamed, a session that goes on has counted every tool call, holds the
/// answer streamed last and the usage reported last, and has sent the rejections of the server's
/// requests, one for each, and nothing else.
pub proof fn stream_is_summed_up(state: SessionState, messages: Seq<JsonTree>)
    requires
        state.phase == Phase::Stream,
    ensures
        converse(state, messages) matches Outcome::Continue { state: after, sent } ==> {
            &&& after.phase == Phase::Stream
            &&& same_task(state, after)
            &&& after.tool_calls == state.tool_calls + messages.filter(
                |message: JsonTree| is_tool_call(message),
            ).len()
            &&& after.raw == (if last_streamed(messages) is Some {
                last_streamed(messages)
            } else {
                state.raw
            })
            &&& after.usage == (match last_reported(messages) {
                Some(usage) => usage,
                None => state.usage,
            })
            &&& sent == rejections(messages)
        },
    decreases messages.len(),
{
    reveal(Seq::filter);
    if messages.len() > 0 {
        stream_is_summed_up(state, messages.drop_last());
        crate::session::lemma_names_differ();
    }
}

/// The answer that a finished turn leaves is the one streamed last, and where none was streamed
/// the one that the turn lists last; the tool calls and the usage are those of the stream.
pub proof fn finished_turn_sums_up_the_stream(
    state: SessionState,
    messages: Seq<JsonTree>,
    last: JsonTree,
)
    requires
        state.phase == Phase::Stream,
        state.raw is None,
        state.usage is None,
        state.tool_calls == 0,
        converse(state, messages) is Continue,
        is_turn_end(last),
        last.at("params"@).at("turn"@).at("status"@).is_text("completed"@),
    ensures
        ({
            let listed = crate::session::listed_answer(last.at("params"@).at("turn"@));
            let raw = if last_streamed(messages) is Some {
                last_streamed(messages)
            } else {
                listed
            };
            converse(state, messages.push(last)) == match raw {
                Some(text) => Outcome::Finished {
                    raw: text,
                    usage: match last_reported(messages) {
                        Some(usage) => usage,
                        None => None,
                    },
                    tool_calls: messages.filter(|message: JsonTree| is_tool_call(message)).len(),
                },
                None => Outcome::Failed(crate::session::Failure::MissingOutput),
            }
        }),
{
    stream_is_summed_up(state, messages);
    assert(messages.push(last).drop_last() == messages);
}

/// A request of the server is always answered, by one rejection under its own id, and changes
/// nothing; unless it bears the id of the answer that is waited for, or reports a fatal error
/// while the session waits.
pub proof fn server_requests_are_rejected(state: SessionState, message: JsonTree)
    requires
        is_server_request(message),
        state.phase == Phase::Stream || (message.at("id"@).unsigned()
            != crate::session::awaited_id(state.phase) && !is_fatal_error(message)),
    ensures
        next(state, message) == rejected(state, message),
{
}

/// Once a session has ended, nothing that the server sends afterwards changes how it ended.
pub proof fn an_end_is_final(state: SessionState, messages: Seq<JsonTree>, more: Seq<JsonTree>)
    requires
        !(converse(state, messages) is Continue),
    ensures
        converse(state, messages + more) == converse(state, messages),
    decreases more.len(),
{
    if more.len() == 0 {
        assert(messages + more == messages);
    } else {
        an_end_is_final(state, messages, more.drop_last());
        assert((messages + more).drop_last() == messages + more.drop_last());
    }
}

/// Nothing was streamed, reported or counted yet.
pub open spec fn is_fresh(state: SessionState) -> bool {
    state.raw is None && state.usage is None && state.tool_calls == 0
}

/// A conversation carries on from where its first part left it.
pub proof fn a_conversation_carries_on(
    state: SessionState,
    first: Seq<JsonTree>,
    second: Seq<JsonTree>,
)
    ensures
        converse(state, first + second) == match converse(state, first) {
            Outcome::Continue { state: middle, sent } => match converse(middle, second) {
                Outcome::Continue { state: after, sent: more } => Outcome::Continue {
                    state: after,
                    sent: sent + more,
                },
                end => end,
            },
            end => end,
        },
    decreases second.len(),
{
    if second.len() == 0 {
        assert(first + second == first);
        if let Outcome::Continue { state: middle, sent } = converse(state, first) {
            assert(sent + Seq::<JsonTree>::empty() == sent);
        }
    } else {
        let front = second.drop_last();
        a_conversation_carries_on(state, first, front);
        assert((first + second).drop_last() == first + front);
        if let Outcome::Continue { state: middle, sent } = converse(state, first) {
            if let Outcome::Continue { state: before, sent: more } = converse(middle, front) {
                if let Outcome::Continue { state: after, sent: last } = next(
                    before,
                    second.last(),
                ) {
                    assert((sent + more) + last == sent + (more + last));
                }
            }
        }
    }
}

/// Until the turn is streamed nothing is counted, and so the stream starts fresh.
proof fn lemma_stream_starts_fresh(state: SessionState, messages: Seq<JsonTree>) -> (n: int)
    requires
        state.phase == Phase::Initialize,
        is_fresh(state),
        converse(state, messages) is Continue,
    ensures
        converse(state, messages)->state.phase != Phase::Stream ==> is_fresh(
            converse(state, messages)->state,
        ),
        converse(state, messages)->state.phase == Phase::Stream ==> {
            &&& 0 <= n <= messages.len()
            &&& converse(state, messages.take(n)) matches Outcome::Continue { state: begun, .. }
                && begun.phase == Phase::Stream && is_fresh(begun)
        },
    decreases messages.len(),
{
    if messages.len() == 0 {
        0
    } else {
        let front = messages.drop_last();
        let k = lemma_stream_starts_fresh(state, front);
        let before = converse(state, front)->state;
        if before.phase == Phase::Stream {
            assert(front.take(k) == messages.take(k));
            k
        } else {
            assert(messages.take(messages.len() as int) == messages);
            messages.len() as int
        }
    }
}

/// What a session that ran from its start to its finish reports is what came between the moment
/// its turn was streamed and the end of that turn: the tool calls counted, the usage reported
/// last, and the answer streamed last, or else the one that the turn lists last.
pub proof fn a_finished_session_reports_its_turn(state: SessionState, messages: Seq<JsonTree>)
    requires
        state.phase == Phase::Initialize,
        is_fresh(state),
        converse(state, messages) is Finished,
    ensures
        exists|n: int, m: int|
            #![trigger messages.subrange(n, m)]
            {
                let stream = messages.subrange(n, m);
                &&& 0 <= n <= m < messages.len()
                &&& converse(state, messages.take(n)) matches Outcome::Continue {
                    state: begun,
                    ..
                } && begun.phase == Phase::Stream && is_fresh(begun)
                &&& is_turn_end(messages[m])
                &&& messages[m].at("method"@) == JsonTree::Text("turn/completed"@)
                &&& messages[m].at("params"@).at("turn"@).at("status"@) == JsonTree::Text(
                    "completed"@,
                )
                &&& converse(state, messages) matches Outcome::Finished { raw, usage, tool_calls }
                    && tool_calls == stream.filter(
                    |message: JsonTree| is_tool_call(message),
                ).len() && usage == (match last_reported(stream) {
                    Some(reported) => reported,
                    None => None,
                }) && Some(raw) == (if last_streamed(stream) is Some {
                    last_streamed(stream)
                } else {
                    crate::session::listed_answer(messages[m].at("params"@).at("turn"@))
                })
            },
{
    finishes_only_after_a_turn(state, messages);
    let m = choose|m: int| #[trigger] ends_its_turn(state, messages, m);
    let lead = messages.take(m);
    let n = lemma_stream_starts_fresh(state, lead);
    let stream = messages.subrange(n, m);
    assert(lead.take(n) == messages.take(n));
    assert(lead == messages.take(n) + stream);
    a_conversation_carries_on(state, messages.take(n), stream);
    let begun = converse(state, messages.take(n))->state;
    stream_is_summed_up(begun, stream);
    assert(messages.take(m + 1).drop_last() == lead);
    assert(messages.take(m + 1).last() == messages[m]);
    let rest = messages.skip(m + 1);
    assert(messages == messages.take(m + 1) + rest);
    an_end_is_final(state, messages.take(m + 1), rest);
}

/// The message has no id or no method: it is no request of the server.
pub open spec fn is_no_request(message: JsonTree) -> bool {
    !message.has("id"@) || !message.has("method"@)
}

/// The message does not bear the id of the answer that the session waits for.
pub open spec fn is_no_answer(state: SessionState, message: JsonTree) -> bool {
    &&& state.phase == Phase::Initialize ==> message.at("id"@) != JsonTree::Unsigned(1)
    &&& state.phase == Phase::StartThread ==> message.at("id"@) != JsonTree::Unsigned(2)
    &&& state.phase == Phase::StartTurn ==> message.at("id"@) != JsonTree::Unsigned(3)
}

/// The message is a text under `method`, and no request of the server.
pub open spec fn is_notice(message: JsonTree, method: Seq<char>) -> bool {
    is_no_request(message) && message.at("method"@) == JsonTree::Text(method)
}

/// The answer that is waited for, by its id, takes the session one request further and changes
/// nothing else: after the opening the notice and the request for a thread go out, after the
/// thread the request for a turn on it, and after the turn nothing.
pub proof fn an_answer_takes_the_session_further(state: SessionState, message: JsonTree)
    requires
        state.phase != Phase::Stream,
        !is_no_answer(state, message),
        !message.has("error"@),
        message.has("result"@),
    ensures
        state.phase == Phase::Initialize ==> next(state, message) == (Outcome::Continue {
            state: SessionState { phase: Phase::StartThread, ..state },
            sent: seq![initialized_tree(), thread_start_tree(state.cwd, state.model)],
        }),
        state.phase == Phase::StartThread ==> match message.at("result"@).at("thread"@).at("id"@) {
            JsonTree::Text(thread_id) => next(state, message) == (Outcome::Continue {
                state: SessionState { phase: Phase::StartTurn, ..state },
                sent: seq![turn_start_tree(thread_id, state.prompt, state.effort)],
            }),
            _ => next(state, message) == Outcome::Failed(Failure::MissingThreadId),
        },
        state.phase == Phase::StartTurn ==> next(state, message) == (Outcome::Continue {
            state: SessionState { phase: Phase::Stream, ..state },
            sent: Seq::empty(),
        }),
{
}

/// The answer that is waited for ends the session where it is an error, whatever else it holds,
/// in the words of the error; and where it is neither an error nor a result.
pub proof fn an_answer_without_a_result_ends_the_session(state: SessionState, message: JsonTree)
    requires
        state.phase != Phase::Stream,
        !is_no_answer(state, message),
    ensures
        message.has("error"@) ==> match message.at("error"@).at("message"@) {
            JsonTree::Text(text) => next(state, message) == Outcome::Failed(
                Failure::RequestFailed(Some(text)),
            ),
            _ => next(state, message) == Outcome::Failed(Failure::RequestFailed(None)),
        },
        !message.has("error"@) && !message.has("result"@) ==> next(state, message)
            == Outcome::Failed(Failure::MissingResult),
{
}

/// An error that the server reports ends the session, in the server's words if it has any, unless
/// the server says that it tries again; then it changes nothing.
pub proof fn an_error_ends_the_session_unless_it_is_retried(
    state: SessionState,
    message: JsonTree,
)
    requires
        is_notice(message, "error"@),
        is_no_answer(state, message),
    ensures
        message.at("params"@).at("willRetry"@) == JsonTree::Bool(true) ==> next(state, message)
            == (Outcome::Continue { state, sent: Seq::empty() }),
        message.at("params"@).at("willRetry"@) != JsonTree::Bool(true) ==> ({
            let text = match message.at("params"@).at("error"@).at("message"@) {
                JsonTree::Text(text) => Some(text),
                _ => None,
            };
            &&& state.phase == Phase::Stream ==> next(state, message) == Outcome::Failed(
                Failure::TurnFailed(text),
            )
            &&& state.phase != Phase::Stream ==> next(state, message) == Outcome::Failed(
                Failure::StartupFailed(text),
            )
        }),
{
    crate::session::lemma_names_differ();
}

/// Before the turn is streamed a request of the server that reports an error counts as the error;
/// any other request of the server is answered, under its own id, with a refusal and nothing else,
/// and leaves the session as it is.
pub proof fn a_request_of_the_server_is_refused(state: SessionState, message: JsonTree)
    requires
        !is_no_request(message),
        is_no_answer(state, message),
        state.phase == Phase::Stream || message.at("method"@) != JsonTree::Text("error"@)
            || message.at("params"@).at("willRetry"@) == JsonTree::Bool(true),
    ensures
        next(state, message) matches Outcome::Continue { state: after, sent } && after == state
            && sent.len() == 1 && sent[0].at("id"@) == message.at("id"@) && sent[0].at(
            "error"@,
        ).at("code"@) == JsonTree::Negative(-32601i64),
{
    crate::protocol::a_request_is_refused_under_its_own_id(message.at("id"@), "id"@);
}

/// While the session waits for an answer, all that is neither the answer nor an error nor a request
/// of the server is passed over.
pub proof fn a_waiting_session_passes_over_the_rest(state: SessionState, message: JsonTree)
    requires
        state.phase != Phase::Stream,
        is_no_request(message),
        is_no_answer(state, message),
        message.at("method"@) != JsonTree::Text("error"@),
    ensures
        next(state, message) == (Outcome::Continue { state, sent: Seq::empty() }),
{
}

/// A completed item counts as a tool call where it is a command, a call of a tool or a search; it
/// brings an answer where it is a message with a text, which replaces any earlier one; and any
/// other item is passed over. Nothing is sent, and nothing else changes.
pub proof fn an_item_counts_for_what_it_is(state: SessionState, message: JsonTree)
    requires
        state.phase == Phase::Stream,
        is_notice(message, "item/completed"@),
    ensures
        ({
            let item = message.at("params"@).at("item"@);
            let kind = item.at("type"@);
            let is_call = kind == JsonTree::Text("commandExecution"@) || kind == JsonTree::Text(
                "mcpToolCall"@,
            ) || kind == JsonTree::Text("webSearch"@);
            let is_answer = kind == JsonTree::Text("agentMessage"@);
            &&& is_call ==> next(state, message) == (Outcome::Continue {
                state: SessionState { tool_calls: state.tool_calls + 1, ..state },
                sent: Seq::empty(),
            })
            &&& is_answer ==> match item.at("text"@) {
                JsonTree::Text(text) => next(state, message) == (Outcome::Continue {
                    state: SessionState { raw: Some(text), ..state },
                    sent: Seq::empty(),
                }),
                _ => next(state, message) == (Outcome::Continue { state, sent: Seq::empty() }),
            }
            &&& !is_call && !is_answer ==> next(state, message) == (Outcome::Continue {
                state,
                sent: Seq::empty(),
            })
        }),
{
    crate::session::lemma_names_differ();
}

/// A report of the usage replaces any earlier one, by none where it does not read as a usage.
/// Nothing is sent, and nothing else changes.
pub proof fn the_last_report_of_the_usage_counts(state: SessionState, message: JsonTree)
    requires
        state.phase == Phase::Stream,
        is_notice(message, "thread/tokenUsage/updated"@),
    ensures
        next(state, message) == (Outcome::Continue {
            state: SessionState {
                usage: crate::usage::usage_of(
                    message.at("params"@).at("tokenUsage"@).at("last"@),
                ),
                ..state
            },
            sent: Seq::empty(),
        }),
{
    crate::session::lemma_names_differ();
}

/// A turn that ends in any other state than completed, or in none, fails in the words of its own
/// error, whatever was streamed before.
pub proof fn a_turn_that_is_not_completed_fails(state: SessionState, message: JsonTree)
    requires
        state.phase == Phase::Stream,
        is_notice(message, "turn/completed"@),
        message.at("params"@).at("turn"@).at("status"@) != JsonTree::Text("completed"@),
    ensures
        match message.at("params"@).at("turn"@).at("error"@).at("message"@) {
            JsonTree::Text(text) => next(state, message) == Outcome::Failed(
                Failure::TurnIncomplete(Some(text)),
            ),
            _ => next(state, message) == Outcome::Failed(Failure::TurnIncomplete(None)),
        },
{
    crate::session::lemma_names_differ();
}

/// The item at `n` is the last message of the agent among the items.
pub open spec fn is_last_message(items: Seq<JsonTree>, n: int) -> bool {
    &&& 0 <= n < items.len()
    &&& items[n].at("type"@) == JsonTree::Text("agentMessage"@)
    &&& forall|i: int|
        n < i < items.len() ==> (#[trigger] items[i]).at("type"@) != JsonTree::Text(
            "agentMessage"@,
        )
}

/// There is no message of the agent among the items.
pub open spec fn has_no_message(items: Seq<JsonTree>) -> bool {
    forall|i: int|
        0 <= i < items.len() ==> (#[trigger] items[i]).at("type"@) != JsonTree::Text(
            "agentMessage"@,
        )
}

/// Which message is the last.
proof fn lemma_last_message(items: Seq<JsonTree>, n: int)
    ensures
        is_last_message(items, n) ==> crate::session::last_agent_message(items) == Some(items[n]),
        has_no_message(items) ==> crate::session::last_agent_message(items) is None,
    decreases items.len(),
{
    if items.len() > 0 {
        let front = items.drop_last();
        let last = items.len() - 1;
        assert(items[last] == items.last());
        lemma_last_message(front, n);
        if is_last_message(items, n) && n < last {
            assert(front[n] == items[n]);
            assert forall|i: int| n < i < front.len() implies (#[trigger] front[i]).at("type"@)
                != JsonTree::Text("agentMessage"@) by {
                assert(items[i].at("type"@) != JsonTree::Text("agentMessage"@));
            }
            assert(is_last_message(front, n));
        }
        if has_no_message(items) {
            assert forall|i: int| 0 <= i < front.len() implies (#[trigger] front[i]).at("type"@)
                != JsonTree::Text("agentMessage"@) by {
                assert(items[i].at("type"@) != JsonTree::Text("agentMessage"@));
            }
            assert(has_no_message(front));
        }
    }
}

/// A turn that is completed brings back the answer that was streamed, with the calls and the usage
/// of the session; where none was streamed, the text of the last message that the turn lists; and
/// where there is none either, it fails.
pub proof fn a_completed_turn_brings_back_its_answer(
    state: SessionState,
    message: JsonTree,
    n: int,
)
    requires
        state.phase == Phase::Stream,
        is_notice(message, "turn/completed"@),
        message.at("params"@).at("turn"@).at("status"@) == JsonTree::Text("completed"@),
    ensures
        ({
            let items = message.at("params"@).at("turn"@).at("items"@);
            let outcome = next(state, message);
            &&& state.raw matches Some(raw) ==> outcome == (Outcome::Finished {
                raw,
                usage: state.usage,
                tool_calls: state.tool_calls,
            })
            &&& state.raw is None && items is Array && is_last_message(items->Array_0, n)
                ==> match items->Array_0[n].at("text"@) {
                JsonTree::Text(raw) => outcome == (Outcome::Finished {
                    raw,
                    usage: state.usage,
                    tool_calls: state.tool_calls,
                }),
                _ => outcome == Outcome::Failed(Failure::MissingOutput),
            }
            &&& state.raw is None && (!(items is Array) || has_no_message(items->Array_0))
                ==> outcome == Outcome::Failed(Failure::MissingOutput)
        }),
{
    crate::session::lemma_names_differ();
    let items = message.at("params"@).at("turn"@).at("items"@);
    if items is Array {
        lemma_last_message(items->Array_0, n);
    }
}

/// While the turn is streamed, any other notice is passed over.
pub proof fn a_stream_passes_over_the_rest(state: SessionState, message: JsonTree)
    requires
        state.phase == Phase::Stream,
        is_no_request(message),
        message.at("method"@) != JsonTree::Text("item/completed"@),
        message.at("method"@) != JsonTree::Text("thread/tokenUsage/updated"@),
        message.at("method"@) != JsonTree::Text("turn/completed"@),
        message.at("method"@) != JsonTree::Text("error"@),
    ensures
        next(state, message) == (Outcome::Continue { state, sent: Seq::empty() }),
{
}

/// A session finishes by nothing but the completed end of a turn, while the turn is streamed.
pub proof fn nothing_else_finishes_a_session(state: SessionState, message: JsonTree)
    requires
        next(state, message) is Finished,
    ensures
        state.phase == Phase::Stream,
        is_notice(message, "turn/completed"@),
        message.at("params"@).at("turn"@).at("status"@) == JsonTree::Text("completed"@),
{
}

/// A conversation is held one message after the other: as long as the session goes on, each message
/// is taken in the state that the ones before it led to, and what is sent adds up in order.
pub proof fn messages_are_taken_one_by_one(
    state: SessionState,
    messages: Seq<JsonTree>,
    message: JsonTree,
)
    ensures
        converse(state, Seq::empty()) == (Outcome::Continue { state, sent: Seq::empty() }),
        match converse(state, messages) {
            Outcome::Continue { state: before, sent } => match next(before, message) {
                Outcome::Continue { state: after, sent: more } => converse(
                    state,
                    messages.push(message),
                ) == (Outcome::Continue { state: after, sent: sent + more }),
                end => converse(state, messages.push(message)) == end,
            },
            end => converse(state, messages.push(message)) == end,
        },
{
    assert(messages.push(message).drop_last() == messages);
}

/// What is said of a failure: the server's own words where it gives any, and else what failed.
pub proof fn failures_are_told_in_the_servers_words(text: Seq<char>)
    ensures
        crate::session::failure_wording(Failure::OutputClosed)
            == "Codex app-server closed its output"@,
        crate::session::failure_wording(Failure::MalformedMessage(text))
            == "Codex app-server returned malformed JSON"@,
        crate::session::failure_wording(Failure::RequestFailed(Some(text)))
            == "Codex app-server request failed: "@ + text,
        crate::session::failure_wording(Failure::<Seq<char>>::RequestFailed(None))
            == "Codex app-server request failed: "@ + "unknown error"@,
        crate::session::failure_wording(Failure::MissingResult)
            == "Codex app-server response had no result"@,
        crate::session::failure_wording(Failure::StartupFailed(Some(text))) == text,
        crate::session::failure_wording(Failure::<Seq<char>>::StartupFailed(None))
            == "Codex app-server request failed"@,
        crate::session::failure_wording(Failure::MissingThreadId)
            == "Codex app-server returned no thread id"@,
        crate::session::failure_wording(Failure::TurnIncomplete(Some(text))) == text,
        crate::session::failure_wording(Failure::<Seq<char>>::TurnIncomplete(None))
            == "Codex turn did not complete"@,
        crate::session::failure_wording(Failure::TurnFailed(Some(text))) == text,
        crate::session::failure_wording(Failure::<Seq<char>>::TurnFailed(None))
            == "Codex app-server turn failed"@,
        crate::session::failure_wording(Failure::MissingOutput)
            == "Codex app-server returned no structured result"@,
{
}

} // verus!
