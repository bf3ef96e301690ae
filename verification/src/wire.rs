//! Messages as lines: what is written to the server, and what is read from it.

use crate::codec::{frame, is_plain, json_text, parse, parsed_json, reads_as, MAX_DEPTH};
use crate::json::{array_view, Json, JsonTree};
use crate::session::{Failure, SessionError};
use vstd::prelude::*;
use vstd::string::*;

verus! {

/// Where the first line of an output ends: at its first line feed, or at its end.
pub open spec fn line_end(output: Seq<char>) -> nat
    decreases output.len(),
{
    if output.len() == 0 || output[0] == '\n' {
        0
    } else {
        1 + line_end(output.drop_first())
    }
}

/// A line without a carriage return at its end.
pub open spec fn without_return(line: Seq<char>) -> Seq<char> {
    if line.len() > 0 && line.last() == '\r' {
        line.drop_last()
    } else {
        line
    }
}

/// The lines of an output. A line feed ends a line and is not part of it, nor is a carriage return
/// before it; what follows the last line feed is a line too, unless nothing does.
pub open spec fn lines_of(output: Seq<char>) -> Seq<Seq<char>>
    decreases output.len(),
{
    let end = line_end(output);
    if output.len() == 0 {
        Seq::empty()
    } else if end >= output.len() {
        seq![output]
    } else {
        seq![without_return(output.take(end as int))] + lines_of(output.skip(end as int + 1))
    }
}

/// What a line is read as, or the end of the output in place of a line.
pub open spec fn message_of(line: Option<Seq<char>>) -> Result<JsonTree, Failure<Seq<char>>> {
    match line {
        Some(text) => match parsed_json(text) {
            Ok(message) => Ok(message),
            Err(wording) => Err(Failure::MalformedMessage(wording)),
        },
        None => Err(Failure::OutputClosed),
    }
}

/// What an output is read as, one line after the other, and then its end.
pub open spec fn received(output: Seq<char>) -> Seq<Result<JsonTree, Failure<Seq<char>>>> {
    let lines = lines_of(output);
    Seq::new(lines.len(), |i: int| message_of(Some(lines[i]))).push(message_of(None))
}

/// The messages, each on a line of its own.
pub open spec fn framed(messages: Seq<JsonTree>) -> Seq<char>
    decreases messages.len(),
{
    if messages.len() == 0 {
        Seq::empty()
    } else {
        framed(messages.drop_last()) + json_text(messages.last()).push('\n')
    }
}

/// The texts of the messages.
pub open spec fn texts_of(messages: Seq<JsonTree>) -> Seq<Seq<char>> {
    Seq::new(messages.len(), |i: int| json_text(messages[i]))
}

/// The messages hold no fraction, and are not deeper than what is read.
pub open spec fn all_plain(messages: Seq<JsonTree>) -> bool {
    forall|i: int|
        0 <= i < messages.len() ==> is_plain(#[trigger] messages[i], MAX_DEPTH as nat)
}

/// The messages, each read as itself, and then the end of the output.
pub open spec fn all_read(messages: Seq<JsonTree>) -> Seq<Result<JsonTree, Failure<Seq<char>>>> {
    Seq::new(messages.len(), |i: int| Ok::<JsonTree, Failure<Seq<char>>>(messages[i])).push(
        Err(Failure::OutputClosed),
    )
}

/// The first line ends before what follows its line feed.
proof fn lemma_line_end(line: Seq<char>, rest: Seq<char>)
    requires
        !line.contains('\n'),
    ensures
        line_end(line.push('\n') + rest) == line.len(),
    decreases line.len(),
{
    let output = line.push('\n') + rest;
    if line.len() > 0 {
        let shorter = line.drop_first();
        assert(output[0] == line[0]);
        assert(line.contains(line[0]));
        assert(output.drop_first() == shorter.push('\n') + rest);
        assert(!shorter.contains('\n')) by {
            if shorter.contains('\n') {
                let i = choose|i: int| 0 <= i < shorter.len() && shorter[i] == '\n';
                assert(line[i + 1] == '\n');
            }
        }
        lemma_line_end(shorter, rest);
    }
}

/// The first line of an output, and what follows it.
proof fn lemma_first_line(line: Seq<char>, rest: Seq<char>)
    requires
        !line.contains('\n'),
    ensures
        lines_of(line.push('\n') + rest) == seq![without_return(line)] + lines_of(rest),
{
    let output = line.push('\n') + rest;
    lemma_line_end(line, rest);
    assert(output.take(line.len() as int) == line);
    assert(output.skip(line.len() as int + 1) == rest);
}

/// An output that has a line feed is a first line and what follows it.
proof fn lemma_split(output: Seq<char>)
    requires
        output.len() > 0,
        output.last() == '\n',
    ensures
        line_end(output) < output.len(),
        !output.take(line_end(output) as int).contains('\n'),
        output == output.take(line_end(output) as int).push('\n') + output.skip(
            line_end(output) as int + 1,
        ),
    decreases output.len(),
{
    let end = line_end(output) as int;
    if output[0] == '\n' {
        assert(output == output.take(0).push('\n') + output.skip(1));
    } else {
        let rest = output.drop_first();
        assert(rest.last() == output.last());
        lemma_split(rest);
        let first = rest.take(end - 1);
        assert(output.take(end).drop_first() == first);
        if output.take(end).contains('\n') {
            let i = choose|i: int| 0 <= i < end && output.take(end)[i] == '\n';
            assert(first[i - 1] == '\n');
        }
        assert(output[end] == rest[end - 1]);
        assert(rest[end - 1] == (first.push('\n') + rest.skip(end))[end - 1]);
        assert(output == output.take(end).push('\n') + output.skip(end + 1));
    }
}

/// A line after whole lines is one line more.
proof fn lemma_last_line(output: Seq<char>, line: Seq<char>)
    requires
        output.len() == 0 || output.last() == '\n',
        !line.contains('\n'),
    ensures
        lines_of(output + line.push('\n')) == lines_of(output).push(without_return(line)),
    decreases output.len(),
{
    if output.len() == 0 {
        lemma_first_line(line, Seq::empty());
        assert(output + line.push('\n') == line.push('\n') + Seq::<char>::empty());
        assert(lines_of(Seq::<char>::empty()) == Seq::<Seq<char>>::empty());
    } else {
        lemma_split(output);
        let end = line_end(output) as int;
        let first = output.take(end);
        let rest = output.skip(end + 1);
        assert(rest.len() > 0 ==> rest.last() == output.last());
        lemma_last_line(rest, line);
        lemma_first_line(first, rest);
        lemma_first_line(first, rest + line.push('\n'));
        assert(output + line.push('\n') == first.push('\n') + (rest + line.push('\n')));
    }
}

/// One line is read at a time, whatever follows it and whether or not it is a message: what is
/// read of the output is what is read of its first line, and then what is read of the rest.
pub proof fn each_line_is_read_by_itself(line: Seq<char>, rest: Seq<char>)
    requires
        !line.contains('\n'),
    ensures
        received(line.push('\n') + rest) == seq![message_of(Some(without_return(line)))]
            + received(rest),
{
    lemma_first_line(line, rest);
}

/// Reads the message on a line, or the end of the output in place of a line.
pub fn next_message(line: Option<&str>) -> (result: Result<Json, SessionError>)
    ensures
        match result {
            Ok(message) => line matches Some(text) && message_of(Some(text@)) == Ok::<
                JsonTree,
                Failure<Seq<char>>,
            >(message@),
            Err(error) => message_of(
                match line {
                    Some(text) => Some(text@),
                    None => None,
                },
            ) == Err::<JsonTree, Failure<Seq<char>>>(error@),
        },
        line matches Some(text) && text@.len() == 0 ==> (result matches Err(error) && error
            is MalformedMessage),
{
    match line {
        Some(text) => match parse(text) {
            Ok(message) => Ok(message),
            Err(wording) => Err(Failure::MalformedMessage(wording)),
        },
        None => Err(Failure::OutputClosed),
    }
}

/// Writes the messages, each on a line of its own. Where they hold no fraction and are not deeper
/// than what is read, they are read back as they are, one after the other, and then the end.
pub fn frames(messages: Vec<Json>) -> (text: String)
    ensures
        text@ == framed(array_view(messages@)),
        lines_of(text@) == texts_of(array_view(messages@)),
        all_plain(array_view(messages@)) ==> received(text@) == all_read(array_view(messages@)),
{
    let mut text = String::new();
    let ghost all = messages@;
    let ghost trees = array_view(messages@);
    proof {
        crate::json::array_view_index(all);
        assert(trees.take(0) == Seq::<JsonTree>::empty());
    }
    for message in it: messages
        invariant
            it.seq() == all,
            trees == array_view(all),
            trees.len() == all.len(),
            forall|i: int| 0 <= i < all.len() ==> #[trigger] trees[i] == all[i]@,
            text@ == framed(trees.take(it.index() as int)),
            text@.len() == 0 || text@.last() == '\n',
            lines_of(text@) == texts_of(trees.take(it.index() as int)),
            forall|i: int|
                0 <= i < it.index() && is_plain(#[trigger] trees[i], MAX_DEPTH as nat) ==> reads_as(
                    json_text(trees[i]),
                    trees[i],
                ),
    {
        let ghost before = text@;
        let ghost n = it.index() as int;
        let line = frame(message);
        text.append(line.as_str());
        proof {
            let written = json_text(trees[n]);
            assert(trees.take(n + 1).drop_last() == trees.take(n));
            assert(trees.take(n + 1).last() == trees[n]);
            assert(text@ == before + written.push('\n'));
            lemma_last_line(before, written);
            if written.len() > 0 && written.last() == '\r' {
                assert(written.contains(written.last()));
            }
            assert(texts_of(trees.take(n + 1)) == texts_of(trees.take(n)).push(written));
        }
    }
    proof {
        assert(trees.take(trees.len() as int) == trees);
        if all_plain(trees) {
            assert(received(text@) == all_read(trees));
        }
    }
    text
}

/// A line is read as the message that it is parsed as, and as malformed where it is not parsed;
/// the end of the output is the end of the session.
pub proof fn a_line_is_read_as_it_is_parsed(line: Seq<char>)
    ensures
        parsed_json(line) matches Ok(tree) ==> message_of(Some(line)) == Ok::<
            JsonTree,
            Failure<Seq<char>>,
        >(tree),
        parsed_json(line) matches Err(wording) ==> message_of(Some(line)) == Err::<
            JsonTree,
            Failure<Seq<char>>,
        >(Failure::MalformedMessage(wording)),
        message_of(None) == Err::<JsonTree, Failure<Seq<char>>>(Failure::OutputClosed),
{
}

/// What follows the last line feed is a line too, unless nothing does; and of a line end, a
/// carriage return goes with the line feed.
pub proof fn line_ends_are_not_part_of_the_line(line: Seq<char>, rest: Seq<char>)
    requires
        !line.contains('\n'),
    ensures
        lines_of(Seq::empty()) == Seq::<Seq<char>>::empty(),
        line.len() > 0 ==> lines_of(line) == seq![line],
        lines_of(line.push('\r').push('\n') + rest) == seq![line] + lines_of(rest),
        line.len() == 0 || line.last() != '\r' ==> lines_of(line.push('\n') + rest) == seq![line]
            + lines_of(rest),
{
    let ended = line.push('\r');
    assert(!ended.contains('\n')) by {
        if ended.contains('\n') {
            let i = choose|i: int| 0 <= i < ended.len() && ended[i] == '\n';
            assert(line[i] == '\n');
        }
    }
    assert(ended.drop_last() == line);
    lemma_first_line(ended, rest);
    lemma_first_line(line, rest);
    lemma_no_end(line);
}

/// Where there is no line feed, the line goes to the end.
proof fn lemma_no_end(line: Seq<char>)
    requires
        !line.contains('\n'),
    ensures
        line_end(line) == line.len(),
    decreases line.len(),
{
    if line.len() > 0 {
        let rest = line.drop_first();
        assert(line.contains(line[0]));
        assert(!rest.contains('\n')) by {
            if rest.contains('\n') {
                let i = choose|i: int| 0 <= i < rest.len() && rest[i] == '\n';
                assert(line[i + 1] == '\n');
            }
        }
        lemma_no_end(rest);
    }
}

/// Messages are written one after the other, each as a line of its own.
pub proof fn each_message_is_a_line(messages: Seq<JsonTree>, message: JsonTree)
    ensures
        framed(Seq::empty()) == Seq::<char>::empty(),
        framed(messages.push(message)) == framed(messages) + json_text(message) + seq!['\n'],
{
    assert(messages.push(message).drop_last() == messages);
    assert(framed(messages) + json_text(message).push('\n') == framed(messages) + json_text(
        message,
    ) + seq!['\n']);
}

} // verus!
