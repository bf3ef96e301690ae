use codex_scout::codec::{parse, render};
use codex_scout::json::{Fields, Json};
use codex_scout::wire::{frames, next_message};
use tokio::io::{AsyncBufReadExt, BufReader};

/// What is read of an output, one call after the other, up to its end.
fn received(output: &str) -> Vec<String> {
    let runtime = tokio::runtime::Builder::new_current_thread().build().unwrap();
    runtime.block_on(async {
        let mut lines = BufReader::new(output.as_bytes()).lines();
        let mut read = Vec::new();
        loop {
            let line = lines.next_line().await.unwrap();
            match next_message(line.as_deref()) {
                Ok(message) => read.push(render(message)),
                Err(error) => read.push(error.message()),
            }
            if line.is_none() {
                return read;
            }
        }
    })
}

#[test]
fn messages_are_read_back_and_then_the_end() {
    let first = "{\"id\":1,\"text\":\"a\\r\\nb\"}";
    let second = "[-1,{\"k\":null}]";
    let text = frames(vec![parse(first).unwrap(), parse(second).unwrap()]);
    assert_eq!(text, format!("{first}\n{second}\n"));
    assert_eq!(received(&text), [first, second, "Codex app-server closed its output"]);
    assert_eq!(frames(Vec::new()), "");
    assert_eq!(received(""), ["Codex app-server closed its output"]);
}

#[test]
fn each_line_counts_whether_or_not_it_is_a_message() {
    assert_eq!(
        received("1\r\n\n{oops\n2\n3"),
        [
            "1",
            "Codex app-server returned malformed JSON",
            "Codex app-server returned malformed JSON",
            "2",
            "3",
            "Codex app-server closed its output",
        ]
    );
}

#[test]
fn a_message_takes_one_line() {
    let message = Fields::new().with("k\n", Json::string("\n\r\n")).object();
    let text = frames(vec![message, Json::Null]);
    assert_eq!(text.lines().count(), 2);
    assert_eq!(text, "{\"k\\n\":\"\\n\\r\\n\"}\nnull\n");
}

#[test]
fn an_unread_line_keeps_its_reason() {
    assert_eq!(
        next_message(Some("")).err().unwrap().report(),
        "Codex app-server returned malformed JSON: EOF while parsing a value at line 1 column 0"
    );
}
