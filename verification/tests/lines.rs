use editor::message::Message;
use editor::state::Editor;
use editor::task::Task;
use std::path::PathBuf;
use std::sync::Arc;

fn opened(text: &str) -> Editor {
    let (mut editor, _) = Editor::new(PathBuf::from("/tmp/a.txt"));
    editor.update(Message::FileOpen(Ok((
        PathBuf::from("/tmp/a.txt"),
        Arc::new(String::from(text)),
    ))));
    editor
}

fn lines_of(text: &str) -> Vec<String> {
    opened(text).buffer.lines()
}

fn saved(text: &str) -> String {
    match opened(text).update(Message::Save) {
        Some(Task::Write { path, text }) => {
            assert_eq!(path, PathBuf::from("/tmp/a.txt"));
            text
        }
        other => panic!("saving did not lead to writing: {:?}", other),
    }
}

#[test]
fn an_empty_text_is_one_empty_line() {
    assert_eq!(lines_of(""), vec![""]);
}

#[test]
fn a_text_without_a_break_is_one_line() {
    assert_eq!(lines_of("hello"), vec!["hello"]);
}

#[test]
fn a_line_feed_at_the_end_opens_no_line() {
    assert_eq!(lines_of("hello\n"), vec!["hello"]);
    assert_eq!(lines_of("\n"), vec![""]);
}

#[test]
fn every_kind_of_ending_ends_a_line() {
    assert_eq!(lines_of("a\nb"), vec!["a", "b"]);
    assert_eq!(lines_of("a\rb"), vec!["a", "b"]);
    assert_eq!(lines_of("a\r\nb"), vec!["a", "b"]);
    assert_eq!(lines_of("a\n\rb"), vec!["a", "b"]);
}

#[test]
fn a_repeated_ending_makes_an_empty_line() {
    assert_eq!(lines_of("a\n\nb"), vec!["a", "", "b"]);
    assert_eq!(lines_of("a\r\rb"), vec!["a", "", "b"]);
    assert_eq!(lines_of("a\r\n\r\nb"), vec!["a", "", "b"]);
    assert_eq!(lines_of("a\n\r\nb"), vec!["a", "", "b"]);
    assert_eq!(lines_of("a\n\nb\n\n"), vec!["a", "", "b", ""]);
    assert_eq!(lines_of("\n\n"), vec!["", ""]);
}

#[test]
fn other_characters_end_no_line() {
    assert_eq!(lines_of("a\u{2028}b\u{85}c\u{c}d\te"), vec!["a\u{2028}b\u{85}c\u{c}d\te"]);
}

#[test]
fn a_text_ending_in_one_line_feed_is_saved_as_it_was_read() {
    for text in ["hello\n", "one\ntwo\n", "\n", "a\n\nb\n", "caf\u{e9}\n"] {
        assert_eq!(saved(text), text);
    }
}

#[test]
fn a_text_without_a_line_feed_at_its_end_gets_one() {
    assert_eq!(saved("hello"), "hello\n");
    assert_eq!(saved("one\ntwo"), "one\ntwo\n");
    assert_eq!(saved(""), "\n");
}

#[test]
fn a_blank_line_at_the_end_loses_its_line_feed() {
    assert_eq!(saved("a\n\n"), "a\n");
    assert_eq!(saved("a\n\nb\n\n"), "a\n\nb\n");
    assert_eq!(saved("\n\n"), "\n");
    assert_eq!(saved("\n\n\n"), "\n\n");
}

#[test]
fn carriage_returns_are_saved_as_line_feeds() {
    assert_eq!(saved("a\r\nb\r\n"), "a\nb\n");
    assert_eq!(saved("a\rb"), "a\nb\n");
    assert_eq!(saved("a\n\rb\n"), "a\nb\n");
}

#[test]
fn lines_are_handed_out_in_order() {
    assert_eq!(lines_of("1\n2\n3\n4\n5"), vec!["1", "2", "3", "4", "5"]);
}
