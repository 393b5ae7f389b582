use crate::error::Error;
use crate::path::{extension_of, path_extension, path_text, text_of};
use crate::state::{DocumentState, Editor};
use crate::theme::Theme;
use std::path::PathBuf;
use vstd::prelude::*;

verus! {

/// What the window shows of an editor, besides the text itself.
#[derive(Debug, PartialEq, Eq)]
pub struct Frame {
    /// Whether the save button can be pressed.
    pub can_save: bool,
    /// The theme that the theme picker shows as chosen.
    pub theme: Theme,
    /// The grammar by which the editor pane highlights the text, named by a
    /// file extension.
    pub grammar: String,
    /// The left side of the status bar.
    pub status: String,
    /// The right side of the status bar: where the cursor stands.
    pub position: String,
}

/// The character for a digit below ten.
pub open spec fn digit(d: nat) -> char
    recommends
        d < 10,
{
    ('0' as nat + d) as char
}

/// A number written in decimal digits, without leading zeros.
pub open spec fn decimal(n: nat) -> Seq<char>
    decreases n,
{
    if n < 10 {
        seq![digit(n)]
    } else {
        decimal(n / 10).push(digit(n % 10))
    }
}

/// Where a cursor stands, as the status bar shows it: its line and its column,
/// both counted from 1, with a colon between them.
pub open spec fn position_text(cursor: (nat, nat)) -> Seq<char> {
    decimal(cursor.0 + 1) + seq![':'] + decimal(cursor.1 + 1)
}

/// The grammar that goes with a file: the extension of its name, and `rs`
/// where there is no file or its name has no extension.
pub open spec fn grammar_for(path: Option<PathBuf>) -> Seq<char> {
    match path {
        Some(path) => match path_extension(path) {
            Some(extension) => extension,
            None => "rs"@,
        },
        None => "rs"@,
    }
}

/// The name under which a document goes in the status bar: the path of its
/// file, and `new file` where it has none or the path cannot be shown.
pub open spec fn file_label(path: Option<PathBuf>) -> Seq<char> {
    match path {
        Some(path) => match path_text(path) {
            Some(text) => text,
            None => "new file"@,
        },
        None => "new file"@,
    }
}

/// Whether `status` is what the status bar shows on its left: the last error if
/// it is one that is shown, else the name of the document.
pub open spec fn is_status(error: Option<Error>, path: Option<PathBuf>, status: Seq<char>) -> bool {
    match error {
        Some(Error::IoFailure(kind)) => Error::IoFailure(kind).shown_as(status),
        _ => status == file_label(path),
    }
}

impl Frame {
    /// Whether the frame shows the document in `state`: the save button can be
    /// pressed only when the document was edited, the grammar goes with the
    /// document's file, and the status bar tells of the last I/O failure or
    /// else names the document, and says where the cursor stands.
    pub open spec fn shows(self, state: DocumentState) -> bool {
        &&& self.can_save == state.is_dirty
        &&& self.theme == state.theme
        &&& self.grammar@ == grammar_for(state.path)
        &&& is_status(state.error, state.path, self.status@)
        &&& self.position@ == position_text(state.buffer.cursor)
    }
}

/// The text of one digit.
fn digit_text(d: u8) -> (text: &'static str)
    requires
        d < 10,
    ensures
        text@ == seq![digit(d as nat)],
{
    proof {
        reveal_strlit("0");
        reveal_strlit("1");
        reveal_strlit("2");
        reveal_strlit("3");
        reveal_strlit("4");
        reveal_strlit("5");
        reveal_strlit("6");
        reveal_strlit("7");
        reveal_strlit("8");
        reveal_strlit("9");
    }
    let text = match d {
        0 => "0",
        1 => "1",
        2 => "2",
        3 => "3",
        4 => "4",
        5 => "5",
        6 => "6",
        7 => "7",
        8 => "8",
        _ => "9",
    };
    assert(text@ =~= seq![digit(d as nat)]);
    text
}

/// Appends `n` to `text`, in decimal digits.
fn push_decimal(text: &mut String, n: u128)
    ensures
        final(text)@ == old(text)@ + decimal(n as nat),
    decreases n,
{
    if n >= 10 {
        push_decimal(text, n / 10);
    }
    let d: u8 = (n % 10) as u8;
    text.append(digit_text(d));
    assert(final(text)@ =~= old(text)@ + decimal(n as nat));
}

/// The text that shows where the cursor stands: line and column, counted from
/// 1.
pub fn position(line: usize, column: usize) -> (text: String)
    ensures
        text@ == position_text((line as nat, column as nat)),
{
    let mut text = String::new();
    push_decimal(&mut text, line as u128 + 1);
    proof {
        reveal_strlit(":");
    }
    text.append(":");
    push_decimal(&mut text, column as u128 + 1);
    assert(text@ =~= position_text((line as nat, column as nat)));
    text
}

/// The grammar for a file whose name has the given extension, or none.
pub fn grammar(extension: Option<String>) -> (name: String)
    ensures
        name@ == match extension {
            Some(extension) => extension@,
            None => "rs"@,
        },
{
    match extension {
        Some(extension) => extension,
        None => String::from_str("rs"),
    }
}

/// The left side of the status bar: the text of the last failure if there is
/// one, else the text of the document's path, and `new file` if there is
/// neither.
pub fn status(failure: Option<String>, path: Option<String>) -> (text: String)
    ensures
        text@ == match (failure, path) {
            (Some(failure), _) => failure@,
            (None, Some(path)) => path@,
            (None, None) => "new file"@,
        },
{
    match failure {
        Some(failure) => failure,
        None => match path {
            Some(path) => path,
            None => String::from_str("new file"),
        },
    }
}

impl Editor {
    /// What the window shows of the editor.
    pub fn view(&self) -> (frame: Frame)
        ensures
            frame.shows(self.state()),
    {
        let extension = match &self.path {
            Some(path) => extension_of(path),
            None => None,
        };
        let failure = match &self.error {
            Some(error) => error.message(),
            None => None,
        };
        let label = match &self.path {
            Some(path) => text_of(path),
            None => None,
        };
        let cursor = self.buffer.cursor_position();
        Frame {
            can_save: self.is_dirty,
            theme: self.theme,
            grammar: grammar(extension),
            status: status(failure, label),
            position: position(cursor.0, cursor.1),
        }
    }
}

} // verus!
