use crate::action::Action;
use crate::error::Error;
use crate::theme::Theme;
use std::path::PathBuf;
use std::sync::Arc;
use vstd::prelude::*;

verus! {

/// Something that happened and that the editor has to take in: what the user
/// did, or how a file operation ended.
#[derive(Debug, PartialEq)]
pub enum Message {
    /// The user did something in the editor pane.
    Edit(Action),
    /// The user asked for a new document.
    New,
    /// The user asked to open a file.
    Open,
    /// Opening a file ended: with the file's path and text, or with an error.
    FileOpen(Result<(PathBuf, Arc<String>), Error>),
    /// The user asked to save the document.
    Save,
    /// Saving ended: with the path that was written, or with an error.
    FileSaved(Result<PathBuf, Error>),
    /// The user chose a theme.
    ThemeSelected(Theme),
}

/// A message, with the text that it carries as a sequence of characters.
pub enum MessageView {
    Edit(Action),
    New,
    Open,
    FileOpen(Result<(PathBuf, Seq<char>), Error>),
    Save,
    FileSaved(Result<PathBuf, Error>),
    ThemeSelected(Theme),
}

impl View for Message {
    type V = MessageView;

    open spec fn view(&self) -> MessageView {
        match *self {
            Message::Edit(action) => MessageView::Edit(action),
            Message::New => MessageView::New,
            Message::Open => MessageView::Open,
            Message::FileOpen(Ok((path, text))) => MessageView::FileOpen(Ok((path, text@))),
            Message::FileOpen(Err(error)) => MessageView::FileOpen(Err(error)),
            Message::Save => MessageView::Save,
            Message::FileSaved(outcome) => MessageView::FileSaved(outcome),
            Message::ThemeSelected(theme) => MessageView::ThemeSelected(theme),
        }
    }
}

} // verus!
