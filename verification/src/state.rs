use crate::buffer::{Buffer, BufferView};
use crate::error::Error;
use crate::message::{Message, MessageView};
use crate::task::{file_saved, load_file, pick_afile, Task, TaskView};
use crate::theme::{Appearance, Theme};
use std::path::PathBuf;
use vstd::prelude::*;

verus! {

/// The editor: one document, its file, and how it is shown.
pub struct Editor {
    /// The text of the document, with its cursor.
    pub buffer: Buffer,
    /// The file that the document was read from or written to, if any.
    pub path: Option<PathBuf>,
    /// How the last file operation that failed did fail.
    pub error: Option<Error>,
    /// The theme for syntax highlighting.
    pub theme: Theme,
    /// Whether the document was edited since it was last read or written.
    pub is_dirty: bool,
}

/// What an editor holds, with its buffer as lines of text.
pub struct DocumentState {
    pub buffer: BufferView,
    pub path: Option<PathBuf>,
    pub error: Option<Error>,
    pub theme: Theme,
    pub is_dirty: bool,
}

impl DocumentState {
    /// The state in which an editor starts: an empty document without a file,
    /// counted as edited until a file has been read.
    pub open spec fn initial() -> DocumentState {
        DocumentState {
            buffer: BufferView::empty(),
            path: None,
            error: None,
            theme: Theme::SolarizedDark,
            is_dirty: true,
        }
    }

    /// The state after `message`, where `edited` is what the buffer has made of
    /// an action in the editor pane.
    ///
    /// An action goes to the buffer, and the document counts as edited from
    /// then on if the action is an edit. A new document has an empty buffer, no
    /// file and no error. A file that was opened fills the buffer and becomes
    /// the document's file; a file that was saved becomes the document's file;
    /// after either the document counts as unedited. A file operation that
    /// failed leaves its error and nothing else. Asking to open or to save
    /// changes nothing by itself.
    pub open spec fn next(self, message: MessageView, edited: BufferView) -> DocumentState {
        match message {
            MessageView::Edit(action) => DocumentState {
                buffer: edited,
                is_dirty: self.is_dirty || action.edits(),
                ..self
            },
            MessageView::New => DocumentState {
                buffer: BufferView::empty(),
                path: None,
                error: None,
                ..self
            },
            MessageView::Open => self,
            MessageView::Save => self,
            MessageView::FileOpen(Ok((path, text))) => DocumentState {
                buffer: BufferView::loaded(text),
                path: Some(path),
                is_dirty: false,
                ..self
            },
            MessageView::FileOpen(Err(error)) => DocumentState { error: Some(error), ..self },
            MessageView::FileSaved(Ok(path)) => DocumentState {
                path: Some(path),
                is_dirty: false,
                ..self
            },
            MessageView::FileSaved(Err(error)) => DocumentState { error: Some(error), ..self },
            MessageView::ThemeSelected(theme) => DocumentState { theme, ..self },
        }
    }

    /// The file operation that `message` sets off, if any: asking to open sets
    /// off the picking and reading of a file, asking to save the writing of the
    /// buffer's text to the document's file, or to one that the user chooses if
    /// the document has none.
    pub open spec fn follow_up(self, message: MessageView) -> Option<TaskView> {
        match message {
            MessageView::Open => Some(TaskView::pick_afile()),
            MessageView::Save => Some(TaskView::file_saved(self.path, self.buffer.text())),
            _ => None,
        }
    }
}

/// A task that may be there, with the text that it carries as a sequence of
/// characters.
pub open spec fn task_view(task: Option<Task>) -> Option<TaskView> {
    match task {
        Some(task) => Some(task@),
        None => None,
    }
}

impl Editor {
    /// What the editor holds.
    pub open spec fn state(&self) -> DocumentState {
        DocumentState {
            buffer: self.buffer@,
            path: self.path,
            error: self.error,
            theme: self.theme,
            is_dirty: self.is_dirty,
        }
    }

    /// An editor in its initial state, and the task of reading the file at
    /// `start` into it.
    pub fn new(start: PathBuf) -> (made: (Editor, Task))
        ensures
            made.0.state() == DocumentState::initial(),
            made.1@ == TaskView::load_file(start),
    {
        (
            Editor {
                buffer: Buffer::new(),
                path: None,
                error: None,
                theme: Theme::SolarizedDark,
                is_dirty: true,
            },
            load_file(start),
        )
    }

    /// Takes in `message`, and returns the file operation that it sets off, if
    /// any.
    pub fn update(&mut self, message: Message) -> (task: Option<Task>)
        ensures
            final(self).state() == old(self).state().next(message@, final(self).buffer@),
            message@ matches MessageView::Edit(action) ==> old(self).buffer@.performs(
                action,
                final(self).buffer@,
            ),
            task_view(task) == old(self).state().follow_up(message@),
    {
        match message {
            Message::Edit(action) => {
                self.is_dirty = self.is_dirty || action.is_edit();
                self.buffer.perform(action);
                None
            },
            Message::New => {
                self.path = None;
                self.buffer = Buffer::new();
                self.error = None;
                None
            },
            Message::Open => Some(pick_afile()),
            Message::Save => {
                let text = self.buffer.text();
                Some(file_saved(self.path.clone(), text))
            },
            Message::FileSaved(Ok(path)) => {
                self.path = Some(path);
                self.is_dirty = false;
                None
            },
            Message::FileSaved(Err(error)) => {
                self.error = Some(error);
                None
            },
            Message::FileOpen(Ok((path, content))) => {
                self.path = Some(path);
                self.is_dirty = false;
                self.buffer = Buffer::with_text(content.as_str());
                None
            },
            Message::FileOpen(Err(error)) => {
                self.error = Some(error);
                None
            },
            Message::ThemeSelected(theme) => {
                self.theme = theme;
                None
            },
        }
    }

    /// The look of the window: dark with a dark theme, light with a light one.
    pub fn theme(&self) -> (appearance: Appearance)
        ensures
            appearance == self.theme.appearance(),
    {
        if self.theme.is_dark() {
            Appearance::Dark
        } else {
            Appearance::Light
        }
    }
}

} // verus!
