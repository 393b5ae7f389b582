use crate::error::Error;
use crate::message::{Message, MessageView};
use std::io::ErrorKind;
use std::path::PathBuf;
use std::sync::Arc;
use vstd::prelude::*;

verus! {

/// A file operation that runs beside the editor, and how far it has come. It
/// says what has to be done next outside the editor; [`Task::step`] takes the
/// outcome and says what follows.
#[derive(Debug, PartialEq)]
pub enum Task {
    /// Ask the user which file to open.
    Pick,
    /// Read the file at `path`.
    Load { path: PathBuf },
    /// Ask the user where to save `text`.
    Choose { text: String },
    /// Write `text` to the file at `path`.
    Write { path: PathBuf, text: String },
    /// The operation has ended; `message` tells the editor how.
    Done { message: Message },
}

/// The outcome of what a [`Task`] asked for.
#[derive(Debug, PartialEq)]
pub enum Event {
    /// A file dialog was closed: with the path that the user chose, or without
    /// one.
    Picked(Option<PathBuf>),
    /// A file was read: its text, or why it could not be read.
    Read(Result<String, ErrorKind>),
    /// A file was written, or why it could not be.
    Written(Result<(), ErrorKind>),
}

/// A task, with the text that it carries as a sequence of characters.
pub enum TaskView {
    Pick,
    Load { path: PathBuf },
    Choose { text: Seq<char> },
    Write { path: PathBuf, text: Seq<char> },
    Done { message: MessageView },
}

/// An event, with the text that it carries as a sequence of characters.
pub enum EventView {
    Picked(Option<PathBuf>),
    Read(Result<Seq<char>, ErrorKind>),
    Written(Result<(), ErrorKind>),
}

impl View for Task {
    type V = TaskView;

    open spec fn view(&self) -> TaskView {
        match *self {
            Task::Pick => TaskView::Pick,
            Task::Load { path } => TaskView::Load { path },
            Task::Choose { text } => TaskView::Choose { text: text@ },
            Task::Write { path, text } => TaskView::Write { path, text: text@ },
            Task::Done { message } => TaskView::Done { message: message@ },
        }
    }
}

impl View for Event {
    type V = EventView;

    open spec fn view(&self) -> EventView {
        match *self {
            Event::Picked(choice) => EventView::Picked(choice),
            Event::Read(Ok(text)) => EventView::Read(Ok(text@)),
            Event::Read(Err(kind)) => EventView::Read(Err(kind)),
            Event::Written(outcome) => EventView::Written(outcome),
        }
    }
}

impl TaskView {
    /// The task of opening a file that the user has yet to pick.
    pub open spec fn pick_afile() -> TaskView {
        TaskView::Pick
    }

    /// The task of opening the file at `path`.
    pub open spec fn load_file(path: PathBuf) -> TaskView {
        TaskView::Load { path }
    }

    /// The task of saving `text`: to `path` if there is one, else to a path
    /// that the user has yet to choose.
    pub open spec fn file_saved(path: Option<PathBuf>, text: Seq<char>) -> TaskView {
        match path {
            Some(path) => TaskView::Write { path, text },
            None => TaskView::Choose { text },
        }
    }

    /// What follows on `event`.
    ///
    /// A dialog that was closed without a choice ends the task with
    /// `DialogCancelled`; a choice leads on to reading or writing the chosen
    /// file. A file that was read or written ends the task with its path, one
    /// that could not be with `IoFailure`. An event that does not answer what
    /// the task asked for leaves the task as it is.
    pub open spec fn step(self, event: EventView) -> TaskView {
        match (self, event) {
            (TaskView::Pick, EventView::Picked(Some(path))) => TaskView::Load { path },
            (TaskView::Pick, EventView::Picked(None)) => TaskView::Done {
                message: MessageView::FileOpen(Err(Error::DialogCancelled)),
            },
            (TaskView::Load { path }, EventView::Read(Ok(text))) => TaskView::Done {
                message: MessageView::FileOpen(Ok((path, text))),
            },
            (TaskView::Load { path }, EventView::Read(Err(kind))) => TaskView::Done {
                message: MessageView::FileOpen(Err(Error::IoFailure(kind))),
            },
            (TaskView::Choose { text }, EventView::Picked(Some(path))) => TaskView::Write {
                path,
                text,
            },
            (TaskView::Choose { text }, EventView::Picked(None)) => TaskView::Done {
                message: MessageView::FileSaved(Err(Error::DialogCancelled)),
            },
            (TaskView::Write { path, .. }, EventView::Written(Ok(_))) => TaskView::Done {
                message: MessageView::FileSaved(Ok(path)),
            },
            (TaskView::Write { path, .. }, EventView::Written(Err(kind))) => TaskView::Done {
                message: MessageView::FileSaved(Err(Error::IoFailure(kind))),
            },
            _ => self,
        }
    }

    /// The message that the task ended with, if it has ended.
    pub open spec fn message(self) -> Option<MessageView> {
        match self {
            TaskView::Done { message } => Some(message),
            _ => None,
        }
    }
}

/// Starts the opening of a file that the user picks.
pub fn pick_afile() -> (task: Task)
    ensures
        task@ == TaskView::pick_afile(),
{
    Task::Pick
}

/// Starts the opening of the file at `path`.
pub fn load_file(path: PathBuf) -> (task: Task)
    ensures
        task@ == TaskView::load_file(path),
{
    Task::Load { path }
}

/// Starts the saving of `text`: to `path` if there is one, else to a path that
/// the user chooses.
pub fn file_saved(path: Option<PathBuf>, text: String) -> (task: Task)
    ensures
        task@ == TaskView::file_saved(path, text@),
{
    match path {
        Some(path) => Task::Write { path, text },
        None => Task::Choose { text },
    }
}

impl Task {
    /// Takes the outcome of what the task asked for, and gives the task that
    /// follows.
    pub fn step(self, event: Event) -> (next: Task)
        ensures
            next@ == self@.step(event@),
    {
        match (self, event) {
            (Task::Pick, Event::Picked(Some(path))) => Task::Load { path },
            (Task::Pick, Event::Picked(None)) => Task::Done {
                message: Message::FileOpen(Err(Error::DialogCancelled)),
            },
            (Task::Load { path }, Event::Read(Ok(text))) => Task::Done {
                message: Message::FileOpen(Ok((path, Arc::new(text)))),
            },
            (Task::Load { path }, Event::Read(Err(kind))) => Task::Done {
                message: Message::FileOpen(Err(Error::IoFailure(kind))),
            },
            (Task::Choose { text }, Event::Picked(Some(path))) => Task::Write { path, text },
            (Task::Choose { text }, Event::Picked(None)) => Task::Done {
                message: Message::FileSaved(Err(Error::DialogCancelled)),
            },
            (Task::Write { path, .. }, Event::Written(Ok(_))) => Task::Done {
                message: Message::FileSaved(Ok(path)),
            },
            (Task::Write { path, .. }, Event::Written(Err(kind))) => Task::Done {
                message: Message::FileSaved(Err(Error::IoFailure(kind))),
            },
            (task, _) => task,
        }
    }
}

} // verus!
