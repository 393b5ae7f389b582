use crate::action::Action;
use crate::buffer::BufferView;
use crate::error::Error;
use crate::lines::{is_kept, lemma_written_lines, lines_of, written};
use crate::message::MessageView;
use crate::state::DocumentState;
use crate::task::{EventView, TaskView};
use std::path::PathBuf;
use vstd::prelude::*;

verus! {

/// An action that is no edit leaves the document edited or unedited, as it
/// was: whatever the state, and whatever the buffer makes of the action.
pub proof fn law_move_keeps_dirty(state: DocumentState, action: Action, edited: BufferView)
    requires
        !action.edits(),
    ensures
        state.next(MessageView::Edit(action), edited).is_dirty == state.is_dirty,
{
}

/// After an edit the document counts as edited, whether it did before or not.
pub proof fn law_edit_makes_dirty(state: DocumentState, action: Action, edited: BufferView)
    requires
        action.edits(),
    ensures
        state.next(MessageView::Edit(action), edited).is_dirty,
{
}

/// A new document has no file, an empty buffer and no error.
pub proof fn law_new_is_blank(state: DocumentState, edited: BufferView)
    ensures
        state.next(MessageView::New, edited).path is None,
        state.next(MessageView::New, edited).buffer.is_empty(),
        state.next(MessageView::New, edited).error is None,
{
}

/// When a file has been opened, the document counts as unedited, its file is
/// the one that was opened, and its buffer holds the lines of the file's text.
/// Saving it at once writes to that file; what is written is the text as it was
/// read exactly when the text ends in one line feed, not in two, and holds no
/// carriage return.
pub proof fn law_opened_file(
    state: DocumentState,
    path: PathBuf,
    text: Seq<char>,
    edited: BufferView,
)
    ensures
        ({
            let opened = state.next(MessageView::FileOpen(Ok((path, text))), edited);
            &&& !opened.is_dirty
            &&& opened.path == Some(path)
            &&& opened.buffer.lines == lines_of(text)
            &&& opened.follow_up(MessageView::Save) == Some(
                TaskView::Write { path, text: written(lines_of(text)) },
            )
            &&& written(lines_of(text)) == text <==> is_kept(text)
        }),
{
    lemma_written_lines(text);
}

/// Saving writes the buffer's text to the document's file where it has one, and
/// else to the file that the user chooses. When that file has been written, the
/// document counts as unedited and the file is the document's.
pub proof fn law_saved_file(state: DocumentState, chosen: PathBuf, edited: BufferView)
    ensures
        ({
            let target = match state.path {
                Some(path) => path,
                None => chosen,
            };
            let asked = TaskView::file_saved(state.path, state.buffer.text());
            let writing = match state.path {
                Some(_) => asked,
                None => asked.step(EventView::Picked(Some(chosen))),
            };
            let saved = state.next(MessageView::FileSaved(Ok(target)), edited);
            &&& state.follow_up(MessageView::Save) == Some(asked)
            &&& writing == TaskView::Write { path: target, text: state.buffer.text() }
            &&& writing.step(EventView::Written(Ok(()))).message() == Some(
                MessageView::FileSaved(Ok(target)),
            )
            &&& !saved.is_dirty
            &&& saved.path == Some(target)
        }),
{
}

/// A document is without a file only when it is new, or had none and no file
/// was opened or saved since.
pub proof fn law_file_is_lost_only_by_new(
    state: DocumentState,
    message: MessageView,
    edited: BufferView,
)
    ensures
        ({
            let named = message matches MessageView::FileOpen(Ok(_))
                || message matches MessageView::FileSaved(Ok(_));
            state.next(message, edited).path is None <==> message is New || (state.path is None
                && !named)
        }),
{
}

/// A file dialog that the user closes without choosing, be it on opening or on
/// saving, ends the operation with `DialogCancelled`; that leaves the file, the
/// buffer and the count as edited or unedited as they were, and is kept as the
/// error.
pub proof fn law_cancelled_dialog(state: DocumentState, text: Seq<char>, edited: BufferView)
    ensures
        TaskView::pick_afile().step(EventView::Picked(None)).message() == Some(
            MessageView::FileOpen(Err(Error::DialogCancelled)),
        ),
        TaskView::file_saved(None, text).step(EventView::Picked(None)).message() == Some(
            MessageView::FileSaved(Err(Error::DialogCancelled)),
        ),
        state.next(MessageView::FileOpen(Err(Error::DialogCancelled)), edited) == (DocumentState {
            error: Some(Error::DialogCancelled),
            ..state
        }),
        state.next(MessageView::FileSaved(Err(Error::DialogCancelled)), edited) == (DocumentState {
            error: Some(Error::DialogCancelled),
            ..state
        }),
{
}

} // verus!
