use crate::action::Action;
use crate::lines::{lines_of, written};
use iced::widget::text_editor;
use vstd::prelude::*;

verus! {

/// The text buffer of the editor pane: the editor widget's own `Content`, which
/// does all the editing. Verus sees nothing inside it; what it holds is told by
/// [`buffer_lines`] and [`buffer_cursor`].
#[verifier::external_body]
pub struct Buffer {
    /// The widget's buffer. It is open to the window, which hands it to the
    /// editor widget to be drawn.
    pub content: text_editor::Content,
}

/// The lines of text that a buffer holds, first line first, without their line
/// endings.
pub uninterp spec fn buffer_lines(buffer: Buffer) -> Seq<Seq<char>>;

/// Where the cursor of a buffer stands: the line, counted from 0, and the
/// offset in that line, in bytes.
pub uninterp spec fn buffer_cursor(buffer: Buffer) -> (nat, nat);

/// What a buffer holds.
pub struct BufferView {
    pub lines: Seq<Seq<char>>,
    pub cursor: (nat, nat),
}

impl View for Buffer {
    type V = BufferView;

    open spec fn view(&self) -> BufferView {
        BufferView { lines: buffer_lines(*self), cursor: buffer_cursor(*self) }
    }
}

impl BufferView {
    /// An empty buffer: one line, with nothing in it, and the cursor at its
    /// start.
    pub open spec fn empty() -> BufferView {
        BufferView { lines: seq![Seq::empty()], cursor: (0, 0) }
    }

    /// A buffer that was filled with `text`: it holds the lines of the text,
    /// or one empty line for an empty text, and the cursor is at the start.
    pub open spec fn loaded(text: Seq<char>) -> BufferView {
        BufferView { lines: lines_of(text), cursor: (0, 0) }
    }

    /// Whether the buffer holds no text.
    pub open spec fn is_empty(self) -> bool {
        self.lines == seq![Seq::<char>::empty()]
    }

    /// The buffer's text as it is written to a file.
    pub open spec fn text(self) -> Seq<char> {
        written(self.lines)
    }

    /// What an action may make of the buffer: only an edit changes the lines.
    pub open spec fn performs(self, action: Action, after: BufferView) -> bool {
        !action.edits() ==> after.lines == self.lines
    }
}

impl Buffer {
    /// `Content::new`: an empty buffer.
    #[verifier::external_body]
    pub(crate) fn new() -> (buffer: Buffer)
        ensures
            buffer_lines(buffer) == seq![Seq::<char>::empty()],
            buffer_cursor(buffer) == (0nat, 0nat),
    {
        Buffer { content: text_editor::Content::new() }
    }

    /// `Content::with_text`: a buffer that holds the lines of `text`, with the
    /// cursor at the start. The widget splits the text as cosmic-text's
    /// `Buffer::set_text` does: a line ends at a line feed, at a carriage
    /// return, or at the two together in either order, and the endings
    /// themselves are not kept.
    #[verifier::external_body]
    pub(crate) fn with_text(text: &str) -> (buffer: Buffer)
        ensures
            buffer_lines(buffer) == lines_of(text@),
            buffer_cursor(buffer) == (0nat, 0nat),
    {
        Buffer { content: text_editor::Content::with_text(text) }
    }

    /// `Content::perform`, on the widget's action of the same name and with the
    /// same fields: lets the buffer carry out an action. What an edit makes of
    /// the text, and where any action leaves the cursor, is the widget's
    /// affair; an action that is no edit leaves the lines alone.
    #[verifier::external_body]
    pub(crate) fn perform(&mut self, action: Action)
        ensures
            !action.edits() ==> buffer_lines(*final(self)) == buffer_lines(*old(self)),
    {
        self.content.perform(match action {
            Action::Move(motion) => text_editor::Action::Move(motion),
            Action::Select(motion) => text_editor::Action::Select(motion),
            Action::SelectWord => text_editor::Action::SelectWord,
            Action::SelectLine => text_editor::Action::SelectLine,
            Action::SelectAll => text_editor::Action::SelectAll,
            Action::Edit(edit) => text_editor::Action::Edit(edit),
            Action::Click(point) => text_editor::Action::Click(point),
            Action::Drag(point) => text_editor::Action::Drag(point),
            Action::Scroll { lines } => text_editor::Action::Scroll { lines },
        })
    }

    /// `Content::text`: the lines joined by line feeds, and one more line feed
    /// unless the joined text ends in one.
    #[verifier::external_body]
    pub(crate) fn text(&self) -> (text: String)
        ensures
            text@ == written(buffer_lines(*self)),
    {
        self.content.text()
    }

    /// `Content::cursor_position`: the line and the offset of the cursor.
    #[verifier::external_body]
    pub(crate) fn cursor_position(&self) -> (position: (usize, usize))
        ensures
            position.0 == buffer_cursor(*self).0,
            position.1 == buffer_cursor(*self).1,
    {
        self.content.cursor_position()
    }

    /// `Content::line_count`: the number of lines.
    #[verifier::external_body]
    pub(crate) fn line_count(&self) -> (count: usize)
        ensures
            count == buffer_lines(*self).len(),
    {
        self.content.line_count()
    }

    /// `Content::line`: the text of the line at `index`, if there is one.
    #[verifier::external_body]
    pub(crate) fn line(&self, index: usize) -> (line: Option<String>)
        ensures
            line is Some <==> index < buffer_lines(*self).len(),
            line matches Some(text) ==> text@ == buffer_lines(*self)[index as int],
    {
        match self.content.line(index) {
            Some(line) => Some(line.to_string()),
            None => None,
        }
    }

    /// The lines of the buffer, first line first.
    pub fn lines(&self) -> (lines: Vec<String>)
        ensures
            lines@.len() == self@.lines.len(),
            forall|i: int| 0 <= i < lines@.len() ==> (#[trigger] lines@[i])@ == self@.lines[i],
    {
        let count = self.line_count();
        let mut lines: Vec<String> = Vec::new();
        let mut index: usize = 0;
        while index < count
            invariant
                index <= count,
                count == self@.lines.len(),
                lines@.len() == index,
                forall|i: int| 0 <= i < index ==> (#[trigger] lines@[i])@ == self@.lines[i],
            decreases count - index,
        {
            match self.line(index) {
                Some(text) => lines.push(text),
                None => {},
            }
            index += 1;
        }
        lines
    }
}

} // verus!
