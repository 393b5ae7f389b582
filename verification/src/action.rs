use iced::widget::text_editor::{Edit, Motion};
use iced::Point;
use vstd::prelude::*;

verus! {

/// A cursor movement of the editor widget. It is handed on to the buffer as it
/// came.
#[verifier::external_type_specification]
#[verifier::external_body]
pub struct ExMotion(Motion);

/// A change to the text, as the editor widget describes it. It is handed on to
/// the buffer as it came.
#[verifier::external_type_specification]
#[verifier::external_body]
pub struct ExEdit(Edit);

/// A position inside the editor widget. It is handed on to the buffer as it
/// came.
#[verifier::external_type_specification]
#[verifier::external_body]
#[verifier::reject_recursive_types(T)]
pub struct ExPoint<T>(Point<T>);

/// What the user did in the editor pane.
#[derive(Debug, PartialEq)]
pub enum Action {
    /// Move the cursor.
    Move(Motion),
    /// Move the cursor and select what it passes.
    Select(Motion),
    /// Select the word at the cursor.
    SelectWord,
    /// Select the line at the cursor.
    SelectLine,
    /// Select the whole text.
    SelectAll,
    /// Change the text.
    Edit(Edit),
    /// Click at a position.
    Click(Point),
    /// Drag the mouse to a position.
    Drag(Point),
    /// Scroll by a number of lines.
    Scroll { lines: i32 },
}

impl Action {
    /// Whether the action changes the text, rather than the cursor, the
    /// selection or the scroll position.
    pub open spec fn edits(self) -> bool {
        self is Edit
    }

    /// Whether the action changes the text.
    pub fn is_edit(&self) -> (edit: bool)
        ensures
            edit == self.edits(),
    {
        match self {
            Action::Edit(_) => true,
            _ => false,
        }
    }
}

} // verus!
