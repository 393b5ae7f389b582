use std::io::ErrorKind;
use vstd::prelude::*;

verus! {

/// The kind of an I/O failure, as std reports it. Nothing is known of what a
/// value holds; it is kept to be shown.
#[verifier::external_type_specification]
#[verifier::external_body]
pub struct ExErrorKind(ErrorKind);

/// Why a file operation came to nothing.
#[derive(Debug, Clone, Copy, PartialEq, Eq)]
pub enum Error {
    /// The user closed a file dialog without choosing.
    DialogCancelled,
    /// Reading or writing the file failed.
    IoFailure(ErrorKind),
}

impl Error {
    /// Whether `text` is what the status bar shows for this error: the kind of
    /// an I/O failure in the words that std has for it. A dialog that the user
    /// closed is not shown at all.
    pub open spec fn shown_as(self, text: Seq<char>) -> bool {
        match self {
            Error::DialogCancelled => false,
            Error::IoFailure(kind) => exists|words: String|
                text == words@ && #[trigger] vstd::string::to_string_from_display_ensures::<
                    ErrorKind,
                >(&kind, words),
        }
    }

    /// The text that the status bar shows for this error, if it shows any.
    pub fn message(&self) -> (text: Option<String>)
        ensures
            *self is DialogCancelled ==> text is None,
            *self is IoFailure ==> (text matches Some(words) && self.shown_as(words@)),
    {
        match self {
            Error::DialogCancelled => None,
            Error::IoFailure(kind) => Some(kind.to_string()),
        }
    }
}

} // verus!
