use std::path::PathBuf;
use vstd::prelude::*;

verus! {

/// A file-system path of std. Verus sees nothing inside a value.
#[verifier::external_type_specification]
#[verifier::external_body]
pub struct ExPathBuf(PathBuf);

/// The text of a path, where the path is valid Unicode: what `Path::to_str`
/// yields for it.
pub uninterp spec fn path_text(path: PathBuf) -> Option<Seq<char>>;

/// The extension of a path's file name, where it has one that is valid Unicode:
/// what `Path::extension`, followed by `OsStr::to_str`, yields for it.
pub uninterp spec fn path_extension(path: PathBuf) -> Option<Seq<char>>;

/// `Clone::clone` of `PathBuf`: the copy is the same path.
pub assume_specification[ <PathBuf as Clone>::clone ](path: &PathBuf) -> (copy: PathBuf)
    ensures
        copy == *path,
;

/// `PathBuf::from` on a `String`: the path's text is the string.
#[verifier::external_body]
fn path_from(text: String) -> (path: PathBuf)
    ensures
        path_text(path) == Some(text@),
{
    PathBuf::from(text)
}

/// `Path::to_str`: the path's text, if it is valid Unicode.
#[verifier::external_body]
pub(crate) fn text_of(path: &PathBuf) -> (text: Option<String>)
    ensures
        path_text(*path) == match text {
            Some(text) => Some(text@),
            None => None,
        },
{
    match path.to_str() {
        Some(text) => Some(text.to_owned()),
        None => None,
    }
}

/// `Path::extension`: the extension of the path's file name, if there is one
/// and it is valid Unicode.
#[verifier::external_body]
pub(crate) fn extension_of(path: &PathBuf) -> (extension: Option<String>)
    ensures
        path_extension(*path) == match extension {
            Some(extension) => Some(extension@),
            None => None,
        },
{
    match path.extension() {
        Some(extension) => extension.to_str().map(str::to_owned),
        None => None,
    }
}

/// The file that the editor opens at startup: `src\main.rs` below the
/// directory `base`.
pub fn default_file(base: &str) -> (path: PathBuf)
    ensures
        path_text(path) == Some(base@ + "\\src\\main.rs"@),
{
    path_from(String::from_str(base).concat("\\src\\main.rs"))
}

} // verus!
