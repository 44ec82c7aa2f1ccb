//! The failures a bookmark command can end in.

use vstd::prelude::*;
use vstd::string::*;

verus! {

/// Why a command could not be carried out.
#[derive(Debug, Clone, PartialEq, Eq)]
pub enum BookmarkError {
    /// The platform reports no home directory.
    HomeDirectoryUnavailable,
    /// The configuration directory could not be created.
    DirectoryCreationFailed,
    /// A document of the configuration directory could not be opened.
    FileOpenFailed,
    /// A document of the configuration directory could not be written.
    FileWriteFailed,
    /// The bookmark document is not a sequence of records; holds the parser's message.
    MalformedCache(String),
    /// The ignore pattern at the given position does not compile; holds the compiler's message.
    InvalidPattern(usize, String),
    /// No bookmark carries the requested name, which is held here.
    BookmarkNotFound(String),
}

/// The fixed sentence that introduces each kind of failure.
pub open spec fn headline(error: BookmarkError) -> Seq<char> {
    match error {
        BookmarkError::HomeDirectoryUnavailable => "Could not find home directory."@,
        BookmarkError::DirectoryCreationFailed => "Could not create a config directory."@,
        BookmarkError::FileOpenFailed => "Could not open a configuration file."@,
        BookmarkError::FileWriteFailed => "Could not write to a configuration file."@,
        BookmarkError::MalformedCache(_) => "Could not parse the bookmark cache: "@,
        BookmarkError::InvalidPattern(_, _) => "Could not compile an ignore pattern: "@,
        BookmarkError::BookmarkNotFound(_) => "Could not find a bookmark named: "@,
    }
}

/// The text that a failure carries with it, empty where it carries none.
pub open spec fn detail(error: BookmarkError) -> Seq<char> {
    match error {
        BookmarkError::MalformedCache(message) => message@,
        BookmarkError::InvalidPattern(_, message) => message@,
        BookmarkError::BookmarkNotFound(name) => name@,
        _ => Seq::<char>::empty(),
    }
}

impl BookmarkError {
    /// The message shown to the user: the headline of the failure followed by its detail.
    pub fn message(&self) -> (text: String)
        ensures
            text@ == headline(*self) + detail(*self),
    {
        match self {
            BookmarkError::HomeDirectoryUnavailable => String::from_str(
                "Could not find home directory.",
            ),
            BookmarkError::DirectoryCreationFailed => String::from_str(
                "Could not create a config directory.",
            ),
            BookmarkError::FileOpenFailed => String::from_str(
                "Could not open a configuration file.",
            ),
            BookmarkError::FileWriteFailed => String::from_str(
                "Could not write to a configuration file.",
            ),
            BookmarkError::MalformedCache(message) => String::from_str(
                "Could not parse the bookmark cache: ",
            ).concat(message.as_str()),
            BookmarkError::InvalidPattern(_, message) => String::from_str(
                "Could not compile an ignore pattern: ",
            ).concat(message.as_str()),
            BookmarkError::BookmarkNotFound(name) => String::from_str(
                "Could not find a bookmark named: ",
            ).concat(name.as_str()),
        }
    }
}

} // verus!
