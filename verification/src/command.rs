//! The commands of the tool and what each of them asks of its caller.
//!
//! A command works on the store in memory. Whatever touches the terminal,
//! the disk or the shell is handed back to the caller as an action.

use crate::cache::{has_name, is_first_match, is_removal, Cache};
use crate::error::BookmarkError;
use crate::prompt::{answered, record_from_answers};
use crate::record::RecordView;
use crate::table::table;
use vstd::prelude::*;

verus! {

/// What the user asked for.
#[derive(Debug, Clone, PartialEq, Eq)]
pub enum BookmarkCli {
    /// Show all available bookmarks.
    List,
    /// Add a new bookmark.
    Add,
    /// Remove the earliest bookmark of the given name.
    Remove { target: String },
    /// Go to the bookmarked directory.
    Go { target: String },
}

/// What is left for the caller to do once a command has run.
#[derive(Debug, Clone, PartialEq, Eq)]
pub enum Action {
    /// Print the text.
    Print(String),
    /// Ask for a name, a description and a path, and hand the answers to `complete_add`.
    Prompt,
    /// Write the store back to its document.
    Persist,
    /// Change the working directory to the path.
    ChangeDirectory(String),
}

/// What running `command` on a store of `before` has to give: the action or
/// failure `outcome`, and a store of `after`.
pub open spec fn runs(
    command: BookmarkCli,
    before: Seq<RecordView>,
    after: Seq<RecordView>,
    outcome: Result<Action, BookmarkError>,
) -> bool {
    match command {
        BookmarkCli::List => {
            &&& after == before
            &&& outcome matches Ok(Action::Print(text))
            &&& text@ == table(before)
        },
        BookmarkCli::Add => after == before && outcome == Ok::<Action, BookmarkError>(
            Action::Prompt,
        ),
        BookmarkCli::Remove { target } => {
            &&& is_removal(before, target@, after)
            &&& outcome == Ok::<Action, BookmarkError>(Action::Persist)
        },
        BookmarkCli::Go { target } => {
            &&& after == before
            &&& match outcome {
                Ok(action) => {
                    &&& action matches Action::ChangeDirectory(path)
                    &&& exists|index: int|
                        is_first_match(before, target@, index) && path@ == before[index].path
                },
                Err(error) => {
                    &&& !has_name(before, target@)
                    &&& error matches BookmarkError::BookmarkNotFound(name)
                    &&& name@ == target@
                },
            }
        },
    }
}

impl BookmarkCli {
    /// Whether this command can change the store, so that the store has to
    /// be written back once it is done.
    pub fn is_mutating(&self) -> (answer: bool)
        ensures
            answer == (*self is Add || *self is Remove),
    {
        match self {
            BookmarkCli::Add => true,
            BookmarkCli::Remove { .. } => true,
            _ => false,
        }
    }

    /// Runs the command on `cache`. Listing and going leave the store as it
    /// is; adding does so too until the answers are in; removing takes out
    /// the earliest bookmark of the name, if there is one.
    pub fn run(&self, cache: &mut Cache) -> (outcome: Result<Action, BookmarkError>)
        ensures
            runs(*self, old(cache)@, final(cache)@, outcome),
    {
        match self {
            BookmarkCli::List => Ok(Action::Print(cache.list_bookmarks())),
            BookmarkCli::Add => Ok(Action::Prompt),
            BookmarkCli::Remove { target } => {
                cache.remove(target.as_str());
                Ok(Action::Persist)
            },
            BookmarkCli::Go { target } => {
                match cache.go(target.as_str()) {
                    Ok(path) => Ok(Action::ChangeDirectory(path)),
                    Err(error) => Err(error),
                }
            },
        }
    }
}

/// Ends an `Add`: appends the bookmark that the three answers describe when
/// given in `directory`, and asks for the store to be written back.
pub fn complete_add(
    cache: &mut Cache,
    name: &str,
    description: &str,
    path: &str,
    directory: &str,
) -> (action: Action)
    ensures
        final(cache)@ == old(cache)@.push(answered(name@, description@, path@, directory@)),
        action == Action::Persist,
{
    let record = record_from_answers(name, description, path, directory);
    cache.add(record.name, record.description, record.path);
    Action::Persist
}

} // verus!
