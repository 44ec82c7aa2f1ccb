//! The start of a run: which steps lead to the two open documents.
//!
//! The steps themselves touch the disk and are performed by the caller. What
//! is decided here is their order, and which failure ends the run. A
//! configuration directory that exists is only ever read; one that is
//! missing is created and filled, and its documents are then opened afresh
//! before anything is read from them.

use crate::error::BookmarkError;
use vstd::prelude::*;

verus! {

/// The name of the configuration directory below the home directory.
pub const CONFIG_DIRECTORY: &'static str = ".bkmk_config";

/// The name of the bookmark document in the configuration directory.
pub const CACHE_FILE: &'static str = "cache.ron";

/// The name of the settings document in the configuration directory.
pub const SETTINGS_FILE: &'static str = "settings.ron";

/// One step on the way to the open documents.
#[derive(Debug, Clone, Copy, PartialEq, Eq, Structural)]
pub enum StartupStep {
    /// Create the configuration directory.
    CreateDirectory,
    /// Create the bookmark document and write the empty store to it.
    WriteCache,
    /// Create the settings document and write the default settings to it.
    WriteSettings,
    /// Open the bookmark document for reading and writing.
    OpenCache,
    /// Open the settings document for reading and writing.
    OpenSettings,
    /// Both documents are open: nothing is left to do.
    Ready,
}

/// The step that follows `step` once it has succeeded.
pub open spec fn successor(step: StartupStep) -> StartupStep {
    match step {
        StartupStep::CreateDirectory => StartupStep::WriteCache,
        StartupStep::WriteCache => StartupStep::WriteSettings,
        StartupStep::WriteSettings => StartupStep::OpenCache,
        StartupStep::OpenCache => StartupStep::OpenSettings,
        StartupStep::OpenSettings => StartupStep::Ready,
        StartupStep::Ready => StartupStep::Ready,
    }
}

/// Whether `step` creates or changes anything on disk.
pub open spec fn alters_disk(step: StartupStep) -> bool {
    step == StartupStep::CreateDirectory || step == StartupStep::WriteCache || step
        == StartupStep::WriteSettings
}

/// The step reached from `step` after `count` steps have succeeded.
pub open spec fn after(step: StartupStep, count: nat) -> StartupStep
    decreases count,
{
    if count == 0 {
        step
    } else {
        successor(after(step, (count - 1) as nat))
    }
}

/// How a run starts: with a failure where no home directory is known, with
/// opening the documents where the configuration directory exists, and with
/// creating it where it does not.
pub open spec fn entry(home_found: bool, directory_exists: bool) -> Result<
    StartupStep,
    BookmarkError,
> {
    if !home_found {
        Err(BookmarkError::HomeDirectoryUnavailable)
    } else if directory_exists {
        Ok(StartupStep::OpenCache)
    } else {
        Ok(StartupStep::CreateDirectory)
    }
}

/// How a run goes on after `step`: with its successor where it succeeded,
/// and with the failure that belongs to it where it did not.
pub open spec fn progress(step: StartupStep, succeeded: bool) -> Result<
    StartupStep,
    BookmarkError,
> {
    if succeeded {
        Ok(successor(step))
    } else {
        match step {
            StartupStep::CreateDirectory => Err(BookmarkError::DirectoryCreationFailed),
            StartupStep::WriteCache => Err(BookmarkError::FileWriteFailed),
            StartupStep::WriteSettings => Err(BookmarkError::FileWriteFailed),
            StartupStep::OpenCache => Err(BookmarkError::FileOpenFailed),
            StartupStep::OpenSettings => Err(BookmarkError::FileOpenFailed),
            StartupStep::Ready => Ok(StartupStep::Ready),
        }
    }
}

impl StartupStep {
    /// The first step of a run, given whether the platform reported a home
    /// directory and whether the configuration directory exists below it.
    pub fn first(home_found: bool, directory_exists: bool) -> (step: Result<
        StartupStep,
        BookmarkError,
    >)
        ensures
            step == entry(home_found, directory_exists),
    {
        if !home_found {
            Err(BookmarkError::HomeDirectoryUnavailable)
        } else if directory_exists {
            Ok(StartupStep::OpenCache)
        } else {
            Ok(StartupStep::CreateDirectory)
        }
    }

    /// The step to take after this one, given whether this one succeeded.
    /// Nothing is left to do after `Ready`, whatever is reported of it.
    pub fn next(self, succeeded: bool) -> (step: Result<StartupStep, BookmarkError>)
        ensures
            step == progress(self, succeeded),
    {
        if succeeded {
            Ok(
                match self {
                    StartupStep::CreateDirectory => StartupStep::WriteCache,
                    StartupStep::WriteCache => StartupStep::WriteSettings,
                    StartupStep::WriteSettings => StartupStep::OpenCache,
                    StartupStep::OpenCache => StartupStep::OpenSettings,
                    StartupStep::OpenSettings => StartupStep::Ready,
                    StartupStep::Ready => StartupStep::Ready,
                },
            )
        } else {
            match self {
                StartupStep::CreateDirectory => Err(BookmarkError::DirectoryCreationFailed),
                StartupStep::WriteCache => Err(BookmarkError::FileWriteFailed),
                StartupStep::WriteSettings => Err(BookmarkError::FileWriteFailed),
                StartupStep::OpenCache => Err(BookmarkError::FileOpenFailed),
                StartupStep::OpenSettings => Err(BookmarkError::FileOpenFailed),
                StartupStep::Ready => Ok(StartupStep::Ready),
            }
        }
    }

    /// Whether this step creates or changes anything on disk.
    pub fn writes(self) -> (answer: bool)
        ensures
            answer == alters_disk(self),
    {
        match self {
            StartupStep::CreateDirectory => true,
            StartupStep::WriteCache => true,
            StartupStep::WriteSettings => true,
            _ => false,
        }
    }
}

/// Once a run has come to a step that leaves the disk alone, no later step
/// creates or writes anything: the documents are opened after the last write.
pub proof fn lemma_no_write_after_open(step: StartupStep, count: nat)
    requires
        !alters_disk(step),
    ensures
        !alters_disk(after(step, count)),
    decreases count,
{
    if count > 0 {
        lemma_no_write_after_open(step, (count - 1) as nat);
    }
}

/// A run that finds its configuration directory never creates or writes
/// anything, however far it gets: what an earlier run left there stays as
/// it is.
pub proof fn lemma_existing_directory_is_left_alone(home_found: bool, count: nat)
    requires
        home_found,
    ensures
        entry(home_found, true) matches Ok(step) && !alters_disk(after(step, count)),
{
    lemma_no_write_after_open(StartupStep::OpenCache, count);
}

/// Every run is ready after five successful steps at the latest, and stays so.
pub proof fn lemma_run_ends(step: StartupStep, count: nat)
    requires
        count >= 5,
    ensures
        after(step, count) == StartupStep::Ready,
    decreases count,
{
    if count == 5 {
        reveal_with_fuel(after, 6);
    } else {
        lemma_run_ends(step, (count - 1) as nat);
    }
}

} // verus!
