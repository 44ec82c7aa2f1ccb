use bkmk::error::BookmarkError;
use bkmk::startup::{StartupStep, CACHE_FILE, CONFIG_DIRECTORY, SETTINGS_FILE};

fn run(first: StartupStep) -> Vec<StartupStep> {
    let mut steps = vec![first];
    let mut step = first;
    while step != StartupStep::Ready {
        step = step.next(true).unwrap();
        steps.push(step);
    }
    steps
}

#[test]
fn names_of_the_configuration_directory_and_its_documents() {
    assert_eq!(CONFIG_DIRECTORY, ".bkmk_config");
    assert_eq!(CACHE_FILE, "cache.ron");
    assert_eq!(SETTINGS_FILE, "settings.ron");
}

#[test]
fn no_home_directory_ends_the_run() {
    assert_eq!(
        StartupStep::first(false, false),
        Err(BookmarkError::HomeDirectoryUnavailable)
    );
    assert_eq!(
        StartupStep::first(false, true),
        Err(BookmarkError::HomeDirectoryUnavailable)
    );
}

#[test]
fn a_missing_directory_is_created_filled_and_reopened() {
    let first = StartupStep::first(true, false).unwrap();
    assert_eq!(
        run(first),
        vec![
            StartupStep::CreateDirectory,
            StartupStep::WriteCache,
            StartupStep::WriteSettings,
            StartupStep::OpenCache,
            StartupStep::OpenSettings,
            StartupStep::Ready,
        ]
    );
}

#[test]
fn an_existing_directory_is_only_opened() {
    let first = StartupStep::first(true, true).unwrap();
    let steps = run(first);
    assert_eq!(
        steps,
        vec![StartupStep::OpenCache, StartupStep::OpenSettings, StartupStep::Ready]
    );
    assert!(steps.iter().all(|step| !step.writes()));
}

#[test]
fn a_second_run_writes_nothing() {
    let first_run = run(StartupStep::first(true, false).unwrap());
    assert_eq!(first_run.iter().filter(|step| step.writes()).count(), 3);
    let second_run = run(StartupStep::first(true, true).unwrap());
    assert_eq!(second_run.iter().filter(|step| step.writes()).count(), 0);
}

#[test]
fn each_step_fails_with_its_own_error() {
    assert_eq!(
        StartupStep::CreateDirectory.next(false),
        Err(BookmarkError::DirectoryCreationFailed)
    );
    assert_eq!(StartupStep::WriteCache.next(false), Err(BookmarkError::FileWriteFailed));
    assert_eq!(StartupStep::WriteSettings.next(false), Err(BookmarkError::FileWriteFailed));
    assert_eq!(StartupStep::OpenCache.next(false), Err(BookmarkError::FileOpenFailed));
    assert_eq!(StartupStep::OpenSettings.next(false), Err(BookmarkError::FileOpenFailed));
}

#[test]
fn ready_stays_ready() {
    assert_eq!(StartupStep::Ready.next(true), Ok(StartupStep::Ready));
    assert_eq!(StartupStep::Ready.next(false), Ok(StartupStep::Ready));
    assert!(!StartupStep::Ready.writes());
}
