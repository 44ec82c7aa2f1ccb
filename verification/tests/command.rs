use bkmk::cache::Cache;
use bkmk::command::{complete_add, Action, BookmarkCli};
use bkmk::error::BookmarkError;

fn sample() -> Cache {
    let mut cache = Cache::new();
    cache.add("a".to_string(), "first".to_string(), "/srv/a".to_string());
    cache.add("foo".to_string(), "second".to_string(), "/srv/foo".to_string());
    cache.add("a".to_string(), "third".to_string(), "/srv/other".to_string());
    cache
}

#[test]
fn only_add_and_remove_are_mutating() {
    assert!(!BookmarkCli::List.is_mutating());
    assert!(BookmarkCli::Add.is_mutating());
    assert!(BookmarkCli::Remove { target: "a".to_string() }.is_mutating());
    assert!(!BookmarkCli::Go { target: "a".to_string() }.is_mutating());
}

#[test]
fn list_prints_the_table() {
    let mut cache = sample();
    let table = cache.list_bookmarks();
    let before = cache.get_records().clone();
    assert_eq!(BookmarkCli::List.run(&mut cache), Ok(Action::Print(table)));
    assert_eq!(cache.get_records(), &before);
}

#[test]
fn add_asks_for_the_answers_first() {
    let mut cache = sample();
    assert_eq!(BookmarkCli::Add.run(&mut cache), Ok(Action::Prompt));
    assert_eq!(cache.get_records().len(), 3);
}

#[test]
fn complete_add_appends_and_persists() {
    let mut cache = sample();
    let action = complete_add(&mut cache, "\n", "notes\n", "\n", "/home/me/notes");
    assert_eq!(action, Action::Persist);
    let records = cache.get_records();
    assert_eq!(records.len(), 4);
    assert_eq!(records[3].name, "notes");
    assert_eq!(records[3].description, "notes");
    assert_eq!(records[3].path, "/home/me/notes");
}

#[test]
fn remove_takes_the_first_match_and_persists() {
    let mut cache = sample();
    let command = BookmarkCli::Remove { target: "a".to_string() };
    assert_eq!(command.run(&mut cache), Ok(Action::Persist));
    let names: Vec<&str> = cache.get_records().iter().map(|r| r.name.as_str()).collect();
    assert_eq!(names, ["foo", "a"]);
    assert_eq!(cache.get_records()[1].description, "third");
}

#[test]
fn remove_of_an_unknown_name_is_no_failure() {
    let mut cache = sample();
    let command = BookmarkCli::Remove { target: "zzz".to_string() };
    assert_eq!(command.run(&mut cache), Ok(Action::Persist));
    assert_eq!(cache.get_records().len(), 3);
}

#[test]
fn go_hands_out_the_path_of_the_first_match() {
    let mut cache = sample();
    let command = BookmarkCli::Go { target: "a".to_string() };
    assert_eq!(
        command.run(&mut cache),
        Ok(Action::ChangeDirectory("/srv/a".to_string()))
    );
    assert_eq!(cache.get_records().len(), 3);
}

#[test]
fn go_to_an_unknown_target_fails_cleanly() {
    let mut cache = sample();
    let command = BookmarkCli::Go { target: "Foo".to_string() };
    assert_eq!(
        command.run(&mut cache),
        Err(BookmarkError::BookmarkNotFound("Foo".to_string()))
    );
}
