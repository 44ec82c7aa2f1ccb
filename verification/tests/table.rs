use bkmk::cache::Cache;
use bkmk::table::{display_len, DESCRIPTION_WIDTH, GAP_WIDTH, NAME_WIDTH, PATH_WIDTH};

#[test]
fn least_widths_are_those_of_the_header() {
    assert_eq!(NAME_WIDTH, 7);
    assert_eq!(DESCRIPTION_WIDTH, 14);
    assert_eq!(PATH_WIDTH, 7);
    assert_eq!(GAP_WIDTH, 6);
}

#[test]
fn display_len_counts_bytes() {
    assert_eq!(display_len(""), 0);
    assert_eq!(display_len("/tmp"), 4);
    assert_eq!(display_len("é"), 2);
    assert_eq!(display_len("日本"), 6);
}

#[test]
fn short_entries_leave_the_least_widths() {
    let mut cache = Cache::new();
    cache.add("x".to_string(), "".to_string(), "/tmp".to_string());
    assert_eq!(cache.column_widths(), (7, 14, 7));
}

#[test]
fn widths_of_the_empty_store() {
    assert_eq!(Cache::new().column_widths(), (7, 14, 7));
}

#[test]
fn each_column_follows_its_own_widest_entry() {
    let mut cache = Cache::new();
    cache.add("a-long-name".to_string(), "d".to_string(), "/p".to_string());
    cache.add("n".to_string(), "a description of 27 letters".to_string(), "/q".to_string());
    cache.add("m".to_string(), "".to_string(), "/a/longer/path".to_string());
    assert_eq!(cache.column_widths(), (11, 27, 14));
}

#[test]
fn an_entry_of_the_least_width_changes_nothing() {
    let mut cache = Cache::new();
    cache.add("1234567".to_string(), "12345678901234".to_string(), "7654321".to_string());
    assert_eq!(cache.column_widths(), (7, 14, 7));
    cache.add("12345678".to_string(), "".to_string(), "".to_string());
    assert_eq!(cache.column_widths(), (8, 14, 7));
}

#[test]
fn empty_store_lists_the_header_only() {
    let rule = "-".repeat(34);
    let expected = format!(
        "Available bookmarks:\n{}\nName:   | Description:   | Path:  \n{}\n",
        rule, rule
    );
    assert_eq!(Cache::new().list_bookmarks(), expected);
}

#[test]
fn one_short_record_is_padded_to_the_least_widths() {
    let mut cache = Cache::new();
    cache.add("x".to_string(), "".to_string(), "/tmp".to_string());
    let rule = "-".repeat(34);
    let expected = format!(
        "Available bookmarks:\n{}\nName:   | Description:   | Path:  \n{}\nx       |                | /tmp   \n",
        rule, rule
    );
    assert_eq!(cache.list_bookmarks(), expected);
}

#[test]
fn long_entries_widen_their_column_and_are_not_padded() {
    let mut cache = Cache::new();
    cache.add("projects".to_string(), "where the work is".to_string(), "/home/me/projects".to_string());
    cache.add("tmp".to_string(), "scratch".to_string(), "/tmp".to_string());
    let rule = "-".repeat(8 + 17 + 17 + 6);
    let expected = format!(
        "Available bookmarks:\n{rule}\n{header}\n{rule}\n{first}\n{second}\n",
        rule = rule,
        header = "Name:    | Description:      | Path:            ",
        first = "projects | where the work is | /home/me/projects",
        second = "tmp      | scratch           | /tmp             ",
    );
    assert_eq!(cache.list_bookmarks(), expected);
}

#[test]
fn rows_come_in_storage_order() {
    let mut cache = Cache::new();
    cache.add("zeta".to_string(), "".to_string(), "/z".to_string());
    cache.add("alpha".to_string(), "".to_string(), "/a".to_string());
    let text = cache.list_bookmarks();
    let lines: Vec<&str> = text.lines().collect();
    assert_eq!(lines.len(), 6);
    assert!(lines[4].starts_with("zeta    |                | /z"));
    assert!(lines[5].starts_with("alpha   |                | /a"));
}

#[test]
fn widths_are_counted_in_bytes() {
    let mut cache = Cache::new();
    cache.add("été".to_string(), "".to_string(), "/e".to_string());
    let text = cache.list_bookmarks();
    let lines: Vec<&str> = text.lines().collect();
    assert_eq!(lines[4], "été   |                | /e     ");
    assert_eq!(lines[4].len(), 34);
}
