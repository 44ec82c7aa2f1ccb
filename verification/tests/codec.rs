use bkmk::cache::Cache;
use bkmk::codec::EMPTY_DOCUMENT;
use bkmk::error::BookmarkError;
use bkmk::record::CacheRecord;

fn record(name: &str, description: &str, path: &str) -> CacheRecord {
    CacheRecord::new(name.to_string(), description.to_string(), path.to_string())
}

fn write_lines(cache: &Cache) -> String {
    let mut text = String::new();
    for r in cache.get_records() {
        text.push_str(&format!("{}\t{}\t{}\n", r.name, r.description, r.path));
    }
    text
}

fn parse_lines(text: &str) -> Result<Vec<CacheRecord>, String> {
    let mut records = Vec::new();
    for (number, line) in text.lines().enumerate() {
        let fields: Vec<&str> = line.split('\t').collect();
        if fields.len() != 3 {
            return Err(format!("line {}: expected three fields", number + 1));
        }
        records.push(record(fields[0], fields[1], fields[2]));
    }
    Ok(records)
}

#[test]
fn the_empty_document_is_a_pair_of_brackets() {
    assert_eq!(EMPTY_DOCUMENT, "[]");
}

#[test]
fn empty_document_decodes_without_the_parser() {
    let cache = Cache::decode("[]", |_| panic!("the record parser must not run")).unwrap();
    assert!(cache.get_records().is_empty());
}

#[test]
fn empty_store_encodes_without_the_writer() {
    let text = Cache::new().encode(|_| panic!("the record writer must not run"));
    assert_eq!(text, "[]");
}

#[test]
fn other_documents_go_to_the_parser() {
    let cache = Cache::decode("a\t\t/a\nb\tsecond\t/b\n", parse_lines).unwrap();
    assert_eq!(
        cache.get_records(),
        &vec![record("a", "", "/a"), record("b", "second", "/b")]
    );
}

#[test]
fn near_misses_of_the_empty_document_go_to_the_parser() {
    for text in ["[ ]", "[]\n", " []", "", "[", "[]]"] {
        let mut seen = None;
        let cache = Cache::decode(text, |t| {
            seen = Some(t.to_string());
            Ok(Vec::new())
        })
        .unwrap();
        assert!(cache.get_records().is_empty());
        assert_eq!(seen.as_deref(), Some(text));
    }
}

#[test]
fn a_parse_failure_is_a_malformed_cache() {
    let outcome = Cache::decode("only one field", parse_lines);
    assert_eq!(
        outcome.unwrap_err(),
        BookmarkError::MalformedCache("line 1: expected three fields".to_string())
    );
}

#[test]
fn from_parsed_keeps_records_and_messages() {
    let records = vec![record("x", "d", "/x"), record("x", "e", "/y")];
    let cache = Cache::from_parsed(Ok(records.clone())).unwrap();
    assert_eq!(cache.get_records(), &records);
    assert_eq!(
        Cache::from_parsed(Err("Expected array".to_string())).unwrap_err(),
        BookmarkError::MalformedCache("Expected array".to_string())
    );
}

#[test]
fn a_store_with_records_goes_to_the_writer() {
    let mut cache = Cache::new();
    cache.add("a".to_string(), "".to_string(), "/a".to_string());
    assert_eq!(cache.encode(write_lines), "a\t\t/a\n");
}

#[test]
fn a_store_survives_writing_and_reading() {
    let mut cache = Cache::new();
    for round in 0..4 {
        let text = cache.encode(write_lines);
        let read = Cache::decode(&text, parse_lines).unwrap();
        assert_eq!(read.get_records(), cache.get_records());
        cache.add(format!("name{}", round), "same".to_string(), format!("/srv/{}", round));
    }
}

fn write_ron(cache: &Cache) -> String {
    let rows: Vec<(String, String, String)> = cache
        .get_records()
        .iter()
        .map(|r| (r.name.clone(), r.description.clone(), r.path.clone()))
        .collect();
    ron::ser::to_string(&rows).unwrap()
}

fn parse_ron(text: &str) -> Result<Vec<CacheRecord>, String> {
    ron::de::from_str::<Vec<(String, String, String)>>(text)
        .map(|rows| rows.into_iter().map(|(n, d, p)| CacheRecord::new(n, d, p)).collect())
        .map_err(|e| e.to_string())
}

#[test]
fn a_store_survives_ron() {
    let mut cache = Cache::new();
    assert_eq!(cache.encode(write_ron), "[]");
    cache.add("quote\"d".to_string(), "line\nbreak".to_string(), "/tmp/a b".to_string());
    cache.add("x".to_string(), "".to_string(), "/tmp".to_string());
    cache.add("x".to_string(), "twice".to_string(), "relative".to_string());
    let text = cache.encode(write_ron);
    let read = Cache::decode(&text, parse_ron).unwrap();
    assert_eq!(read, cache);
}

#[test]
fn ron_reports_a_malformed_document() {
    let outcome = Cache::decode("[(\"x\",", parse_ron);
    match outcome {
        Err(BookmarkError::MalformedCache(message)) => assert!(!message.is_empty()),
        other => panic!("expected a malformed cache, got {:?}", other),
    }
}
