//! The bookmark document: how a store is told apart from, and turned into, text.
//!
//! A store without bookmarks is always written as the empty-collection
//! literal, and that literal is always read as the empty store, in both
//! directions without the record parser or writer being called. For every
//! other document the caller supplies the parser, or the writer, of records.

use crate::cache::Cache;
use crate::error::BookmarkError;
use crate::record::{CacheRecord, RecordView};
use vstd::prelude::*;

verus! {

/// The text of a store without bookmarks.
pub const EMPTY_DOCUMENT: &'static str = "[]";

/// Whether `text` is the empty-collection literal.
pub open spec fn is_empty_document(text: Seq<char>) -> bool {
    text == EMPTY_DOCUMENT@
}

/// What a parse of a document gives as a store: the parsed bookmarks in
/// their order, or the parser's message as a malformed-document failure.
pub open spec fn accepts(
    outcome: Result<Cache, BookmarkError>,
    parsed: Result<Vec<CacheRecord>, String>,
) -> bool {
    match parsed {
        Ok(records) => outcome matches Ok(cache) && cache.records() == records@,
        Err(message) => outcome matches Err(BookmarkError::MalformedCache(text)) && text@
            == message@,
    }
}

/// What reading `text` has to give: the empty store for the
/// empty-collection literal, and for any other text what `parse` makes of it.
pub open spec fn is_decoding<P>(
    outcome: Result<Cache, BookmarkError>,
    text: &str,
    parse: P,
) -> bool where P: FnOnce(&str) -> Result<Vec<CacheRecord>, String> {
    if is_empty_document(text@) {
        outcome matches Ok(cache) && cache@ == Seq::<RecordView>::empty()
    } else {
        exists|parsed: Result<Vec<CacheRecord>, String>|
            parse.ensures((text,), parsed) && accepts(outcome, parsed)
    }
}

/// What writing `cache` has to give: the empty-collection literal for the
/// empty store, and for any other store what `write` makes of it.
pub open spec fn is_encoding<W>(text: String, cache: &Cache, write: W) -> bool where
    W: FnOnce(&Cache) -> String {
    if cache@.len() == 0 {
        is_empty_document(text@)
    } else {
        write.ensures((cache,), text)
    }
}

impl Cache {
    /// Turns what the record parser returned into a store or a failure.
    pub fn from_parsed(parsed: Result<Vec<CacheRecord>, String>) -> (outcome: Result<
        Cache,
        BookmarkError,
    >)
        ensures
            accepts(outcome, parsed),
    {
        match parsed {
            Ok(records) => Ok(Cache::from_records(records)),
            Err(message) => Err(BookmarkError::MalformedCache(message)),
        }
    }

    /// Reads a store from `text`. The empty-collection literal gives the
    /// empty store at once; `parse` is called on every other text, and only
    /// then, and decides what the store holds.
    pub fn decode<P>(text: &str, parse: P) -> (outcome: Result<Cache, BookmarkError>) where
        P: FnOnce(&str) -> Result<Vec<CacheRecord>, String>,
        requires
            !is_empty_document(text@) ==> parse.requires((text,)),
        ensures
            is_decoding(outcome, text, parse),
    {
        if text.to_owned() == EMPTY_DOCUMENT.to_owned() {
            Ok(Cache::new())
        } else {
            let parsed = parse(text);
            Cache::from_parsed(parsed)
        }
    }

    /// Writes the store as text. A store without bookmarks gives the
    /// empty-collection literal at once; `write` is called on every other
    /// store, and only then, and decides the text.
    pub fn encode<W>(&self, write: W) -> (text: String) where W: FnOnce(&Cache) -> String
        requires
            self@.len() != 0 ==> write.requires((self,)),
        ensures
            is_encoding(text, self, write),
    {
        if self.get_records().len() == 0 {
            EMPTY_DOCUMENT.to_owned()
        } else {
            write(self)
        }
    }
}

/// The empty store is written as the empty-collection literal and read back
/// as the empty store, whatever the writer and the parser of records do.
pub proof fn lemma_empty_round_trip<W, P>(
    cache: &Cache,
    write: W,
    text: String,
    document: &str,
    parse: P,
    outcome: Result<Cache, BookmarkError>,
) where W: FnOnce(&Cache) -> String, P: FnOnce(&str) -> Result<Vec<CacheRecord>, String>
    requires
        cache@.len() == 0,
        is_encoding(text, cache, write),
        document@ == text@,
        is_decoding(outcome, document, parse),
    ensures
        is_empty_document(text@),
        outcome matches Ok(read) && read@ == cache@,
{
    assert(cache@ =~= Seq::<RecordView>::empty());
}

/// Writing a store and reading the text back gives the same bookmarks in
/// the same order, provided that the parser of records undoes the writer of
/// records on this store, and that the writer gives the empty-collection
/// literal for no store that holds a bookmark.
pub proof fn lemma_round_trip<W, P>(
    cache: &Cache,
    write: W,
    text: String,
    document: &str,
    parse: P,
    outcome: Result<Cache, BookmarkError>,
) where W: FnOnce(&Cache) -> String, P: FnOnce(&str) -> Result<Vec<CacheRecord>, String>
    requires
        is_encoding(text, cache, write),
        document@ == text@,
        is_decoding(outcome, document, parse),
        cache@.len() != 0 ==> !is_empty_document(text@),
        forall|parsed: Result<Vec<CacheRecord>, String>|
            write.ensures((cache,), text) && #[trigger] parse.ensures((document,), parsed) ==> (
            parsed matches Ok(records) && records@.map_values(|record: CacheRecord| record@)
                == cache@),
    ensures
        outcome matches Ok(read) && read@ == cache@,
{
    if cache@.len() == 0 {
        lemma_empty_round_trip(cache, write, text, document, parse, outcome);
    }
}

} // verus!
