//! One bookmark and its mathematical view.

use vstd::prelude::*;

verus! {

/// A named reference to a directory, with a free-text description.
#[derive(Debug, Clone, PartialEq, Eq)]
pub struct CacheRecord {
    pub name: String,
    pub description: String,
    pub path: String,
}

/// What a bookmark says, as plain sequences of characters.
pub struct RecordView {
    pub name: Seq<char>,
    pub description: Seq<char>,
    pub path: Seq<char>,
}

/// The bookmark that says the three given texts.
pub open spec fn bookmark(name: Seq<char>, description: Seq<char>, path: Seq<char>) -> RecordView {
    RecordView { name, description, path }
}

impl View for CacheRecord {
    type V = RecordView;

    open spec fn view(&self) -> RecordView {
        bookmark(self.name@, self.description@, self.path@)
    }
}

impl CacheRecord {
    /// A bookmark made of the three given texts.
    pub fn new(name: String, description: String, path: String) -> (record: CacheRecord)
        ensures
            record@ == bookmark(name@, description@, path@),
    {
        CacheRecord { name, description, path }
    }
}

} // verus!
