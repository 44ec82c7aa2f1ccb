//! The bookmark store: an ordered collection of bookmarks.

use crate::error::BookmarkError;
use crate::record::{bookmark, CacheRecord, RecordView};
use vstd::prelude::*;

verus! {

/// The bookmarks in storage order, which is also display order.
#[derive(Debug, Clone, PartialEq, Eq)]
pub struct Cache(Vec<CacheRecord>);

/// Whether some bookmark of `records` is called `name`.
pub open spec fn has_name(records: Seq<RecordView>, name: Seq<char>) -> bool {
    exists|i: int| 0 <= i < records.len() && #[trigger] records[i].name == name
}

/// Whether `index` is the position of the earliest bookmark called `name`.
pub open spec fn is_first_match(records: Seq<RecordView>, name: Seq<char>, index: int) -> bool {
    &&& 0 <= index < records.len()
    &&& records[index].name == name
    &&& forall|j: int| 0 <= j < index ==> #[trigger] records[j].name != name
}

/// Whether `shorter` is `records` without the earliest bookmark called
/// `name`, or `records` itself where no bookmark is called so.
pub open spec fn is_removal(
    records: Seq<RecordView>,
    name: Seq<char>,
    shorter: Seq<RecordView>,
) -> bool {
    if has_name(records, name) {
        exists|index: int| is_first_match(records, name, index) && shorter == records.remove(index)
    } else {
        shorter == records
    }
}

impl View for Cache {
    type V = Seq<RecordView>;

    open spec fn view(&self) -> Seq<RecordView> {
        self.records().map_values(|record: CacheRecord| record@)
    }
}

impl Cache {
    /// The stored bookmarks themselves, in storage order.
    pub closed spec fn records(&self) -> Seq<CacheRecord> {
        self.0@
    }

    /// A store without bookmarks.
    pub fn new() -> (cache: Cache)
        ensures
            cache@ == Seq::<RecordView>::empty(),
            cache.records() == Seq::<CacheRecord>::empty(),
    {
        let cache = Cache(Vec::new());
        assert(cache@ =~= Seq::<RecordView>::empty());
        cache
    }

    /// Appends a bookmark made of the three texts. Names are not checked for
    /// uniqueness: an earlier bookmark of the same name stays where it is.
    pub fn add(&mut self, name: String, description: String, path: String)
        ensures
            final(self)@ == old(self)@.push(bookmark(name@, description@, path@)),
    {
        self.0.push(CacheRecord { name, description, path });
        assert(self@ =~= old(self)@.push(bookmark(name@, description@, path@)));
    }

    /// The position of the earliest bookmark called `name`, if there is one.
    pub fn position(&self, name: &str) -> (found: Option<usize>)
        ensures
            match found {
                Some(index) => is_first_match(self@, name@, index as int),
                None => !has_name(self@, name@),
            },
    {
        let wanted = name.to_owned();
        let mut index: usize = 0;
        while index < self.0.len()
            invariant
                index <= self.0.len(),
                wanted@ == name@,
                forall|j: int| 0 <= j < index ==> #[trigger] self@[j].name != name@,
            decreases self.0.len() - index,
        {
            if self.0[index].name == wanted {
                return Some(index);
            }
            index += 1;
        }
        None
    }

    /// The earliest bookmark called `name`; names are compared exactly.
    pub fn find(&self, name: &str) -> (found: Result<&CacheRecord, BookmarkError>)
        ensures
            match found {
                Ok(record) => exists|index: int|
                    is_first_match(self@, name@, index) && *record == self.records()[index],
                Err(error) => {
                    &&& !has_name(self@, name@)
                    &&& error matches BookmarkError::BookmarkNotFound(target)
                    &&& target@ == name@
                },
            },
            found.is_ok() == has_name(self@, name@),
    {
        match self.position(name) {
            Some(index) => Ok(&self.0[index]),
            None => Err(BookmarkError::BookmarkNotFound(name.to_owned())),
        }
    }

    /// The directory that the bookmark called `target` points to.
    pub fn go(&self, target: &str) -> (found: Result<String, BookmarkError>)
        ensures
            match found {
                Ok(path) => exists|index: int|
                    is_first_match(self@, target@, index) && path@ == self@[index].path,
                Err(error) => {
                    &&& !has_name(self@, target@)
                    &&& error matches BookmarkError::BookmarkNotFound(name)
                    &&& name@ == target@
                },
            },
            found.is_ok() == has_name(self@, target@),
    {
        match self.find(target) {
            Ok(record) => Ok(record.path.clone()),
            Err(error) => Err(error),
        }
    }

    /// Takes out the earliest bookmark called `name`. Where no bookmark has
    /// that name the store is left as it is.
    pub fn remove(&mut self, name: &str)
        ensures
            is_removal(old(self)@, name@, final(self)@),
    {
        match self.position(name) {
            Some(index) => {
                self.0.remove(index);
                assert(self@ =~= old(self)@.remove(index as int));
            },
            None => {},
        }
    }

    /// A store that holds exactly `records`, in their order.
    pub fn from_records(records: Vec<CacheRecord>) -> (cache: Cache)
        ensures
            cache.records() == records@,
    {
        Cache(records)
    }

    /// The bookmarks in storage order.
    pub fn get_records(&self) -> (records: &Vec<CacheRecord>)
        ensures
            records@ == self.records(),
    {
        &self.0
    }

    /// The bookmarks, open to change: whatever the caller leaves in the
    /// collection is what the store then holds.
    pub fn get_mut_records(&mut self) -> (records: &mut Vec<CacheRecord>)
        ensures
            records@ == old(self).records(),
            final(self).records() == final(records)@,
    {
        &mut self.0
    }
}

/// At most one position is that of the earliest bookmark of a name.
pub proof fn lemma_first_match_is_unique(
    records: Seq<RecordView>,
    name: Seq<char>,
    first: int,
    second: int,
)
    requires
        is_first_match(records, name, first),
        is_first_match(records, name, second),
    ensures
        first == second,
{
    if first < second {
        assert(records[first].name != name);
    } else if second < first {
        assert(records[second].name != name);
    }
}

/// A name that some bookmark carries has an earliest bookmark, and only such a name has one.
pub proof fn lemma_first_match_exists(records: Seq<RecordView>, name: Seq<char>)
    ensures
        has_name(records, name) <==> exists|index: int| is_first_match(records, name, index),
    decreases records.len(),
{
    if has_name(records, name) {
        let hit = choose|i: int| 0 <= i < records.len() && #[trigger] records[i].name == name;
        let front = records.take(hit);
        lemma_first_match_exists(front, name);
        if has_name(front, name) {
            let index = choose|index: int| is_first_match(front, name, index);
            assert forall|j: int| 0 <= j < index implies #[trigger] records[j].name != name by {
                assert(front[j].name != name);
            }
            assert(front[index] == records[index]);
            assert(is_first_match(records, name, index));
        } else {
            assert forall|j: int| 0 <= j < hit implies #[trigger] records[j].name != name by {
                if records[j].name == name {
                    assert(front[j].name == name);
                }
            }
            assert(is_first_match(records, name, hit));
        }
    } else if exists|index: int| is_first_match(records, name, index) {
        let index = choose|index: int| is_first_match(records, name, index);
        assert(records[index].name == name);
    }
}

/// Adding a bookmark never changes which bookmark a name finds: the
/// earliest bookmark of a name stays the earliest, also where the added
/// bookmark carries the same name.
pub proof fn lemma_add_keeps_first_match(
    records: Seq<RecordView>,
    added: RecordView,
    name: Seq<char>,
    index: int,
)
    requires
        is_first_match(records, name, index),
    ensures
        is_first_match(records.push(added), name, index),
        records.push(added)[index] == records[index],
{
    let longer = records.push(added);
    assert forall|j: int| 0 <= j < index implies #[trigger] longer[j].name != name by {
        assert(longer[j] == records[j]);
    }
}

/// A bookmark added under a name that no bookmark carries yet is the one
/// that the name finds afterwards.
pub proof fn lemma_add_of_new_name_is_found(records: Seq<RecordView>, added: RecordView)
    requires
        !has_name(records, added.name),
    ensures
        is_first_match(records.push(added), added.name, records.len() as int),
{
    let longer = records.push(added);
    assert forall|j: int| 0 <= j < records.len() implies #[trigger] longer[j].name
        != added.name by {
        assert(longer[j] == records[j]);
        if records[j].name == added.name {
            assert(has_name(records, added.name));
        }
    }
}

} // verus!
