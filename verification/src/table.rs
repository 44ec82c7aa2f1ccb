//! The bookmark table: a self-sizing fixed-width listing of a store.

use crate::cache::Cache;
use crate::record::RecordView;
use vstd::prelude::*;
use vstd::string::*;
use vstd::utf8::encode_utf8;

verus! {

/// The least width of the name column.
pub const NAME_WIDTH: usize = 7;

/// The least width of the description column.
pub const DESCRIPTION_WIDTH: usize = 14;

/// The least width of the path column.
pub const PATH_WIDTH: usize = 7;

/// The width that the two gaps between the three columns add to a line.
pub const GAP_WIDTH: usize = 6;

/// The display length of a text: the number of bytes of its UTF-8 encoding.
pub open spec fn byte_len(text: Seq<char>) -> nat {
    encode_utf8(text).len()
}

/// `count` copies of `symbol`.
pub open spec fn run(symbol: char, count: nat) -> Seq<char> {
    Seq::new(count, |i: int| symbol)
}

/// The greater of `floor` and the display length of every text of `texts`.
pub open spec fn widest(texts: Seq<Seq<char>>, floor: nat) -> nat
    decreases texts.len(),
{
    if texts.len() == 0 {
        floor
    } else {
        let before = widest(texts.drop_last(), floor);
        if byte_len(texts.last()) > before {
            byte_len(texts.last())
        } else {
            before
        }
    }
}

/// The widths of the three columns of a table.
pub struct Widths {
    pub name: nat,
    pub description: nat,
    pub path: nat,
}

/// Columns of the three given widths.
pub open spec fn columns(name: nat, description: nat, path: nat) -> Widths {
    Widths { name, description, path }
}

/// Each column is as wide as its widest entry, and never narrower than its least width.
pub open spec fn widths_of(records: Seq<RecordView>) -> Widths {
    columns(
        widest(records.map_values(|r: RecordView| r.name), NAME_WIDTH as nat),
        widest(records.map_values(|r: RecordView| r.description), DESCRIPTION_WIDTH as nat),
        widest(records.map_values(|r: RecordView| r.path), PATH_WIDTH as nat),
    )
}

/// The length of the rules above and below the header line.
pub open spec fn rule_width(widths: Widths) -> nat {
    widths.name + widths.description + widths.path + GAP_WIDTH as nat
}

/// `text`, followed by as many blanks as it is shorter than `width`;
/// a text that fills the width or exceeds it stays as it is.
pub open spec fn padded(text: Seq<char>, width: nat) -> Seq<char> {
    if byte_len(text) < width {
        text + run(' ', (width - byte_len(text)) as nat)
    } else {
        text
    }
}

/// One line of the table: three padded cells with ` | ` between them.
pub open spec fn line(
    name: Seq<char>,
    description: Seq<char>,
    path: Seq<char>,
    widths: Widths,
) -> Seq<char> {
    padded(name, widths.name) + seq![' ', '|', ' '] + padded(description, widths.description)
        + seq![' ', '|', ' '] + padded(path, widths.path) + seq!['\n']
}

/// The lines of the given bookmarks, one after the other.
pub open spec fn body(records: Seq<RecordView>, widths: Widths) -> Seq<char>
    decreases records.len(),
{
    if records.len() == 0 {
        Seq::<char>::empty()
    } else {
        body(records.drop_last(), widths) + line(
            records.last().name,
            records.last().description,
            records.last().path,
            widths,
        )
    }
}

/// What comes before the bookmarks' lines: the title, and the header line
/// between two rules of dashes.
pub open spec fn heading(widths: Widths) -> Seq<char> {
    "Available bookmarks:\n"@ + run('-', rule_width(widths)) + seq!['\n'] + line(
        "Name:"@,
        "Description:"@,
        "Path:"@,
        widths,
    ) + run('-', rule_width(widths)) + seq!['\n']
}

/// The whole table for the given bookmarks.
pub open spec fn table(records: Seq<RecordView>) -> Seq<char> {
    heading(widths_of(records)) + body(records, widths_of(records))
}

/// A column is at least as wide as its least width and as each of its
/// entries, and exactly as wide as one of them.
pub proof fn lemma_widest(texts: Seq<Seq<char>>, floor: nat)
    ensures
        widest(texts, floor) >= floor,
        forall|i: int| 0 <= i < texts.len() ==> widest(texts, floor) >= byte_len(#[trigger] texts[i]),
        widest(texts, floor) == floor || exists|i: int|
            0 <= i < texts.len() && widest(texts, floor) == byte_len(#[trigger] texts[i]),
    decreases texts.len(),
{
    if texts.len() > 0 {
        let front = texts.drop_last();
        lemma_widest(front, floor);
        assert forall|i: int| 0 <= i < texts.len() implies widest(texts, floor) >= byte_len(
            #[trigger] texts[i],
        ) by {
            if i < front.len() {
                assert(front[i] == texts[i]);
            }
        }
        if widest(texts, floor) != floor {
            if widest(texts, floor) == byte_len(texts.last()) {
                assert(texts[texts.len() - 1] == texts.last());
            } else {
                let i = choose|i: int|
                    0 <= i < front.len() && widest(front, floor) == byte_len(#[trigger] front[i]);
                assert(front[i] == texts[i]);
            }
        }
    }
}

/// Two runs of one symbol make one run.
pub proof fn lemma_run_append(symbol: char, first: nat, second: nat)
    ensures
        run(symbol, first) + run(symbol, second) =~= run(symbol, first + second),
{
}

/// The number of bytes of the UTF-8 encoding of `text`.
pub fn display_len(text: &str) -> (len: usize)
    ensures
        len == byte_len(text@),
{
    text.as_bytes().len()
}

/// `count` copies of the one character that `unit` holds.
fn repeat(unit: &str, count: usize) -> (out: String)
    requires
        unit@.len() == 1,
    ensures
        out@ == run(unit@[0], count as nat),
{
    let mut out = String::new();
    let mut done: usize = 0;
    while done < count
        invariant
            done <= count,
            unit@.len() == 1,
            out@ == run(unit@[0], done as nat),
        decreases count - done,
    {
        out.append(unit);
        done += 1;
        assert(out@ =~= run(unit@[0], done as nat));
    }
    out
}

/// Appends `text` to `out`, filled up with blanks to `width`.
fn push_padded(out: &mut String, text: &str, width: usize)
    ensures
        final(out)@ == old(out)@ + padded(text@, width as nat),
{
    out.append(text);
    let len = display_len(text);
    if len < width {
        proof {
            reveal_strlit(" ");
        }
        let blanks = repeat(" ", width - len);
        out.append(blanks.as_str());
        assert(out@ =~= old(out)@ + padded(text@, width as nat));
    }
}

/// Appends one line of the table to `out`.
fn push_line(
    out: &mut String,
    name: &str,
    description: &str,
    path: &str,
    name_width: usize,
    description_width: usize,
    path_width: usize,
)
    ensures
        final(out)@ == old(out)@ + line(
            name@,
            description@,
            path@,
            columns(name_width as nat, description_width as nat, path_width as nat),
        ),
{
    proof {
        reveal_strlit(" | ");
        reveal_strlit("\n");
    }
    push_padded(out, name, name_width);
    out.append(" | ");
    push_padded(out, description, description_width);
    out.append(" | ");
    push_padded(out, path, path_width);
    out.append("\n");
    assert(" | "@ =~= seq![' ', '|', ' ']);
    assert("\n"@ =~= seq!['\n']);
    assert(out@ =~= old(out)@ + line(
        name@,
        description@,
        path@,
        columns(name_width as nat, description_width as nat, path_width as nat),
    ));
}

/// Appends a rule of dashes and a line break to `out`. The rule is as long
/// as the three columns and the gaps between them.
fn push_rule(out: &mut String, name_width: usize, description_width: usize, path_width: usize)
    ensures
        final(out)@ == old(out)@ + run(
            '-',
            rule_width(
                columns(name_width as nat, description_width as nat, path_width as nat),
            ),
        ) + seq!['\n'],
{
    proof {
        reveal_strlit("-");
        reveal_strlit("\n");
    }
    let names = repeat("-", name_width);
    let descriptions = repeat("-", description_width);
    let paths = repeat("-", path_width);
    let gaps = repeat("-", GAP_WIDTH);
    out.append(names.as_str());
    out.append(descriptions.as_str());
    out.append(paths.as_str());
    out.append(gaps.as_str());
    out.append("\n");
    proof {
        lemma_run_append('-', name_width as nat, description_width as nat);
        lemma_run_append('-', (name_width + description_width) as nat, path_width as nat);
        lemma_run_append(
            '-',
            (name_width + description_width + path_width) as nat,
            GAP_WIDTH as nat,
        );
        assert("\n"@ =~= seq!['\n']);
        assert(out@ =~= old(out)@ + run(
            '-',
            rule_width(
                columns(name_width as nat, description_width as nat, path_width as nat),
            ),
        ) + seq!['\n']);
    }
}

impl Cache {
    /// The widths of the name, description and path columns, in that order.
    pub fn column_widths(&self) -> (widths: (usize, usize, usize))
        ensures
            widths.0 == widths_of(self@).name,
            widths.1 == widths_of(self@).description,
            widths.2 == widths_of(self@).path,
    {
        let records = self.get_records();
        let mut name: usize = NAME_WIDTH;
        let mut description: usize = DESCRIPTION_WIDTH;
        let mut path: usize = PATH_WIDTH;
        let mut index: usize = 0;
        assert(self@.take(0) =~= Seq::<RecordView>::empty());
        while index < records.len()
            invariant
                index <= records.len(),
                records@ == self.records(),
                name == widths_of(self@.take(index as int)).name,
                description == widths_of(self@.take(index as int)).description,
                path == widths_of(self@.take(index as int)).path,
            decreases records.len() - index,
        {
            let record = &records[index];
            let name_len = display_len(record.name.as_str());
            let description_len = display_len(record.description.as_str());
            let path_len = display_len(record.path.as_str());
            proof {
                let shorter = self@.take(index as int);
                let longer = self@.take(index + 1);
                assert(longer.drop_last() =~= shorter);
                assert(longer.last() == record@);
                assert(longer.map_values(|r: RecordView| r.name).drop_last() =~= shorter.map_values(
                    |r: RecordView| r.name,
                ));
                assert(longer.map_values(|r: RecordView| r.description).drop_last()
                    =~= shorter.map_values(|r: RecordView| r.description));
                assert(longer.map_values(|r: RecordView| r.path).drop_last() =~= shorter.map_values(
                    |r: RecordView| r.path,
                ));
            }
            if name_len > name {
                name = name_len;
            }
            if description_len > description {
                description = description_len;
            }
            if path_len > path {
                path = path_len;
            }
            index += 1;
        }
        assert(self@.take(index as int) =~= self@);
        (name, description, path)
    }

    /// The table of all bookmarks as text: a title, the header line between
    /// two rules, and one line for each bookmark in storage order.
    pub fn list_bookmarks(&self) -> (text: String)
        ensures
            text@ == table(self@),
    {
        let (name_width, description_width, path_width) = self.column_widths();
        let ghost widths = widths_of(self@);
        let records = self.get_records();
        let mut text = String::from_str("Available bookmarks:\n");
        push_rule(&mut text, name_width, description_width, path_width);
        push_line(
            &mut text,
            "Name:",
            "Description:",
            "Path:",
            name_width,
            description_width,
            path_width,
        );
        push_rule(&mut text, name_width, description_width, path_width);
        assert(text@ =~= heading(widths));
        let mut index: usize = 0;
        assert(self@.take(0) =~= Seq::<RecordView>::empty());
        while index < records.len()
            invariant
                index <= records.len(),
                records@ == self.records(),
                widths == widths_of(self@),
                widths == columns(name_width as nat, description_width as nat, path_width as nat),
                text@ == heading(widths) + body(self@.take(index as int), widths),
            decreases records.len() - index,
        {
            let record = &records[index];
            proof {
                let longer = self@.take(index + 1);
                assert(longer.drop_last() =~= self@.take(index as int));
                assert(longer.last() == record@);
            }
            push_line(
                &mut text,
                record.name.as_str(),
                record.description.as_str(),
                record.path.as_str(),
                name_width,
                description_width,
                path_width,
            );
            index += 1;
            assert(text@ =~= heading(widths) + body(self@.take(index as int), widths));
        }
        assert(self@.take(index as int) =~= self@);
        text
    }
}

} // verus!
