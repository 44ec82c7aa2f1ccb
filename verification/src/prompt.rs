//! Answers to the questions asked when a bookmark is added.
//!
//! Each question has a default, taken where the answer is a bare line
//! break. Any other answer is taken without its line breaks.

use crate::record::{bookmark, CacheRecord, RecordView};
use vstd::prelude::*;
use vstd::string::*;

verus! {

/// Whether `c` is kept in an answer: every character but the line break.
pub open spec fn is_kept(c: char) -> bool {
    c != '\n'
}

/// What an answer stands for: `default` where the answer is a bare line
/// break, and otherwise the answer without its line breaks.
pub open spec fn resolved(answer: Seq<char>, default: Seq<char>) -> Seq<char> {
    if answer == seq!['\n'] {
        default
    } else {
        answer.filter(|c: char| is_kept(c))
    }
}

/// Where the final segment of `path` begins: behind its last `/`, or at the
/// front where it holds none.
pub open spec fn segment_start(path: Seq<char>) -> int
    decreases path.len(),
{
    if path.len() == 0 {
        0
    } else if path.last() == '/' {
        path.len() as int
    } else {
        segment_start(path.drop_last())
    }
}

/// The final segment of `path`: what follows its last `/`.
pub open spec fn final_segment(path: Seq<char>) -> Seq<char> {
    path.subrange(segment_start(path), path.len() as int)
}

/// The bookmark that three answers describe when given in `directory`: the
/// name defaults to the final segment of the directory, the description to
/// the empty text, and the path to the directory itself.
pub open spec fn answered(
    name: Seq<char>,
    description: Seq<char>,
    path: Seq<char>,
    directory: Seq<char>,
) -> RecordView {
    bookmark(
        resolved(name, final_segment(directory)),
        resolved(description, Seq::<char>::empty()),
        resolved(path, directory),
    )
}

/// The final segment starts within the path, directly behind a `/` or at
/// the front, and holds no `/` itself.
pub proof fn lemma_segment_start(path: Seq<char>)
    ensures
        0 <= segment_start(path) <= path.len(),
        segment_start(path) == 0 || path[segment_start(path) - 1] == '/',
        forall|j: int| segment_start(path) <= j < path.len() ==> path[j] != '/',
    decreases path.len(),
{
    if path.len() > 0 && path.last() != '/' {
        let front = path.drop_last();
        lemma_segment_start(front);
        assert forall|j: int| segment_start(path) <= j < path.len() implies path[j] != '/' by {
            if j < front.len() {
                assert(front[j] == path[j]);
            }
        }
        if segment_start(path) != 0 {
            assert(front[segment_start(front) - 1] == path[segment_start(path) - 1]);
        }
    }
}

/// Cutting a path behind a position that only non-`/` characters follow
/// leaves the start of the final segment where it is.
proof fn lemma_segment_start_of_tail(path: Seq<char>, cut: int)
    requires
        0 <= cut <= path.len(),
        forall|j: int| cut <= j < path.len() ==> path[j] != '/',
    ensures
        segment_start(path) == segment_start(path.take(cut)),
    decreases path.len() - cut,
{
    if cut < path.len() {
        let front = path.drop_last();
        assert(path.last() == path[path.len() - 1]);
        assert forall|j: int| cut <= j < front.len() implies front[j] != '/' by {
            assert(front[j] == path[j]);
        }
        lemma_segment_start_of_tail(front, cut);
        assert(front.take(cut) =~= path.take(cut));
    } else {
        assert(path.take(cut) =~= path);
    }
}

/// The final segment of `path`: what follows its last `/`, or all of it
/// where it holds none.
pub fn last_segment(path: &str) -> (segment: &str)
    ensures
        segment@ == final_segment(path@),
{
    let len = path.unicode_len();
    let mut start: usize = len;
    while start > 0 && path.get_char(start - 1) != '/'
        invariant
            start <= len,
            len == path@.len(),
            forall|j: int| start <= j < len ==> path@[j] != '/',
        decreases start,
    {
        start -= 1;
    }
    proof {
        lemma_segment_start_of_tail(path@, start as int);
        let front = path@.take(start as int);
        if start > 0 {
            assert(front.last() == path@[start - 1]);
        }
    }
    path.substring_char(start, len)
}

/// `text` without its line breaks.
pub fn without_line_breaks(text: &str) -> (kept: String)
    ensures
        kept@ == text@.filter(|c: char| is_kept(c)),
{
    let len = text.unicode_len();
    let mut kept = String::new();
    let mut index: usize = 0;
    assert(text@.take(0) =~= Seq::<char>::empty());
    while index < len
        invariant
            index <= len,
            len == text@.len(),
            kept@ == text@.take(index as int).filter(|c: char| is_kept(c)),
        decreases len - index,
    {
        proof {
            let longer = text@.take(index + 1);
            assert(longer.drop_last() =~= text@.take(index as int));
            assert(longer.last() == text@[index as int]);
            reveal(Seq::filter);
        }
        if text.get_char(index) != '\n' {
            let piece = text.substring_char(index, index + 1);
            assert(piece@ =~= seq![text@[index as int]]);
            kept.append(piece);
            assert(kept@ =~= text@.take(index as int).filter(|c: char| is_kept(c)).push(
                text@[index as int],
            ));
        }
        index += 1;
    }
    assert(text@.take(index as int) =~= text@);
    kept
}

/// What `answer` stands for, given the default of its question.
pub fn answer_or_default(answer: &str, default: &str) -> (text: String)
    ensures
        text@ == resolved(answer@, default@),
{
    proof {
        reveal_strlit("\n");
        assert("\n"@ =~= seq!['\n']);
    }
    if answer.to_owned() == "\n".to_owned() {
        default.to_owned()
    } else {
        without_line_breaks(answer)
    }
}

/// The bookmark that the three answers describe when given in `directory`.
pub fn record_from_answers(name: &str, description: &str, path: &str, directory: &str) -> (record:
    CacheRecord)
    ensures
        record@ == answered(name@, description@, path@, directory@),
{
    let empty = String::new();
    CacheRecord {
        name: answer_or_default(name, last_segment(directory)),
        description: answer_or_default(description, empty.as_str()),
        path: answer_or_default(path, directory),
    }
}

} // verus!
