//! The fences of a front matter block.
//!
//! A text has front matter only where its first line is a fence and a later
//! line closes it. A text that opens a fence and never closes it has none.

use crate::text::chars_of;
use vstd::prelude::*;

verus! {

/// Whether a character may follow the marker on a fence line: the white
/// space of Unicode but for the line feed, which ends the line.
pub open spec fn is_blank(c: char) -> bool {
    c == '\t' || c == '\u{b}' || c == '\u{c}' || c == '\r' || c == ' ' || c == '\u{85}' || c
        == '\u{a0}' || c == '\u{1680}' || c == '\u{2000}' || c == '\u{2001}' || c == '\u{2002}'
        || c == '\u{2003}' || c == '\u{2004}' || c == '\u{2005}' || c == '\u{2006}' || c
        == '\u{2007}' || c == '\u{2008}' || c == '\u{2009}' || c == '\u{200a}' || c
        == '\u{2028}' || c == '\u{2029}' || c == '\u{202f}' || c == '\u{205f}' || c
        == '\u{3000}'
}

/// Whether a character may follow the marker on a fence line.
pub fn blank(c: char) -> (r: bool)
    ensures
        r == is_blank(c),
{
    c == '\t' || c == '\u{b}' || c == '\u{c}' || c == '\r' || c == ' ' || c == '\u{85}' || c
        == '\u{a0}' || c == '\u{1680}' || c == '\u{2000}' || c == '\u{2001}' || c == '\u{2002}'
        || c == '\u{2003}' || c == '\u{2004}' || c == '\u{2005}' || c == '\u{2006}' || c
        == '\u{2007}' || c == '\u{2008}' || c == '\u{2009}' || c == '\u{200a}' || c
        == '\u{2028}' || c == '\u{2029}' || c == '\u{202f}' || c == '\u{205f}' || c
        == '\u{3000}'
}

/// A fence line is the marker `---`, followed by blanks only.
pub open spec fn is_fence_line(line: Seq<char>) -> bool {
    &&& "---"@.is_prefix_of(line)
    &&& (forall|i: int| 3 <= i < line.len() ==> is_blank(#[trigger] line[i]))
}

/// Whether a line of `text` runs from `start` to `end`: it begins at the
/// start of the text or behind a line feed, holds no line feed, and ends at a
/// line feed or at the end of the text.
pub open spec fn is_line(text: Seq<char>, start: int, end: int) -> bool {
    &&& 0 <= start <= end <= text.len()
    &&& (start == 0 || text[start - 1] == '\n')
    &&& (end == text.len() || text[end] == '\n')
    &&& (forall|k: int| start <= k < end ==> #[trigger] text[k] != '\n')
}

/// Whether the line of `text` from `start` to `end` is a fence line.
pub open spec fn is_fence_at(text: Seq<char>, start: int, end: int) -> bool {
    is_line(text, start, end) && is_fence_line(text.subrange(start, end))
}

/// Whether some line of `text` that starts behind `from` is a fence line.
pub open spec fn has_fence_behind(text: Seq<char>, from: int) -> bool {
    exists|start: int, end: int| from < start && #[trigger] is_fence_at(text, start, end)
}

/// Whether a text has the two fences of a front matter block: its first line
/// is a fence line that a line feed ends, and some later line is a fence line
/// too.
pub open spec fn has_fence_pair(text: Seq<char>) -> bool {
    exists|first_end: int|
        first_end < text.len() && #[trigger] is_fence_at(text, 0, first_end) && has_fence_behind(
            text,
            first_end,
        )
}

/// A text with a fence pair opens with the marker.
pub proof fn lemma_fence_pair_opens_with_marker(text: Seq<char>)
    requires
        has_fence_pair(text),
    ensures
        "---"@.is_prefix_of(text),
{
    let first_end = choose|first_end: int|
        first_end < text.len() && #[trigger] is_fence_at(text, 0, first_end) && has_fence_behind(
            text,
            first_end,
        );
    let line = text.subrange(0, first_end);
    assert("---"@ =~= line.subrange(0, "---"@.len() as int));
    assert("---"@ =~= text.subrange(0, "---"@.len() as int));
}

/// A line has one end only.
proof fn lemma_line_end_is_unique(text: Seq<char>, start: int, end: int, other: int)
    requires
        is_line(text, start, end),
        is_line(text, start, other),
    ensures
        end == other,
{
    if end < other {
        assert(text[end] == '\n');
    } else if other < end {
        assert(text[other] == '\n');
    }
}

/// The end of the line that starts at `start`.
fn line_end(text: &Vec<char>, start: usize) -> (end: usize)
    requires
        start <= text.len(),
    ensures
        start <= end <= text.len(),
        end == text.len() || text[end as int] == '\n',
        forall|k: int| start <= k < end ==> #[trigger] text[k] != '\n',
{
    let mut end: usize = start;
    while end < text.len() && text[end] != '\n'
        invariant
            start <= end <= text.len(),
            forall|k: int| start <= k < end ==> #[trigger] text[k] != '\n',
        decreases text.len() - end,
    {
        end += 1;
    }
    end
}

/// Whether the characters from `start` to `end` make a fence line.
fn fence_line(text: &Vec<char>, start: usize, end: usize) -> (r: bool)
    requires
        start <= end <= text.len(),
    ensures
        r == is_fence_line(text@.subrange(start as int, end as int)),
{
    proof {
        reveal_strlit("---");
    }
    let ghost line = text@.subrange(start as int, end as int);
    if end - start < 3 {
        return false;
    }
    if text[start] != '-' || text[start + 1] != '-' || text[start + 2] != '-' {
        proof {
            assert(line.subrange(0, 3)[0] == text[start as int]);
            assert(line.subrange(0, 3)[1] == text[start + 1]);
            assert(line.subrange(0, 3)[2] == text[start + 2]);
        }
        return false;
    }
    proof {
        assert("---"@ =~= line.subrange(0, 3));
    }
    let mut i: usize = start + 3;
    while i < end
        invariant
            start + 3 <= i <= end <= text.len(),
            line == text@.subrange(start as int, end as int),
            forall|k: int| 3 <= k < i - start ==> is_blank(#[trigger] line[k]),
        decreases end - i,
    {
        let c: char = text[i];
        if !blank(c) {
            proof {
                assert(!is_blank(line[i - start]));
            }
            return false;
        }
        i += 1;
    }
    true
}

/// Whether a text has the two fences of a front matter block.
pub fn has_fences(body: &str) -> (r: bool)
    ensures
        r == has_fence_pair(body@),
{
    let text = chars_of(body);
    let n: usize = text.len();
    let first_end: usize = line_end(&text, 0);
    proof {
        assert(is_line(text@, 0, first_end as int));
        assert forall|e: int| #[trigger] is_fence_at(text@, 0, e) implies e == first_end by {
            lemma_line_end_is_unique(text@, 0, first_end as int, e);
        }
    }
    if first_end == n || !fence_line(&text, 0, first_end) {
        return false;
    }
    let mut before: usize = first_end;
    while before < n
        invariant
            first_end <= before <= n,
            n == text.len(),
            text@ == body@,
            first_end < n,
            is_fence_at(text@, 0, first_end as int),
            before == n || text[before as int] == '\n',
            forall|s: int, e: int|
                first_end < s <= before ==> !#[trigger] is_fence_at(text@, s, e),
        decreases n - before,
    {
        let start: usize = before + 1;
        let end: usize = line_end(&text, start);
        if fence_line(&text, start, end) {
            proof {
                assert(is_fence_at(text@, start as int, end as int));
                assert(has_fence_behind(text@, first_end as int));
            }
            return true;
        }
        proof {
            assert(is_line(text@, start as int, end as int));
            assert forall|s: int, e: int| before < s <= end implies !#[trigger] is_fence_at(
                text@,
                s,
                e,
            ) by {
                if is_line(text@, s, e) {
                    if s > start {
                        assert(text@[s - 1] != '\n');
                    }
                    lemma_line_end_is_unique(text@, start as int, end as int, e);
                }
            }
        }
        before = end;
    }
    proof {
        assert(!has_fence_behind(text@, first_end as int));
    }
    false
}

} // verus!
