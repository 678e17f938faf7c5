//! Splitting a chapter into its front matter and the text that follows.
//!
//! The fenced block is found and its YAML read by the `gray_matter` crate.
//! What that crate returns is named here, not re-stated; the choice of the
//! fields and the decision whether a record exists are made in verified code.

use crate::fence::{has_fence_pair, has_fences, is_fence_at, is_fence_line, is_line};
use crate::fields::{optional_text, optional_view, required_fields, FrontMatter, FrontMatterText};
use gray_matter::engine::YAML;
use gray_matter::{Matter, Pod};
use vstd::prelude::*;

verus! {

/// `gray_matter::Pod`: the value that a front matter block was read into.
#[verifier::external_type_specification]
#[verifier::external_body]
pub struct ExPod(gray_matter::Pod);

/// The text entries of a `Pod`: for a `Pod::Hash`, each key whose value is a
/// `Pod::String`, with that string; for any other `Pod`, nothing.
pub uninterp spec fn pod_texts(pod: Pod) -> Map<Seq<char>, Seq<char>>;

/// What `gray_matter::Matter::<YAML>::parse`, with the delimiter `---`, makes
/// of a text: the text entries of the data it found, if it found any, and the
/// content that is left without the block and its fences.
pub uninterp spec fn parsed_matter(body: Seq<char>) -> (
    Option<Map<Seq<char>, Seq<char>>>,
    Seq<char>,
);

/// Whether every character of `text` is a line feed.
pub open spec fn is_line_feeds(text: Seq<char>) -> bool {
    forall|i: int| 0 <= i < text.len() ==> #[trigger] text[i] == '\n'
}

/// Whether `body` is plainly fenced: the line `---`, a block, the line `---`,
/// then line feeds (`pad`), a rest, and at most one line feed more (`tail`).
/// No line of the block is a fence line; the rest holds no carriage return
/// and neither begins nor ends with a line feed.
pub open spec fn is_plainly_fenced(
    body: Seq<char>,
    block: Seq<char>,
    pad: Seq<char>,
    rest: Seq<char>,
    tail: Seq<char>,
) -> bool {
    &&& body == "---\n"@ + block + "\n---\n"@ + pad + rest + tail
    &&& (forall|s: int, e: int| #[trigger]
        is_line(block, s, e) ==> !is_fence_line(block.subrange(s, e)))
    &&& is_line_feeds(pad)
    &&& is_line_feeds(tail) && tail.len() <= 1
    &&& (forall|i: int| 0 <= i < rest.len() ==> #[trigger] rest[i] != '\r')
    &&& (rest.len() > 0 ==> rest[0] != '\n' && rest[rest.len() - 1] != '\n')
}

/// Whether `remainder` is the rest of `body` wherever `body` is plainly
/// fenced: the two fence lines, every line of the block, the line feeds
/// before the rest and the one behind it are gone, and the rest is kept
/// character for character.
pub open spec fn keeps_plain_rest(body: Seq<char>, remainder: Seq<char>) -> bool {
    forall|block: Seq<char>, pad: Seq<char>, rest: Seq<char>, tail: Seq<char>| #[trigger]
        is_plainly_fenced(body, block, pad, rest, tail) ==> remainder == rest
}

/// Calls `gray_matter::Matter::<YAML>::new().parse(body)` and hands back its
/// `data` and `content`. Trusted: both are what `parsed_matter` names; and
/// the content of a plainly fenced text is its rest. The parser takes the
/// first line for the opening fence, gathers the block's lines up to the
/// first line that is the delimiter once trimmed at its end, and joins the
/// lines behind it (`str::lines`, which takes a last line feed for the end of
/// the last line) with line feeds, dropping line feeds at the front; a rest
/// without carriage returns and without a line feed at either end comes out
/// of that as it went in.
#[verifier::external_body]
fn parse_yaml_matter(body: &str) -> (r: (Option<Pod>, String))
    ensures
        r.1@ == parsed_matter(body@).1,
        match r.0 {
            Some(pod) => parsed_matter(body@).0 == Some(pod_texts(pod)),
            None => parsed_matter(body@).0 is None,
        },
        keeps_plain_rest(body@, r.1@),
{
    let parsed = Matter::<YAML>::new().parse(body);
    (parsed.data, parsed.content)
}

/// Looks a key up with `gray_matter::Pod::as_hashmap` and reads the value
/// with `gray_matter::Pod::as_string`. Trusted: the result is the text under
/// `key` among the text entries of `pod`, and `None` where there is none.
#[verifier::external_body]
fn text_entry(pod: &Pod, key: &str) -> (r: Option<String>)
    ensures
        optional_text(r) == entry_at(pod_texts(*pod), key@),
{
    let entries = pod.as_hashmap().ok()?;
    entries.get(key)?.as_string().ok()
}

/// The text under a key, if the key is there.
pub open spec fn entry_at(texts: Map<Seq<char>, Seq<char>>, key: Seq<char>) -> Option<Seq<char>> {
    if texts.contains_key(key) {
        Some(texts[key])
    } else {
        None
    }
}

/// The record that a set of text entries gives: its four keys must all be
/// there. Other keys are ignored.
pub open spec fn fields_of(texts: Map<Seq<char>, Seq<char>>) -> Option<FrontMatterText> {
    required_fields(
        entry_at(texts, "title"@),
        entry_at(texts, "description"@),
        entry_at(texts, "featured_image_url"@),
        entry_at(texts, "author"@),
    )
}

/// The record of a chapter's text: that of its front matter's entries, and
/// none where the text has no fence pair or the parser finds no data.
pub open spec fn extracted_fields(body: Seq<char>) -> Option<FrontMatterText> {
    if has_fence_pair(body) {
        match parsed_matter(body).0 {
            Some(texts) => fields_of(texts),
            None => None,
        }
    } else {
        None
    }
}

/// A chapter's text without its front matter: the whole text where it has no
/// fence pair, else the content that the parser leaves.
pub open spec fn extracted_remainder(body: Seq<char>) -> Seq<char> {
    if has_fence_pair(body) {
        parsed_matter(body).1
    } else {
        body
    }
}

/// Entries that hold all four keys give a record, and its fields are the
/// texts under those keys, whatever else the entries hold.
pub proof fn lemma_complete_entries_give_record(texts: Map<Seq<char>, Seq<char>>)
    requires
        texts.contains_key("title"@),
        texts.contains_key("description"@),
        texts.contains_key("featured_image_url"@),
        texts.contains_key("author"@),
    ensures
        fields_of(texts) == Some(
            FrontMatterText {
                title: texts["title"@],
                description: texts["description"@],
                featured_image_url: texts["featured_image_url"@],
                author: texts["author"@],
            },
        ),
{
}

/// Entries that lack one of the four keys give no record.
pub proof fn lemma_missing_entry_gives_no_record(texts: Map<Seq<char>, Seq<char>>)
    requires
        !texts.contains_key("title"@) || !texts.contains_key("description"@)
            || !texts.contains_key("featured_image_url"@) || !texts.contains_key("author"@),
    ensures
        fields_of(texts) is None,
{
}

/// A text with a fence pair loses its block whether or not the block gives a
/// record: the remainder is the parser's content in both cases. A text
/// without a fence pair gives no record and is its own remainder.
pub proof fn lemma_remainder_does_not_depend_on_record(body: Seq<char>)
    ensures
        has_fence_pair(body) ==> extracted_remainder(body) == parsed_matter(body).1,
        !has_fence_pair(body) ==> extracted_remainder(body) == body && extracted_fields(body)
            is None,
{
}

/// A plainly fenced text has a fence pair.
pub proof fn lemma_plainly_fenced_has_fence_pair(
    body: Seq<char>,
    block: Seq<char>,
    pad: Seq<char>,
    rest: Seq<char>,
    tail: Seq<char>,
)
    requires
        is_plainly_fenced(body, block, pad, rest, tail),
    ensures
        has_fence_pair(body),
{
    reveal_strlit("---");
    reveal_strlit("---\n");
    reveal_strlit("\n---\n");
    let open = "---\n"@;
    let close = "\n---\n"@;
    let fenced = open + block + close;
    let start: int = (block.len() + 5) as int;
    let end: int = start + 3;
    assert(open.len() == 4 && close.len() == 5);
    assert(fenced.len() == 9 + block.len());
    assert(body == fenced + pad + rest + tail);
    assert forall|k: int| 0 <= k < fenced.len() implies body[k] == fenced[k] by {}
    assert forall|k: int| 0 <= k < 4 implies fenced[k] == open[k] by {}
    assert forall|k: int| 0 <= k < 5 implies fenced[4 + block.len() + k] == close[k] by {}
    assert(body[0] == '-' && body[1] == '-' && body[2] == '-' && body[3] == '\n');
    assert(body[start - 1] == close[0]);
    assert(body[start] == close[1]);
    assert(body[start + 1] == close[2]);
    assert(body[start + 2] == close[3]);
    assert(body[end] == close[4]);
    assert(is_line(body, 0, 3));
    assert("---"@ =~= body.subrange(0, 3).subrange(0, 3));
    assert(is_fence_line(body.subrange(0, 3)));
    assert(is_line(body, start, end));
    assert("---"@ =~= body.subrange(start, end).subrange(0, 3));
    assert(is_fence_line(body.subrange(start, end)));
    assert(is_fence_at(body, 0, 3));
    assert(is_fence_at(body, start, end));
}

/// A chapter split in two: the record of its front matter, where there is a
/// complete one, and the text that follows the block.
#[derive(Clone, Debug)]
pub struct Extraction {
    pub fields: Option<FrontMatter>,
    pub remainder: String,
}

/// Splits a chapter's text. A text without a fence pair, be it that no fence
/// opens it or that none closes the one that does, gives no record and is its
/// own remainder. For any other text the remainder is what the parser leaves,
/// whether or not the block gives a record; for a plainly fenced text that is
/// its rest, without the line feeds around it.
pub fn extract(body: &str) -> (r: Extraction)
    ensures
        optional_view(r.fields) == extracted_fields(body@),
        r.remainder@ == extracted_remainder(body@),
        !has_fence_pair(body@) ==> r.fields is None && r.remainder@ == body@,
        keeps_plain_rest(body@, r.remainder@),
{
    if !has_fences(body) {
        proof {
            assert forall|block: Seq<char>, pad: Seq<char>, rest: Seq<char>, tail: Seq<char>| #[trigger]
                is_plainly_fenced(body@, block, pad, rest, tail) implies body@ == rest by {
                lemma_plainly_fenced_has_fence_pair(body@, block, pad, rest, tail);
            }
        }
        return Extraction { fields: None, remainder: String::from_str(body) };
    }
    let (data, remainder) = parse_yaml_matter(body);
    let fields = match data {
        Some(pod) => FrontMatter::from_parts(
            text_entry(&pod, "title"),
            text_entry(&pod, "description"),
            text_entry(&pod, "featured_image_url"),
            text_entry(&pod, "author"),
        ),
        None => None,
    };
    Extraction { fields, remainder }
}

} // verus!
