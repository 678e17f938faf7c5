//! The per-chapter policy: which chapters get tags, and what a chapter's
//! text becomes.

use crate::fields::{optional_text, optional_view, FrontMatterText};
use crate::fence::{has_fence_pair, lemma_fence_pair_opens_with_marker};
use crate::matter::{
    extract, extracted_fields, extracted_remainder, is_plainly_fenced, Extraction,
};
use crate::tags::{
    canonical_url, canonical_url_text, joined_lines, lemma_joined_lines_open_with_first,
    synthesize, tag_lines,
};
use crate::text::same_text;
use vstd::prelude::*;

verus! {

/// The address of the published book.
pub open spec fn base_url_text() -> Seq<char> {
    "https://www.dedp.online"@
}

/// Whether a chapter of this name gets metadata tags.
pub open spec fn in_scope_text(name: Seq<char>) -> bool {
    name == "Introduction to the Field of Data Engineering"@
}

/// Whether a chapter of this name gets metadata tags.
pub fn in_scope(name: &str) -> (r: bool)
    ensures
        r == in_scope_text(name@),
{
    same_text(name, "Introduction to the Field of Data Engineering")
}

/// The new text of a chapter, given what was extracted from the old one:
/// the tag block, a line feed and the remainder where the chapter is in scope
/// and has a record; the remainder alone otherwise.
pub open spec fn rewritten_text(
    name: Seq<char>,
    source_path: Option<Seq<char>>,
    fields: Option<FrontMatterText>,
    remainder: Seq<char>,
) -> Seq<char> {
    if in_scope_text(name) && fields is Some {
        joined_lines(tag_lines(fields->0, canonical_url_text(base_url_text(), source_path)))
            + "\n"@ + remainder
    } else {
        remainder
    }
}

/// The new text of a chapter, given its old text.
pub open spec fn processed_text(
    name: Seq<char>,
    source_path: Option<Seq<char>>,
    body: Seq<char>,
) -> Seq<char> {
    rewritten_text(name, source_path, extracted_fields(body), extracted_remainder(body))
}

/// Whether `new_body` is right for a plainly fenced `body`: wherever `body`
/// is plainly fenced, the new text is the rest of `body`, with the tag block
/// and a line feed before it where the chapter is in scope and the block gives
/// a record. Both fence lines, every line of the block and the line feeds
/// around the rest are gone.
pub open spec fn plain_rest_kept(
    name: Seq<char>,
    source_path: Option<Seq<char>>,
    body: Seq<char>,
    new_body: Seq<char>,
) -> bool {
    forall|block: Seq<char>, pad: Seq<char>, rest: Seq<char>, tail: Seq<char>| #[trigger]
        is_plainly_fenced(body, block, pad, rest, tail) ==> new_body == rewritten_text(
            name,
            source_path,
            extracted_fields(body),
            rest,
        )
}

/// One chapter: its display name, the path of its source file where it has
/// one, and its text.
#[derive(Clone, Debug)]
pub struct Document {
    pub name: String,
    pub source_path: Option<String>,
    pub body: String,
}

/// One entry of a book: a chapter, or one of the entries that only give the
/// book its structure.
#[derive(Clone, Debug)]
pub enum Entry {
    Chapter(Document),
    Separator,
    PartTitle(String),
}

/// Whether `after` is what processing makes of `before`: a chapter keeps its
/// name and path and gets its new text, which for a plainly fenced text is
/// built on its rest; any other entry stays as it is.
pub open spec fn entry_processed(before: Entry, after: Entry) -> bool {
    match before {
        Entry::Chapter(d) => after matches Entry::Chapter(a) && a.name@ == d.name@
            && optional_text(a.source_path) == optional_text(d.source_path) && a.body@
            == processed_text(d.name@, optional_text(d.source_path), d.body@)
            && plain_rest_kept(d.name@, optional_text(d.source_path), d.body@, a.body@),
        Entry::Separator => after is Separator,
        Entry::PartTitle(t) => after matches Entry::PartTitle(u) && u@ == t@,
    }
}

/// Computes the new text of a chapter from what was extracted from it.
pub fn rewrite(name: &str, source_path: Option<&str>, extraction: Extraction) -> (r: String)
    ensures
        r@ == rewritten_text(
            name@,
            match source_path {
                Some(p) => Some(p@),
                None => None,
            },
            optional_view(extraction.fields),
            extraction.remainder@,
        ),
{
    let Extraction { fields, remainder } = extraction;
    match fields {
        Some(record) => {
            if in_scope(name) {
                let url = canonical_url("https://www.dedp.online", source_path);
                let mut text = synthesize(&record, url.as_str()).render();
                text.append("\n");
                text.append(remainder.as_str());
                text
            } else {
                remainder
            }
        },
        None => remainder,
    }
}

fn path_of(source_path: &Option<String>) -> (r: Option<&str>)
    ensures
        match r {
            Some(p) => optional_text(*source_path) == Some(p@),
            None => source_path is None,
        },
{
    match source_path {
        Some(p) => Some(p.as_str()),
        None => None,
    }
}

/// Replaces a chapter's text by its new text. Name and path stay. The new
/// text of a plainly fenced chapter is its rest, behind the tag block where
/// the chapter gets one.
pub fn process_document(doc: &mut Document)
    ensures
        final(doc).name == old(doc).name,
        final(doc).source_path == old(doc).source_path,
        final(doc).body@ == processed_text(
            old(doc).name@,
            optional_text(old(doc).source_path),
            old(doc).body@,
        ),
        plain_rest_kept(
            old(doc).name@,
            optional_text(old(doc).source_path),
            old(doc).body@,
            final(doc).body@,
        ),
{
    let extraction = extract(doc.body.as_str());
    let text = rewrite(doc.name.as_str(), path_of(&doc.source_path), extraction);
    doc.body = text;
}

/// The preprocessor as the book builder sees it.
#[derive(Clone, Debug)]
pub struct FrontMatterPreprocessor;

impl FrontMatterPreprocessor {
    /// The name under which the preprocessor is configured.
    pub fn name(&self) -> (r: &'static str)
        ensures
            r@ == "frontmatter-preprocessor"@,
    {
        "frontmatter-preprocessor"
    }

    /// Whether output for this renderer is supported: only for `html`.
    pub fn supports_renderer(&self, renderer: &str) -> (r: bool)
        ensures
            r == (renderer@ == "html"@),
    {
        same_text(renderer, "html")
    }

    /// Processes the entries of a book in their order. Each chapter gets its
    /// new text; every other entry, and the order, stay.
    pub fn run(&self, entries: &Vec<Entry>) -> (r: Vec<Entry>)
        ensures
            r.len() == entries.len(),
            forall|i: int| 0 <= i < entries.len() ==> entry_processed(entries[i], #[trigger] r[i]),
    {
        let mut out: Vec<Entry> = Vec::new();
        let mut i: usize = 0;
        while i < entries.len()
            invariant
                i <= entries.len(),
                out.len() == i,
                forall|j: int| 0 <= j < i ==> entry_processed(entries[j], #[trigger] out[j]),
            decreases entries.len() - i,
        {
            let next = match &entries[i] {
                Entry::Chapter(d) => {
                    let mut doc = Document {
                        name: d.name.clone(),
                        source_path: match &d.source_path {
                            Some(p) => Some(p.clone()),
                            None => None,
                        },
                        body: d.body.clone(),
                    };
                    process_document(&mut doc);
                    Entry::Chapter(doc)
                },
                Entry::Separator => Entry::Separator,
                Entry::PartTitle(t) => Entry::PartTitle(t.clone()),
            };
            out.push(next);
            i += 1;
        }
        out
    }
}

/// A text without a fence pair is left as it is, whatever the chapter's name
/// and path: processing it again changes nothing.
pub proof fn lemma_unfenced_body_is_fixed(
    name: Seq<char>,
    source_path: Option<Seq<char>>,
    body: Seq<char>,
)
    requires
        !has_fence_pair(body),
    ensures
        processed_text(name, source_path, body) == body,
{
}

/// Processing is idempotent on a chapter whose new text has no fence pair
/// left: a second pass gives the text of the first.
pub proof fn lemma_second_pass_changes_nothing(
    name: Seq<char>,
    source_path: Option<Seq<char>>,
    body: Seq<char>,
)
    requires
        !has_fence_pair(processed_text(name, source_path, body)),
    ensures
        processed_text(name, source_path, processed_text(name, source_path, body))
            == processed_text(name, source_path, body),
{
    lemma_unfenced_body_is_fixed(name, source_path, processed_text(name, source_path, body));
}

/// A chapter that got its tags is settled: its new text opens with a tag, not
/// with a fence, so processing it again changes nothing.
pub proof fn lemma_tagged_body_is_settled(
    name: Seq<char>,
    source_path: Option<Seq<char>>,
    body: Seq<char>,
)
    requires
        in_scope_text(name),
        extracted_fields(body) is Some,
    ensures
        !has_fence_pair(processed_text(name, source_path, body)),
        processed_text(name, source_path, processed_text(name, source_path, body))
            == processed_text(name, source_path, body),
{
    let lines = tag_lines(
        extracted_fields(body)->0,
        canonical_url_text(base_url_text(), source_path),
    );
    let text = processed_text(name, source_path, body);
    reveal_strlit("---");
    reveal_strlit("<meta property=\"og:title\" content=\"");
    lemma_joined_lines_open_with_first(lines);
    let opening = "<meta property=\"og:title\" content=\""@;
    let first = lines[0];
    let joined = joined_lines(lines);
    assert(opening[0] == '<');
    assert(first == opening + extracted_fields(body)->0.title + "\" />"@);
    assert(first[0] == '<');
    assert(joined.subrange(0, first.len() as int)[0] == joined[0]);
    assert(text == joined + "\n"@ + extracted_remainder(body));
    assert(text[0] == '<');
    assert("---"@[0] == '-');
    if has_fence_pair(text) {
        lemma_fence_pair_opens_with_marker(text);
        assert(text.subrange(0, 3)[0] == text[0]);
    }
}

/// A chapter out of scope, or one without a complete record, gets the
/// remainder and nothing in front of it.
pub proof fn lemma_no_tags_without_scope_or_record(
    name: Seq<char>,
    source_path: Option<Seq<char>>,
    body: Seq<char>,
)
    requires
        !in_scope_text(name) || extracted_fields(body) is None,
    ensures
        processed_text(name, source_path, body) == extracted_remainder(body),
{
}

} // verus!
