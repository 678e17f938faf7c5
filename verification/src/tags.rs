//! The block of metadata tags that is put in front of a chapter.

use crate::fields::{FrontMatter, FrontMatterText};
use crate::text::{html_path, html_path_text};
use vstd::prelude::*;

verus! {

/// One tag: what stands before the value, the value, and the closing.
pub open spec fn tag_text(opening: Seq<char>, value: Seq<char>) -> Seq<char> {
    opening + value + "\" />"@
}

/// The five tags of a chapter, in their fixed order: title, image, address,
/// description, author.
pub open spec fn tag_lines(fields: FrontMatterText, canonical_url: Seq<char>) -> Seq<Seq<char>> {
    seq![
        tag_text("<meta property=\"og:title\" content=\""@, fields.title),
        tag_text("<meta property=\"og:image\" content=\""@, fields.featured_image_url),
        tag_text("<meta property=\"og:url\" content=\""@, canonical_url),
        tag_text("<meta property=\"og:description\" content=\""@, fields.description),
        tag_text("<meta name=\"author\" content=\""@, fields.author),
    ]
}

/// Lines joined by a line feed between each two.
pub open spec fn joined_lines(lines: Seq<Seq<char>>) -> Seq<char>
    decreases lines.len(),
{
    if lines.len() == 0 {
        Seq::empty()
    } else if lines.len() == 1 {
        lines[0]
    } else {
        joined_lines(lines.drop_last()) + "\n"@ + lines.last()
    }
}

/// Joined lines open with the first line.
pub proof fn lemma_joined_lines_open_with_first(lines: Seq<Seq<char>>)
    requires
        lines.len() > 0,
    ensures
        lines[0].is_prefix_of(joined_lines(lines)),
    decreases lines.len(),
{
    if lines.len() > 1 {
        lemma_joined_lines_open_with_first(lines.drop_last());
        assert(lines.drop_last()[0] == lines[0]);
        let head = joined_lines(lines.drop_last());
        let all = head + "\n"@ + lines.last();
        assert(lines[0] =~= head.subrange(0, lines[0].len() as int));
        assert(lines[0] =~= all.subrange(0, lines[0].len() as int));
    } else {
        assert(lines[0] =~= lines[0].subrange(0, lines[0].len() as int));
    }
}

/// The address under which a chapter is published: the base address alone
/// where the chapter has no source path, else the base address, a slash, and
/// the source path with its extension `.md` rewritten to `.html`.
pub open spec fn canonical_url_text(base_url: Seq<char>, source_path: Option<Seq<char>>) -> Seq<
    char,
> {
    match source_path {
        Some(path) => base_url + "/"@ + html_path_text(path),
        None => base_url,
    }
}

/// Computes the address under which a chapter is published.
pub fn canonical_url(base_url: &str, source_path: Option<&str>) -> (r: String)
    ensures
        r@ == canonical_url_text(
            base_url@,
            match source_path {
                Some(p) => Some(p@),
                None => None,
            },
        ),
{
    let mut url = String::from_str(base_url);
    match source_path {
        Some(path) => {
            let page = html_path(path);
            url.append("/");
            url.append(page.as_str());
        },
        None => {},
    }
    url
}

/// The five metadata tags of one chapter.
#[derive(Clone, Debug)]
pub struct TagBlock {
    pub title: String,
    pub image: String,
    pub url: String,
    pub description: String,
    pub author: String,
}

impl View for TagBlock {
    type V = Seq<Seq<char>>;

    open spec fn view(&self) -> Seq<Seq<char>> {
        seq![self.title@, self.image@, self.url@, self.description@, self.author@]
    }
}

fn tag(opening: &str, value: &str) -> (r: String)
    ensures
        r@ == tag_text(opening@, value@),
{
    let mut line = String::from_str(opening);
    line.append(value);
    line.append("\" />");
    line
}

/// Builds the tag block of a chapter from its fields and its address. The
/// block always has five tags in the same order, whatever the fields hold.
pub fn synthesize(fields: &FrontMatter, canonical_url: &str) -> (r: TagBlock)
    ensures
        r@ == tag_lines(fields@, canonical_url@),
        r@.len() == 5,
{
    TagBlock {
        title: tag("<meta property=\"og:title\" content=\"", fields.title.as_str()),
        image: tag("<meta property=\"og:image\" content=\"", fields.featured_image_url.as_str()),
        url: tag("<meta property=\"og:url\" content=\"", canonical_url),
        description: tag(
            "<meta property=\"og:description\" content=\"",
            fields.description.as_str(),
        ),
        author: tag("<meta name=\"author\" content=\"", fields.author.as_str()),
    }
}

impl TagBlock {
    /// The tags as a list, first to last.
    pub fn lines(&self) -> (r: Vec<String>)
        ensures
            r.len() == 5,
            forall|i: int| 0 <= i < 5 ==> (#[trigger] r[i])@ == self@[i],
    {
        let mut lines: Vec<String> = Vec::new();
        lines.push(self.title.clone());
        lines.push(self.image.clone());
        lines.push(self.url.clone());
        lines.push(self.description.clone());
        lines.push(self.author.clone());
        lines
    }

    /// The block as one text: the five tags with a line feed between each two.
    pub fn render(&self) -> (r: String)
        ensures
            r@ == joined_lines(self@),
    {
        let mut text = self.title.clone();
        text.append("\n");
        text.append(self.image.as_str());
        text.append("\n");
        text.append(self.url.as_str());
        text.append("\n");
        text.append(self.description.as_str());
        text.append("\n");
        text.append(self.author.as_str());
        proof {
            let l = self@;
            let l4 = l.drop_last();
            let l3 = l4.drop_last();
            let l2 = l3.drop_last();
            let l1 = l2.drop_last();
            assert(l1 =~= seq![self.title@]);
            assert(joined_lines(l1) == self.title@);
            assert(joined_lines(l2) == self.title@ + "\n"@ + self.image@);
            assert(joined_lines(l3) == joined_lines(l2) + "\n"@ + self.url@);
            assert(joined_lines(l4) == joined_lines(l3) + "\n"@ + self.description@);
            assert(joined_lines(l) == joined_lines(l4) + "\n"@ + self.author@);
        }
        text
    }
}

} // verus!
