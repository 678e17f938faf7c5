//! The fields that a chapter's front matter must give.

use vstd::prelude::*;

verus! {

/// The metadata of one chapter. All four fields are required.
#[derive(Clone, Debug)]
pub struct FrontMatter {
    pub title: String,
    pub description: String,
    pub featured_image_url: String,
    pub author: String,
}

/// What a `FrontMatter` holds, as plain text.
pub ghost struct FrontMatterText {
    pub title: Seq<char>,
    pub description: Seq<char>,
    pub featured_image_url: Seq<char>,
    pub author: Seq<char>,
}

impl View for FrontMatter {
    type V = FrontMatterText;

    open spec fn view(&self) -> FrontMatterText {
        FrontMatterText {
            title: self.title@,
            description: self.description@,
            featured_image_url: self.featured_image_url@,
            author: self.author@,
        }
    }
}

/// The view of an optional record.
pub open spec fn optional_view(fields: Option<FrontMatter>) -> Option<FrontMatterText> {
    match fields {
        Some(f) => Some(f@),
        None => None,
    }
}

/// The record that four optional texts make: all four must be there.
pub open spec fn required_fields(
    title: Option<Seq<char>>,
    description: Option<Seq<char>>,
    featured_image_url: Option<Seq<char>>,
    author: Option<Seq<char>>,
) -> Option<FrontMatterText> {
    if title is Some && description is Some && featured_image_url is Some && author is Some {
        Some(
            FrontMatterText {
                title: title->0,
                description: description->0,
                featured_image_url: featured_image_url->0,
                author: author->0,
            },
        )
    } else {
        None
    }
}

/// The view of an optional text.
pub open spec fn optional_text(text: Option<String>) -> Option<Seq<char>> {
    match text {
        Some(s) => Some(s@),
        None => None,
    }
}

impl FrontMatter {
    /// Builds the record from what was found under each of the four keys.
    /// The record exists exactly when every one of them was found.
    pub fn from_parts(
        title: Option<String>,
        description: Option<String>,
        featured_image_url: Option<String>,
        author: Option<String>,
    ) -> (r: Option<FrontMatter>)
        ensures
            optional_view(r) == required_fields(
                optional_text(title),
                optional_text(description),
                optional_text(featured_image_url),
                optional_text(author),
            ),
    {
        match (title, description, featured_image_url, author) {
            (Some(title), Some(description), Some(featured_image_url), Some(author)) => Some(
                FrontMatter { title, description, featured_image_url, author },
            ),
            _ => None,
        }
    }
}

} // verus!
