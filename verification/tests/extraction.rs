use frontmatter_preprocessor::fields::FrontMatter;
use frontmatter_preprocessor::fence::{blank, has_fences};
use frontmatter_preprocessor::matter::extract;
use frontmatter_preprocessor::text::chars_of;

const FULL: &str = "---\ntitle: Intro\ndescription: A primer\nfeatured_image_url: http://x/img.png\nauthor: Jane\n---\n# Hello";

fn text(s: &str) -> Option<String> {
    Some(s.to_string())
}

#[test]
fn from_parts_needs_all_four() {
    let all = FrontMatter::from_parts(text("t"), text("d"), text("i"), text("a")).unwrap();
    assert_eq!(all.title, "t");
    assert_eq!(all.description, "d");
    assert_eq!(all.featured_image_url, "i");
    assert_eq!(all.author, "a");
    assert!(FrontMatter::from_parts(None, text("d"), text("i"), text("a")).is_none());
    assert!(FrontMatter::from_parts(text("t"), None, text("i"), text("a")).is_none());
    assert!(FrontMatter::from_parts(text("t"), text("d"), None, text("a")).is_none());
    assert!(FrontMatter::from_parts(text("t"), text("d"), text("i"), None).is_none());
    assert!(FrontMatter::from_parts(None, None, None, None).is_none());
}

#[test]
fn from_parts_keeps_empty_texts() {
    let all = FrontMatter::from_parts(text(""), text(""), text(""), text("")).unwrap();
    assert_eq!(all.title, "");
    assert_eq!(all.author, "");
}

#[test]
fn fence_pair_needs_an_opening_and_a_closing_line() {
    assert!(has_fences("---\n---"));
    assert!(has_fences("---\ntitle: x\n---\nbody"));
    assert!(has_fences("---\n\n\n---\n"));
    assert!(has_fences("--- \t\r\n x\n---  "));
    assert!(has_fences("---\u{a0}\n---\u{3000}\nbody"));
    assert!(has_fences("---\r\ntitle: x\r\n---\r\nbody"));
    assert!(has_fences("---\na\nb\n----\n---\nc"));
}

#[test]
fn fence_pair_is_missing() {
    assert!(!has_fences(""));
    assert!(!has_fences("--"));
    assert!(!has_fences("---"));
    assert!(!has_fences("---\n"));
    assert!(!has_fences("---\nabc"));
    assert!(!has_fences("---\nabc\n"));
    assert!(!has_fences("----\n---"));
    assert!(!has_fences("---x\n---"));
    assert!(!has_fences(" ---\n---\n"));
    assert!(!has_fences("---\n ---\n"));
    assert!(!has_fences("---\n--- -\n"));
    assert!(!has_fences("x\n---\n---\n"));
    assert!(!has_fences("\n---\n---\n"));
    assert!(!has_fences("# Hello\n---\n"));
    assert!(!has_fences("\u{e9}---\n---"));
}

#[test]
fn blank_is_white_space_but_the_line_feed() {
    for code in 0..=0x10FFFFu32 {
        if let Some(c) = char::from_u32(code) {
            assert_eq!(blank(c), c.is_whitespace() && c != '\n', "U+{:04X}", code);
        }
    }
}

#[test]
fn chars_of_gives_the_characters() {
    assert_eq!(chars_of(""), Vec::<char>::new());
    assert_eq!(chars_of("a\u{e9}\n-"), vec!['a', '\u{e9}', '\n', '-']);
}

#[test]
fn extract_without_fence_keeps_the_body() {
    for body in
        ["# Title\n\nSome text\n", "Hi", "", "\n\nlate\r\n", "text\n---\nmore\n---\n", "----\n---\n"]
    {
        let e = extract(body);
        assert!(e.fields.is_none());
        assert_eq!(e.remainder, body);
    }
}

#[test]
fn extract_reads_all_fields() {
    let e = extract(FULL);
    let f = e.fields.unwrap();
    assert_eq!(f.title, "Intro");
    assert_eq!(f.description, "A primer");
    assert_eq!(f.featured_image_url, "http://x/img.png");
    assert_eq!(f.author, "Jane");
    assert_eq!(e.remainder, "# Hello");
}

#[test]
fn extract_ignores_other_keys() {
    let e = extract(
        "---\ntags: [a, b]\nauthor: Jane\ntitle: Intro\nfeatured_image_url: img\ndescription: D\n---\nbody\nmore",
    );
    let f = e.fields.unwrap();
    assert_eq!(f.title, "Intro");
    assert_eq!(f.description, "D");
    assert_eq!(f.featured_image_url, "img");
    assert_eq!(f.author, "Jane");
    assert_eq!(e.remainder, "body\nmore");
}

#[test]
fn extract_with_missing_field_still_strips() {
    let e = extract(
        "---\ntitle: Intro\ndescription: A primer\nfeatured_image_url: http://x/img.png\n---\n# Hello",
    );
    assert!(e.fields.is_none());
    assert_eq!(e.remainder, "# Hello");
}

#[test]
fn extract_with_mistyped_field_still_strips() {
    let e = extract(
        "---\ntitle: 5\ndescription: A primer\nfeatured_image_url: http://x/img.png\nauthor: Jane\n---\n# Hello",
    );
    assert!(e.fields.is_none());
    assert_eq!(e.remainder, "# Hello");
}

#[test]
fn extract_with_a_list_for_a_block_gives_no_fields() {
    let e = extract("---\n- a\n- b\n- c\n- d\n---\n# Hello");
    assert!(e.fields.is_none());
    assert_eq!(e.remainder, "# Hello");
}

#[test]
fn extract_with_broken_yaml_still_strips() {
    let e = extract("---\ntitle: [unclosed\n---\n# Hello");
    assert!(e.fields.is_none());
    assert_eq!(e.remainder, "# Hello");
}

#[test]
fn extract_with_empty_block_strips_the_fences() {
    let e = extract("---\n---\n# Hello");
    assert!(e.fields.is_none());
    assert_eq!(e.remainder, "# Hello");
}

#[test]
fn extract_without_closing_fence_keeps_the_body() {
    for body in ["---\ntitle: Intro\n# Hello", "---\ntitle: Intro\n# Hello\n", "---\n", "---"] {
        let e = extract(body);
        assert!(e.fields.is_none());
        assert_eq!(e.remainder, body);
    }
}

#[test]
fn extract_takes_fences_with_trailing_white_space() {
    let e = extract(
        "--- \r\ntitle: Intro\r\ndescription: D\r\nfeatured_image_url: img\r\nauthor: Jane\r\n---\u{2003}\r\nbody\r\n",
    );
    let f = e.fields.unwrap();
    assert_eq!(f.title, "Intro");
    assert_eq!(f.author, "Jane");
    assert_eq!(e.remainder, "body");
}

#[test]
fn extract_keeps_the_rest_of_a_plainly_fenced_text() {
    for block in ["title: a", "", "a: b\r\nc: d", "----", "x\n\ny"] {
        for rest in ["", "rest", "one\ntwo\n\nthree", "--- x\n---", "\u{e9}\t \u{a0}"] {
            let e = extract(&format!("---\n{}\n---\n{}", block, rest));
            assert!(e.fields.is_none());
            assert_eq!(e.remainder, rest);
        }
    }
}

#[test]
fn extract_drops_the_line_feeds_around_the_rest() {
    for block in ["title: a", "", "x\n\ny"] {
        for pad in ["", "\n", "\n\n\n"] {
            for rest in ["", "rest", "one\ntwo\n\nthree", "--- x\n---", " \t."] {
                for tail in ["", "\n"] {
                    let e = extract(&format!("---\n{}\n---\n{}{}{}", block, pad, rest, tail));
                    assert!(e.fields.is_none());
                    assert_eq!(e.remainder, rest);
                }
            }
        }
    }
}

#[test]
fn extract_of_a_usual_chapter() {
    let e = extract(
        "---\ntitle: Intro\ndescription: A primer\nfeatured_image_url: http://x/img.png\nauthor: Jane\n---\n\n# Hello\n\nSome text.\n",
    );
    assert_eq!(e.fields.unwrap().title, "Intro");
    assert_eq!(e.remainder, "# Hello\n\nSome text.");
}

#[test]
fn extract_strips_only_the_first_block() {
    let e = extract("---\ntitle: a\n---\n---\ntitle: b\n---\nrest");
    assert!(e.fields.is_none());
    assert_eq!(e.remainder, "---\ntitle: b\n---\nrest");
}
