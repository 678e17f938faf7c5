//! Text helpers: a text's characters, the comparison of two texts, and the
//! path of the page that is published for a source path.

use std::str::Chars;
use vstd::prelude::*;
use vstd::std_specs::iter::IteratorSpec;

verus! {

/// The extension of a source file.
pub open spec fn source_extension() -> Seq<char> {
    seq!['.', 'm', 'd']
}

/// The path of the page that is published for a source path: a path that
/// ends in `.md` ends in `.html` instead; any other path is kept. Only the
/// end of the path counts, so a `.md` inside a directory's name stays.
pub open spec fn html_path_text(path: Seq<char>) -> Seq<char> {
    if source_extension().is_suffix_of(path) {
        path.take(path.len() - 3) + ".html"@
    } else {
        path
    }
}

/// Rewrites the extension `.md` at the end of `path` to `.html`.
pub fn html_path(path: &str) -> (r: String)
    ensures
        r@ == html_path_text(path@),
{
    let n: usize = path.unicode_len();
    if n >= 3 && path.get_char(n - 3) == '.' && path.get_char(n - 2) == 'm' && path.get_char(n - 1)
        == 'd' {
        proof {
            assert(source_extension() =~= path@.subrange(n - 3, n as int));
            assert(path@.take(n - 3) =~= path@.subrange(0, n - 3));
        }
        let mut out = String::from_str(path.substring_char(0, n - 3));
        out.append(".html");
        out
    } else {
        proof {
            if source_extension().is_suffix_of(path@) {
                let end = path@.subrange(n - 3, n as int);
                assert(end[0] == path@[n - 3]);
                assert(end[1] == path@[n - 2]);
                assert(end[2] == path@[n - 1]);
            }
        }
        String::from_str(path)
    }
}

/// The characters of a text, in order.
pub fn chars_of(text: &str) -> (r: Vec<char>)
    ensures
        r@ == text@,
{
    let mut rest: Chars<'_> = text.chars();
    let mut out: Vec<char> = Vec::new();
    proof {
        assert(out@ + rest.remaining() =~= text@);
    }
    loop
        invariant
            out@ + rest.remaining() == text@,
            rest.obeys_prophetic_iter_laws(),
            rest.decrease() is Some,
        ensures
            out@ == text@,
        decreases rest.decrease()->0,
    {
        let ghost before = rest.remaining();
        match rest.next() {
            Some(c) => {
                out.push(c);
                proof {
                    assert(out@ + rest.remaining() =~= text@);
                }
            },
            None => {
                proof {
                    assert(out@ + before =~= out@);
                }
                break ;
            },
        }
    }
    out
}

/// Whether two texts hold the same characters.
pub fn same_text(a: &str, b: &str) -> (r: bool)
    ensures
        r == (a@ == b@),
{
    let left = String::from_str(a);
    let right = String::from_str(b);
    left == right
}

} // verus!
