//! Turning the relative permalink of a saved item into a browsable URL.

use vstd::prelude::*;
use vstd::string::*;

verus! {

/// The origin that every browsable URL starts with.
pub open spec fn browse_origin() -> Seq<char> {
    "https://old.reddit.com/"@
}

/// `s` without its first character, when that character is `c`.
pub open spec fn without_leading(s: Seq<char>, c: char) -> Seq<char> {
    if s.len() > 0 && s[0] == c {
        s.subrange(1, s.len() as int)
    } else {
        s
    }
}

/// `s` without its last character, when that character is `c`.
pub open spec fn without_trailing(s: Seq<char>, c: char) -> Seq<char> {
    if s.len() > 0 && s[s.len() - 1] == c {
        s.subrange(0, s.len() - 1)
    } else {
        s
    }
}

/// The cleaned path of a permalink: one leading `/` is dropped, then one
/// leading `(`, then one trailing `)`.
pub open spec fn cleaned(permalink: Seq<char>) -> Seq<char> {
    without_trailing(without_leading(without_leading(permalink, '/'), '('), ')')
}

/// A path on which the cleanup finds nothing to remove.
pub open spec fn is_clean(path: Seq<char>) -> bool {
    &&& !(path.len() > 0 && path[0] == '/')
    &&& !(path.len() > 0 && path[0] == '(')
    &&& !(path.len() > 0 && path[path.len() - 1] == ')')
}

/// The browsable URL of a permalink.
pub open spec fn browse_url(permalink: Seq<char>) -> Seq<char> {
    browse_origin() + cleaned(permalink)
}

/// Cleans a permalink path.
pub fn clean_permalink(permalink: &str) -> (path: &str)
    ensures
        path@ == cleaned(permalink@),
{
    let n: usize = permalink.unicode_len();
    let mut from: usize = 0;
    let mut to: usize = n;
    if from < to && permalink.get_char(from) == '/' {
        from = from + 1;
    }
    if from < to && permalink.get_char(from) == '(' {
        from = from + 1;
    }
    if from < to && permalink.get_char(to - 1) == ')' {
        to = to - 1;
    }
    let path = permalink.substring_char(from, to);
    proof {
        let a = without_leading(permalink@, '/');
        let b = without_leading(a, '(');
        assert(b =~= permalink@.subrange(from as int, n as int));
        assert(path@ =~= without_trailing(b, ')'));
    }
    path
}

/// Builds the browsable URL of a permalink.
pub fn normalize_permalink(permalink: &str) -> (url: String)
    ensures
        url@ == browse_url(permalink@),
{
    let path = clean_permalink(permalink);
    String::from_str("https://old.reddit.com/").concat(path)
}

/// A path with nothing to remove is left as it is, and only such a path is.
pub proof fn lemma_cleaned_fixes_exactly_clean_paths(path: Seq<char>)
    ensures
        cleaned(path) == path <==> is_clean(path),
{
    let a = without_leading(path, '/');
    let b = without_leading(a, '(');
    let c = without_trailing(b, ')');
    if is_clean(path) {
        assert(c == path);
    } else {
        assert(c.len() < path.len());
    }
}

/// Once a cleanup has left a clean path, cleaning again changes nothing:
/// neither the path nor the URL built from it.
pub proof fn lemma_cleanup_is_idempotent(permalink: Seq<char>)
    requires
        is_clean(cleaned(permalink)),
    ensures
        cleaned(cleaned(permalink)) == cleaned(permalink),
        cleaned(browse_url(permalink)) == browse_url(permalink),
        browse_url(cleaned(permalink)) == browse_url(permalink),
{
    let path = cleaned(permalink);
    lemma_cleaned_fixes_exactly_clean_paths(path);
    let url = browse_url(permalink);
    reveal_strlit("https://old.reddit.com/");
    assert(url[0] == 'h');
    assert(url[url.len() - 1] != ')') by {
        if path.len() > 0 {
            assert(url[url.len() - 1] == path[path.len() - 1]);
        } else {
            assert(url[url.len() - 1] == '/');
        }
    }
    lemma_cleaned_fixes_exactly_clean_paths(url);
}

} // verus!
