//! What an extraction writes down: one browsable URL per line.

use vstd::prelude::*;
use vstd::string::*;
use crate::permalink::{browse_url, normalize_permalink};
use crate::saved_item::SavedItem;
use crate::text::{joined, join_lines};

verus! {

/// The browsable URLs of the items that carry a permalink, in batch order.
pub open spec fn permalink_urls(items: Seq<SavedItem>) -> Seq<Seq<char>>
    decreases items.len(),
{
    if items.len() == 0 {
        Seq::empty()
    } else {
        let before = permalink_urls(items.drop_last());
        match items.last().permalink {
            Some(permalink) => before.push(browse_url(permalink@)),
            None => before,
        }
    }
}

/// The number of items that carry a permalink.
pub open spec fn permalink_count(items: Seq<SavedItem>) -> nat
    decreases items.len(),
{
    if items.len() == 0 {
        0
    } else if items.last().permalink is Some {
        permalink_count(items.drop_last()) + 1
    } else {
        permalink_count(items.drop_last())
    }
}

/// The text written for a batch: its URLs, a line feed between each two.
pub open spec fn file_content(items: Seq<SavedItem>) -> Seq<char> {
    joined(permalink_urls(items), seq!['\n'])
}

/// A file to be written: the caller creates or overwrites `filename` so that
/// it holds exactly `content`.
#[derive(Debug, Clone, PartialEq)]
pub struct FileOutput {
    pub filename: String,
    pub content: String,
    /// The number of URLs in `content`.
    pub count: usize,
}

/// Every URL comes from one item with a permalink, so there are as many.
pub proof fn lemma_one_url_per_permalink(items: Seq<SavedItem>)
    ensures
        permalink_urls(items).len() == permalink_count(items),
        permalink_count(items) <= items.len(),
    decreases items.len(),
{
    if items.len() > 0 {
        lemma_one_url_per_permalink(items.drop_last());
    }
}

/// The URLs of a batch are those of its front followed by those of its back.
pub proof fn lemma_urls_of_concatenation(front: Seq<SavedItem>, back: Seq<SavedItem>)
    ensures
        permalink_urls(front + back) == permalink_urls(front) + permalink_urls(back),
    decreases back.len(),
{
    if back.len() == 0 {
        assert(front + back =~= front);
        assert(permalink_urls(front) + permalink_urls(back) =~= permalink_urls(front));
    } else {
        assert((front + back).drop_last() =~= front + back.drop_last());
        assert((front + back).last() == back.last());
        lemma_urls_of_concatenation(front, back.drop_last());
        assert(permalink_urls(front + back) =~= permalink_urls(front) + permalink_urls(back));
    }
}

/// Builds the browsable URLs of the items that carry a permalink.
pub fn browsable_urls(items: &Vec<SavedItem>) -> (urls: Vec<String>)
    ensures
        urls.deep_view() == permalink_urls(items@),
{
    let mut urls: Vec<String> = Vec::new();
    let mut i: usize = 0;
    while i < items.len()
        invariant
            i <= items.len(),
            urls.deep_view() == permalink_urls(items@.take(i as int)),
        decreases items.len() - i,
    {
        proof {
            assert(items@.take(i as int + 1).drop_last() =~= items@.take(i as int));
            assert(items@.take(i as int + 1).last() == items@[i as int]);
        }
        let ghost before = urls.deep_view();
        match &items[i].permalink {
            Some(permalink) => {
                let url = normalize_permalink(permalink.as_str());
                urls.push(url);
                assert(urls.deep_view() =~= before.push(browse_url(permalink@)));
            },
            None => {},
        }
        i = i + 1;
    }
    assert(items@.take(i as int) =~= items@);
    urls
}

/// Prepares the file of a batch: the URL of every item that carries a
/// permalink, one per line, and how many there are.
pub fn file_output(items: &Vec<SavedItem>, filename: &str) -> (out: FileOutput)
    ensures
        out.filename@ == filename@,
        out.content@ == file_content(items@),
        out.count == permalink_count(items@),
{
    let urls = browsable_urls(items);
    proof {
        lemma_one_url_per_permalink(items@);
        reveal_strlit("\n");
        assert("\n"@ =~= seq!['\n']);
    }
    let content = join_lines(&urls, "\n");
    FileOutput { filename: String::from_str(filename), content, count: urls.len() }
}

} // verus!
