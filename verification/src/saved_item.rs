//! The records that an extraction retrieves.

use vstd::prelude::*;

verus! {

/// One saved record, as the listing returned it.
#[derive(Debug, Clone, PartialEq)]
pub struct SavedItem {
    /// Display title; absent for records that are not posts.
    pub title: Option<String>,
    /// Relative path of the item on the platform.
    pub permalink: Option<String>,
    /// External link target.
    pub url: Option<String>,
    /// Owning community.
    pub subreddit: String,
    /// Creation time in seconds since the epoch, as the bit pattern of the
    /// IEEE 754 double that the listing carries.
    pub created_utc_bits: u64,
    /// Short record identifier.
    pub id: String,
    /// Fully-qualified identifier (`kind_id`): what a removal is addressed to.
    pub name: String,
    /// True for text posts.
    pub is_self_post: Option<bool>,
    /// Body of a comment or text post.
    pub body: Option<String>,
    /// Title of the parent post, when the record is a comment.
    pub link_title: Option<String>,
    /// Permalink of the parent post, when the record is a comment.
    pub link_permalink: Option<String>,
}

impl SavedItem {
    /// The record carries the identifier that a removal needs.
    pub open spec fn has_name(&self) -> bool {
        self.name@.len() > 0
    }

    /// Whether the record carries the identifier that a removal needs.
    pub fn is_named(&self) -> (named: bool)
        ensures
            named == self.has_name(),
    {
        !self.name.as_str().is_empty()
    }
}

/// One page of a listing: its records in the order the server gave them, and
/// the cursor of the next page, if there is one.
#[derive(Debug, Clone, PartialEq)]
pub struct Page {
    /// The records of the page.
    pub children: Vec<SavedItem>,
    /// The cursor to continue from; absent on the last page.
    pub after: Option<String>,
}

} // verus!
