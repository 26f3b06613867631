//! The record type one listing entry is extracted into, and the extractor's
//! error type.

use vstd::prelude::*;

verus! {

/// One listing entry. Immutable after construction; unparsable or missing
/// optional parts degrade to the empty string, the empty sequence or 0.
#[derive(Debug)]
pub struct Story {
    pub title: String,
    pub link: String,
    pub author: String,
    pub tags: Vec<String>,
    pub votes: usize,
    pub comment_count: usize,
    pub comment_link: String,
}

/// The mathematical model of a `Story`.
#[verifier::ext_equal]
pub struct StoryView {
    pub title: Seq<char>,
    pub link: Seq<char>,
    pub author: Seq<char>,
    pub tags: Seq<Seq<char>>,
    pub votes: nat,
    pub comment_count: nat,
    pub comment_link: Seq<char>,
}

impl View for Story {
    type V = StoryView;

    open spec fn view(&self) -> StoryView {
        StoryView {
            title: self.title@,
            link: self.link@,
            author: self.author@,
            tags: self.tags.deep_view(),
            votes: self.votes as nat,
            comment_count: self.comment_count as nat,
            comment_link: self.comment_link@,
        }
    }
}

/// The extractor's only error: one of the fixed structural queries failed to
/// compile. A fatal configuration condition, never a per-entry failure.
#[derive(Debug, PartialEq, Eq, Structural, Clone, Copy)]
pub enum ExtractionError {
    MalformedSelector,
}

} // verus!
