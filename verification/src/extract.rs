//! The content extractor: raw listing markup to an ordered sequence of
//! `Story` records, one per entry subtree, under the graceful-degradation
//! policy (a missing or unparsable optional part becomes the empty string,
//! the empty sequence or 0; a page with zero entries is an empty list, not an
//! error).

use vstd::prelude::*;

use crate::scrape::{
    first_attr_of, first_html_of, first_text_of, first_texts_of, fragments_of, select_all_html,
    select_first_attr, select_first_html, select_first_text, select_first_texts,
};
use crate::story::{ExtractionError, Story, StoryView};
use crate::text::{
    filter_tags, first_token, keeps_token, parse_count, spec_first_token, spec_parse_count,
};

verus! {

/// The fixed structural query that locates one listing entry.
pub open spec fn entry_sel() -> Seq<char> {
    "div[class=\"story_liner h-entry\"]"@
}

/// The fixed query for the entry's title anchor.
pub open spec fn title_sel() -> Seq<char> {
    "a[class=\"u-url\"]"@
}

/// The fixed query for the entry's tag container.
pub open spec fn tags_sel() -> Seq<char> {
    "span[class=\"tags\"]"@
}

/// The fixed query for the entry's author anchor.
pub open spec fn author_sel() -> Seq<char> {
    "a.u-author"@
}

/// The fixed query for the entry's vote marker.
pub open spec fn votes_sel() -> Seq<char> {
    "a.upvoter"@
}

/// The fixed query for the entry's comments marker.
pub open spec fn comments_sel() -> Seq<char> {
    "span[class=\"comments_label\"]"@
}

/// The query for the first anchor inside the comments marker.
pub open spec fn anchor_sel() -> Seq<char> {
    "a"@
}

/// The link attribute read off title and comment anchors.
pub open spec fn href_attr() -> Seq<char> {
    "href"@
}

/// The text of a first-match lookup, defaulted to empty when the match or
/// the lookup itself is absent.
pub open spec fn text_or_empty(o: Option<Option<Seq<char>>>) -> Seq<char> {
    match o {
        Some(Some(t)) => t,
        _ => Seq::empty(),
    }
}

/// The text nodes of a first-match lookup, defaulted to none.
pub open spec fn texts_or_empty(o: Option<Option<Seq<Seq<char>>>>) -> Seq<Seq<char>> {
    match o {
        Some(Some(t)) => t,
        _ => Seq::empty(),
    }
}

/// The attribute value of a first-match lookup, defaulted to empty.
pub open spec fn attr_or_empty(o: Option<Option<Option<Seq<char>>>>) -> Seq<char> {
    match o {
        Some(Some(Some(a))) => a,
        _ => Seq::empty(),
    }
}

/// Every fixed per-entry query compiled when applied to entry markup `e`:
/// the expected-unreachable failure that `extract` reports as
/// `MalformedSelector` did not occur on this entry.
pub open spec fn entry_lookups_ok(e: Seq<char>) -> bool {
    &&& first_text_of(e, title_sel()) is Some
    &&& first_attr_of(e, title_sel(), href_attr()) is Some
    &&& first_texts_of(e, tags_sel()) is Some
    &&& first_text_of(e, author_sel()) is Some
    &&& first_text_of(e, votes_sel()) is Some
    &&& first_html_of(e, comments_sel()) is Some
    &&& match first_html_of(e, comments_sel()) {
        Some(Some(c)) => first_text_of(c, anchor_sel()) is Some && first_attr_of(
            c,
            anchor_sel(),
            href_attr(),
        ) is Some,
        _ => true,
    }
}

/// The record extracted from one entry subtree: title text and href of the
/// first title anchor, the non-blank text nodes of the tag container, the
/// author text, the vote marker's text as a count, and the first token of the
/// comments anchor's text as a count together with that anchor's href.
pub open spec fn spec_entry(e: Seq<char>) -> StoryView {
    let comments = first_html_of(e, comments_sel());
    let ctext = match comments {
        Some(Some(c)) => text_or_empty(first_text_of(c, anchor_sel())),
        _ => Seq::empty(),
    };
    let clink = match comments {
        Some(Some(c)) => attr_or_empty(first_attr_of(c, anchor_sel(), href_attr())),
        _ => Seq::empty(),
    };
    StoryView {
        title: text_or_empty(first_text_of(e, title_sel())),
        link: attr_or_empty(first_attr_of(e, title_sel(), href_attr())),
        author: text_or_empty(first_text_of(e, author_sel())),
        tags: texts_or_empty(first_texts_of(e, tags_sel())).filter(|t: Seq<char>| keeps_token(t)),
        votes: spec_parse_count(text_or_empty(first_text_of(e, votes_sel()))),
        comment_count: spec_parse_count(spec_first_token(ctext)),
        comment_link: clink,
    }
}

/// Extraction of `markup` succeeds: the entry query and every per-entry
/// query compiled.
pub open spec fn spec_extract_ok(markup: Seq<char>) -> bool {
    &&& fragments_of(markup, entry_sel()) is Some
    &&& forall|i: int|
        0 <= i < fragments_of(markup, entry_sel())->Some_0.len() ==> entry_lookups_ok(
            #[trigger] fragments_of(markup, entry_sel())->Some_0[i],
        )
}

/// The records extracted from `markup`: one per entry subtree, in document
/// order.
pub open spec fn spec_extract(markup: Seq<char>) -> Seq<StoryView> {
    fragments_of(markup, entry_sel())->Some_0.map_values(|e: Seq<char>| spec_entry(e))
}

/// Extracts one entry; `None` exactly when one of the fixed queries failed
/// to compile.
fn extract_entry(e: &str) -> (r: Option<Story>)
    ensures
        r is Some <==> entry_lookups_ok(e@),
        r is Some ==> r->Some_0@ == spec_entry(e@),
{
    let title = match select_first_text(e, "a[class=\"u-url\"]") {
        None => {
            return None;
        },
        Some(Some(t)) => t,
        Some(None) => String::new(),
    };
    let link = match select_first_attr(e, "a[class=\"u-url\"]", "href") {
        None => {
            return None;
        },
        Some(Some(Some(a))) => a,
        Some(_) => String::new(),
    };
    let tag_nodes = match select_first_texts(e, "span[class=\"tags\"]") {
        None => {
            return None;
        },
        Some(Some(v)) => v,
        Some(None) => Vec::new(),
    };
    proof {
        assert(tag_nodes.deep_view() =~= texts_or_empty(first_texts_of(e@, tags_sel())));
    }
    let author = match select_first_text(e, "a.u-author") {
        None => {
            return None;
        },
        Some(Some(t)) => t,
        Some(None) => String::new(),
    };
    let votes_text = match select_first_text(e, "a.upvoter") {
        None => {
            return None;
        },
        Some(Some(t)) => t,
        Some(None) => String::new(),
    };
    let comments = match select_first_html(e, "span[class=\"comments_label\"]") {
        None => {
            return None;
        },
        Some(c) => c,
    };
    let mut comment_text = String::new();
    let mut comment_link = String::new();
    match comments {
        Some(c) => {
            comment_text = match select_first_text(c.as_str(), "a") {
                None => {
                    return None;
                },
                Some(Some(t)) => t,
                Some(None) => String::new(),
            };
            comment_link = match select_first_attr(c.as_str(), "a", "href") {
                None => {
                    return None;
                },
                Some(Some(Some(a))) => a,
                Some(_) => String::new(),
            };
        },
        None => {},
    }
    let votes = parse_count(votes_text.as_str());
    let count_token = first_token(comment_text.as_str());
    let comment_count = parse_count(count_token.as_str());
    let tags = filter_tags(tag_nodes);
    let story = Story { title, link, author, tags, votes, comment_count, comment_link };
    assert(story@ =~= spec_entry(e@));
    Some(story)
}

/// Extracts the records of a listing page, in document order. Returns
/// `Ok` with one record per entry (an empty list for a page with no
/// entries); `Err(MalformedSelector)` exactly when one of the fixed
/// structural queries fails to compile.
pub fn extract(markup: &str) -> (r: Result<Vec<Story>, ExtractionError>)
    ensures
        r is Ok <==> spec_extract_ok(markup@),
        r is Ok ==> r->Ok_0@.map_values(|s: Story| s@) == spec_extract(markup@),
        r is Err ==> r->Err_0 == ExtractionError::MalformedSelector,
{
    let frags = match select_all_html(markup, "div[class=\"story_liner h-entry\"]") {
        None => {
            return Err(ExtractionError::MalformedSelector);
        },
        Some(f) => f,
    };
    let ghost gfrags = fragments_of(markup@, entry_sel())->Some_0;
    assert(frags.deep_view() == gfrags);
    let mut stories: Vec<Story> = Vec::new();
    let mut i: usize = 0;
    while i < frags.len()
        invariant
            0 <= i <= frags.len(),
            fragments_of(markup@, entry_sel()) is Some,
            frags.deep_view() == gfrags,
            gfrags == fragments_of(markup@, entry_sel())->Some_0,
            gfrags.len() == frags.len(),
            stories@.len() == i,
            forall|k: int| 0 <= k < i ==> entry_lookups_ok(gfrags[k]),
            forall|k: int| 0 <= k < i ==> stories@[k]@ == spec_entry(gfrags[k]),
        decreases frags.len() - i,
    {
        assert(frags[i as int]@ == gfrags[i as int]);
        match extract_entry(frags[i].as_str()) {
            None => {
                return Err(ExtractionError::MalformedSelector);
            },
            Some(s) => {
                stories.push(s);
            },
        }
        i = i + 1;
    }
    assert(spec_extract_ok(markup@));
    assert(stories@.map_values(|s: Story| s@) =~= spec_extract(markup@));
    Ok(stories)
}

} // verus!
