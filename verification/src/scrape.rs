//! The trusted boundary to the markup/query engine. Each function hands a
//! structural query and a markup fragment to the `scraper` crate and returns
//! plain values; what each call returns is a fixed function of its string
//! arguments alone, named by an uninterpreted spec function.
//!
//! In every result, the outermost `None` means the selector text failed to
//! compile as a structural query.

use vstd::prelude::*;

verus! {

/// The serialized markup of every subtree of `markup` matching `sel`, in
/// document order.
pub uninterp spec fn fragments_of(markup: Seq<char>, sel: Seq<char>) -> Option<Seq<Seq<char>>>;

/// The serialized markup of the first subtree of `markup` matching `sel`
/// (inner `None`: no match).
pub uninterp spec fn first_html_of(markup: Seq<char>, sel: Seq<char>) -> Option<Option<Seq<char>>>;

/// The concatenated text content of the first subtree of `markup` matching
/// `sel` (inner `None`: no match).
pub uninterp spec fn first_text_of(markup: Seq<char>, sel: Seq<char>) -> Option<Option<Seq<char>>>;

/// The text nodes, in document order, of the first subtree of `markup`
/// matching `sel` (inner `None`: no match).
pub uninterp spec fn first_texts_of(markup: Seq<char>, sel: Seq<char>) -> Option<
    Option<Seq<Seq<char>>>,
>;

/// The value of attribute `attr` on the first subtree of `markup` matching
/// `sel` (middle `None`: no match; innermost `None`: attribute absent).
pub uninterp spec fn first_attr_of(markup: Seq<char>, sel: Seq<char>, attr: Seq<char>) -> Option<
    Option<Option<Seq<char>>>,
>;

/// Relies on scraper's `Selector::parse`, `Html::parse_fragment`,
/// `Html::select` and `ElementRef::html`: the markup of every matching
/// subtree, in document order; `None` when the selector does not compile.
#[verifier::external_body]
pub(crate) fn select_all_html(markup: &str, sel: &str) -> (r: Option<Vec<String>>)
    ensures
        r.deep_view() == fragments_of(markup@, sel@),
{
    let selector = scraper::Selector::parse(sel).ok()?;
    let html = scraper::Html::parse_fragment(markup);
    Some(html.select(&selector).map(|e| e.html()).collect())
}

/// Relies on scraper's `Selector::parse`, `Html::parse_fragment`,
/// `Html::select` and `ElementRef::html`: the markup of the first matching
/// subtree; `None` when the selector does not compile.
#[verifier::external_body]
pub(crate) fn select_first_html(markup: &str, sel: &str) -> (r: Option<Option<String>>)
    ensures
        r.deep_view() == first_html_of(markup@, sel@),
{
    let selector = scraper::Selector::parse(sel).ok()?;
    let html = scraper::Html::parse_fragment(markup);
    Some(html.select(&selector).next().map(|e| e.html()))
}

/// Relies on scraper's `Selector::parse`, `Html::parse_fragment`,
/// `Html::select` and `ElementRef::text`: the concatenated text of the first
/// matching subtree; `None` when the selector does not compile.
#[verifier::external_body]
pub(crate) fn select_first_text(markup: &str, sel: &str) -> (r: Option<Option<String>>)
    ensures
        r.deep_view() == first_text_of(markup@, sel@),
{
    let selector = scraper::Selector::parse(sel).ok()?;
    let html = scraper::Html::parse_fragment(markup);
    Some(html.select(&selector).next().map(|e| e.text().collect::<String>()))
}

/// Relies on scraper's `Selector::parse`, `Html::parse_fragment`,
/// `Html::select` and `ElementRef::text`: the text nodes of the first
/// matching subtree, in document order; `None` when the selector does not
/// compile.
#[verifier::external_body]
pub(crate) fn select_first_texts(markup: &str, sel: &str) -> (r: Option<Option<Vec<String>>>)
    ensures
        r.deep_view() == first_texts_of(markup@, sel@),
{
    let selector = scraper::Selector::parse(sel).ok()?;
    let html = scraper::Html::parse_fragment(markup);
    Some(html.select(&selector).next().map(|e| e.text().map(|t| t.to_string()).collect()))
}

/// Relies on scraper's `Selector::parse`, `Html::parse_fragment`,
/// `Html::select` and `ElementRef::attr`: the named attribute of the first
/// matching subtree; `None` when the selector does not compile.
#[verifier::external_body]
pub(crate) fn select_first_attr(markup: &str, sel: &str, attr: &str) -> (r: Option<
    Option<Option<String>>,
>)
    ensures
        r.deep_view() == first_attr_of(markup@, sel@, attr@),
{
    let selector = scraper::Selector::parse(sel).ok()?;
    let html = scraper::Html::parse_fragment(markup);
    Some(html.select(&selector).next().map(|e| e.attr(attr).map(|a| a.to_string())))
}

} // verus!
