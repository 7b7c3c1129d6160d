//! The parsed page and the queries that locate elements in it.
//!
//! The tree, its elements and the compiled selectors belong to `scraper`.
//! Nothing inside them is visible to the verifier, so this module gives a
//! name to what each of the calls returns and states, without proof, that
//! the call returns just that. Each name is a function of the call's
//! arguments alone: parsing, matching and serializing read nothing else.

use vstd::prelude::*;

verus! {

/// A parsed HTML tree.
#[verifier::external_type_specification]
#[verifier::external_body]
pub struct ExHtml(scraper::Html);

/// A compiled CSS selector group.
#[verifier::external_type_specification]
#[verifier::external_body]
pub struct ExSelector(scraper::Selector);

/// A reference to one element of a parsed tree.
#[verifier::external_type_specification]
#[verifier::external_body]
pub struct ExElementRef<'a>(scraper::ElementRef<'a>);

/// The reason a selector text was refused.
#[verifier::external_type_specification]
#[verifier::external_body]
pub struct ExSelectorErrorKind<'a>(scraper::error::SelectorErrorKind<'a>);

/// The tree that `Html::parse_document` builds from a source text.
pub uninterp spec fn parsed_document(source: Seq<char>) -> scraper::Html;

/// The selector that `Selector::parse` compiles from a text, or `None` where
/// it refuses the text.
pub uninterp spec fn parsed_selector(css: Seq<char>) -> Option<scraper::Selector>;

/// The elements of a tree that `Html::select` yields for a selector, in the
/// order in which it yields them: that in which the parser made them.
pub uninterp spec fn document_matches(dom: scraper::Html, selector: scraper::Selector) -> Seq<
    scraper::ElementRef<'static>,
>;

/// The descendants of an element that `ElementRef::select` yields for a
/// selector, in the order in which it yields them: document order.
pub uninterp spec fn element_matches(
    element: scraper::ElementRef<'static>,
    selector: scraper::Selector,
) -> Seq<scraper::ElementRef<'static>>;

/// The text nodes below an element that `ElementRef::text` yields, in
/// document order.
pub uninterp spec fn element_texts(element: scraper::ElementRef<'static>) -> Seq<Seq<char>>;

/// The markup of an element's children, as `ElementRef::inner_html`
/// serializes it.
pub uninterp spec fn element_markup(element: scraper::ElementRef<'static>) -> Seq<char>;

/// `Html::parse_document`. Parsing does not fail: what is wrong with the
/// source is noted in the tree. The result is the tree named by
/// [`parsed_document`].
#[verifier::external_body]
pub(crate) fn parse_document(source: &str) -> (dom: scraper::Html)
    ensures
        dom == parsed_document(source@),
{
    scraper::Html::parse_document(source)
}

/// `Selector::parse`. The result is the selector named by
/// [`parsed_selector`], and an error exactly where that is `None`.
#[verifier::external_body]
pub(crate) fn parse_selector<'i>(css: &'i str) -> (r: Result<
    scraper::Selector,
    scraper::error::SelectorErrorKind<'i>,
>)
    ensures
        match r {
            Ok(selector) => parsed_selector(css@) == Some(selector),
            Err(_) => parsed_selector(css@) is None,
        },
{
    scraper::Selector::parse(css)
}

/// `Html::select`, its items collected: the elements named by
/// [`document_matches`].
#[verifier::external_body]
pub(crate) fn select_in_document<'a>(dom: &'a scraper::Html, selector: &scraper::Selector) -> (found:
    Vec<scraper::ElementRef<'a>>)
    ensures
        found@ == document_matches(*dom, *selector),
{
    dom.select(selector).collect()
}

/// `ElementRef::select`, its items collected: the elements named by
/// [`element_matches`].
#[verifier::external_body]
pub(crate) fn select_in_element<'a>(
    element: &scraper::ElementRef<'a>,
    selector: &scraper::Selector,
) -> (found: Vec<scraper::ElementRef<'a>>)
    ensures
        found@ == element_matches(*element, *selector),
{
    element.select(selector).collect()
}

/// `ElementRef::text`, its items collected as strings: the text nodes named
/// by [`element_texts`].
#[verifier::external_body]
pub(crate) fn text_nodes(element: &scraper::ElementRef<'_>) -> (texts: Vec<String>)
    ensures
        texts.deep_view() == element_texts(*element),
{
    element.text().map(String::from).collect()
}

/// `ElementRef::inner_html`: the markup named by [`element_markup`].
#[verifier::external_body]
pub(crate) fn inner_markup(element: &scraper::ElementRef<'_>) -> (markup: String)
    ensures
        markup@ == element_markup(*element),
{
    element.inner_html()
}

} // verus!
