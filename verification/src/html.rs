//! HTML documents, parsed and queried by the `scraper` crate.
//!
//! Parsing is a function of the text and of whether it is a whole document
//! or a fragment, so each value here carries, beside scraper's own value,
//! the plain values it came from: a document its source, a selector its
//! text, an element the query that found it. What a query returns is named
//! over those (`html_select_count`, `html_select_within_found`,
//! `html_attribute`, `html_text`), and the handlers' logic is stated over
//! the names.

use vstd::prelude::*;

verus! {

#[verifier::external_type_specification]
#[verifier::external_body]
pub struct ExHtml(scraper::Html);

#[verifier::external_type_specification]
#[verifier::external_body]
pub struct ExSelector(scraper::Selector);

#[verifier::external_type_specification]
#[verifier::external_body]
pub struct ExElementRef<'a>(scraper::ElementRef<'a>);

#[verifier::external_type_specification]
#[verifier::external_body]
pub struct ExSelectorErrorKind(scraper::error::SelectorErrorKind);

/// A parsed document, by value: the text it was parsed from, and whether it
/// was parsed as a whole document (else as a fragment).
pub struct DocumentView {
    pub source: Seq<char>,
    pub whole: bool,
}

/// An element found by a query on a document, by value: the document, the
/// selector, and the element's place among the query's matches.
pub struct ElementView {
    pub document: DocumentView,
    pub selector: Seq<char>,
    pub index: int,
}

/// The first match of a selector among an element's descendants, by value.
pub struct DescendantView {
    pub parent: ElementView,
    pub selector: Seq<char>,
}

/// Whether `scraper::Selector::parse` accepts a CSS selector group.
pub uninterp spec fn css_selector_accepts(text: Seq<char>) -> bool;

/// The number of elements of a document that match a selector, as
/// `scraper::Html::select` yields them.
pub uninterp spec fn html_select_count(document: DocumentView, selector: Seq<char>) -> nat;

/// Whether some descendant of an element matches a selector, as the first
/// item of `scraper::ElementRef::select` shows.
pub uninterp spec fn html_select_within_found(element: ElementView, selector: Seq<char>) -> bool;

/// The value of an element's attribute (`scraper::ElementRef::attr`).
pub uninterp spec fn html_attribute(element: ElementView, name: Seq<char>) -> Option<Seq<char>>;

/// The text of an element's descendant text nodes, concatenated
/// (`scraper::ElementRef::text`).
pub uninterp spec fn html_text(element: DescendantView) -> Seq<char>;

/// A parsed document, with the text it was parsed from.
pub struct Document {
    html: scraper::Html,
    source: String,
    whole: bool,
}

impl View for Document {
    type V = DocumentView;

    closed spec fn view(&self) -> DocumentView {
        DocumentView { source: self.source@, whole: self.whole }
    }
}

/// A parsed CSS selector group, with its text.
pub struct CssSelector {
    selector: scraper::Selector,
    source: String,
}

impl View for CssSelector {
    type V = Seq<char>;

    closed spec fn view(&self) -> Seq<char> {
        self.source@
    }
}

/// An element of a document, with the query that found it.
pub struct Element<'a> {
    node: scraper::ElementRef<'a>,
    document: &'a Document,
    selector: String,
    index: usize,
}

impl<'a> View for Element<'a> {
    type V = ElementView;

    closed spec fn view(&self) -> ElementView {
        ElementView {
            document: self.document@,
            selector: self.selector@,
            index: self.index as int,
        }
    }
}

/// The first match of a selector among an element's descendants, with the
/// query that found it.
pub struct Descendant<'a> {
    node: scraper::ElementRef<'a>,
    document: &'a Document,
    parent_selector: String,
    parent_index: usize,
    selector: String,
}

impl<'a> View for Descendant<'a> {
    type V = DescendantView;

    closed spec fn view(&self) -> DescendantView {
        DescendantView {
            parent: ElementView {
                document: self.document@,
                selector: self.parent_selector@,
                index: self.parent_index as int,
            },
            selector: self.selector@,
        }
    }
}

/// Parses HTML as a fragment (`scraper::Html::parse_fragment`). It never
/// fails; the document remembers its source.
#[verifier::external_body]
pub(crate) fn parse_fragment(body: &str) -> (r: Document)
    ensures
        r@ == (DocumentView { source: body@, whole: false }),
{
    Document { html: scraper::Html::parse_fragment(body), source: body.to_owned(), whole: false }
}

/// Parses HTML as a whole document (`scraper::Html::parse_document`). It
/// never fails; the document remembers its source.
#[verifier::external_body]
pub(crate) fn parse_document(body: &str) -> (r: Document)
    ensures
        r@ == (DocumentView { source: body@, whole: true }),
{
    Document { html: scraper::Html::parse_document(body), source: body.to_owned(), whole: true }
}

/// Parses a CSS selector group (`scraper::Selector::parse`). Claimed: it
/// succeeds exactly when scraper accepts the text, and the result remembers
/// its text.
#[verifier::external_body]
pub(crate) fn parse_selector(text: &str) -> (r: Result<CssSelector, scraper::error::SelectorErrorKind>)
    ensures
        r is Ok <==> css_selector_accepts(text@),
        r matches Ok(s) ==> s@ == text@,
{
    match scraper::Selector::parse(text) {
        Ok(selector) => Ok(CssSelector { selector, source: text.to_owned() }),
        Err(e) => Err(e),
    }
}

/// The elements of a document that match a selector, in the order
/// `scraper::Html::select` yields them. Claimed: there are as many as
/// scraper finds, and each remembers the query and its place in it.
#[verifier::external_body]
pub(crate) fn select_all<'a>(doc: &'a Document, selector: &CssSelector) -> (r: Vec<Element<'a>>)
    ensures
        r@.len() == html_select_count(doc@, selector@),
        forall|i: int|
            0 <= i < r@.len() ==> #[trigger] r@[i]@ == (ElementView {
                document: doc@,
                selector: selector@,
                index: i,
            }),
{
    doc.html.select(&selector.selector).enumerate().map(
        |(index, node)| Element { node, document: doc, selector: selector.source.clone(), index },
    ).collect()
}

/// The first descendant of an element that matches a selector (the first
/// item of `scraper::ElementRef::select`). Claimed: there is one exactly
/// when scraper finds one, and it remembers the query.
#[verifier::external_body]
pub(crate) fn select_first_within<'a>(element: &Element<'a>, selector: &CssSelector) -> (r: Option<
    Descendant<'a>,
>)
    ensures
        r is Some <==> html_select_within_found(element@, selector@),
        r matches Some(d) ==> d@ == (DescendantView { parent: element@, selector: selector@ }),
{
    element.node.select(&selector.selector).next().map(
        |node| Descendant {
            node,
            document: element.document,
            parent_selector: element.selector.clone(),
            parent_index: element.index,
            selector: selector.source.clone(),
        },
    )
}

/// The value of an element's attribute (`scraper::ElementRef::attr`).
/// Claimed: it is the value scraper reads from that element.
#[verifier::external_body]
pub(crate) fn attribute(element: &Element, name: &str) -> (r: Option<String>)
    ensures
        match r {
            Some(v) => html_attribute(element@, name@) == Some(v@),
            None => html_attribute(element@, name@) is None,
        },
{
    element.node.attr(name).map(|v| v.to_owned())
}

/// The text of a descendant's text nodes, concatenated
/// (`scraper::ElementRef::text`). Claimed: it is the text scraper reads
/// from that element.
#[verifier::external_body]
pub(crate) fn text_content(element: &Descendant) -> (r: String)
    ensures
        r@ == html_text(element@),
{
    element.node.text().collect()
}

} // verus!
