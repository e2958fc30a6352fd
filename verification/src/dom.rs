//! The parsed page: the outside HTML engine behind a narrow, named interface,
//! and the plain blocks that the parser reads from a page.
//!
//! Nothing in this module decides anything about meals. The wrappers hand a
//! page to the engine and give its answers a name; the functions below them
//! copy what the parser needs into plain values.

use vstd::prelude::*;
use vstd::string::StrSliceExecFns;
use scraper::{ElementRef, Html, Selector};

verus! {

/// `scraper::Html`: a parsed document, carried through as it is.
#[verifier::external_type_specification]
#[verifier::external_body]
pub struct ExHtml(Html);

/// `scraper::Selector`: a compiled CSS selector, carried through as it is.
#[verifier::external_type_specification]
#[verifier::external_body]
pub struct ExSelector(Selector);

/// `scraper::ElementRef`: a handle to one element of a document, carried
/// through as it is. Two handles are the same value where they point to the
/// same place of the same document.
#[verifier::external_type_specification]
#[verifier::external_body]
pub struct ExElementRef<'a>(ElementRef<'a>);

/// The document that the engine builds from a page text.
pub uninterp spec fn document_of(html: Seq<char>) -> Html;

/// The compiled form of a CSS selector, where the engine accepts it.
pub uninterp spec fn selector_of(css: Seq<char>) -> Option<Selector>;

/// The elements of a document that match a selector, in the engine's order.
pub uninterp spec fn selected_in_document(document: Html, selector: Selector) -> Seq<ElementRef<'static>>;

/// The descendants of an element that match a selector, in document order.
pub uninterp spec fn selected_in_element(element: ElementRef, selector: Selector) -> Seq<ElementRef<'static>>;

/// The value of an attribute of an element, where it has that attribute.
pub uninterp spec fn attribute_of(element: ElementRef, name: Seq<char>) -> Option<Seq<char>>;

/// The markup inside an element, as the engine writes it out.
pub uninterp spec fn inner_html_of(element: ElementRef) -> Seq<char>;

/// The text nodes below an element, in document order.
pub uninterp spec fn texts_of(element: ElementRef) -> Seq<Seq<char>>;

/// The children of an element that are elements, in document order.
pub uninterp spec fn child_elements_of(element: ElementRef) -> Seq<ElementRef<'static>>;

/// The most characters that a page may have.
///
/// The engine keeps texts in buffers that count their bytes in 32 bits. It
/// takes a copy of the page, which may have up to `u32::MAX` bytes, and it
/// grows buffers for comments, text nodes, names and attribute values, which
/// fails where a buffer would pass 2^31 bytes. No buffer holds more than
/// four bytes for each character of the page, so with this bound none holds
/// more than 2^30 bytes.
pub const MAX_PAGE_CHARS: usize = 0x0fff_ffff;

/// `scraper::Html::parse_document`: builds a document from a text. The
/// document is a function of the text alone. The engine talks of no text
/// that it refuses, but panics where one of its buffers would pass 2^31
/// bytes; with a text of up to [`MAX_PAGE_CHARS`] characters none does.
#[verifier::external_body]
pub(crate) fn parse_document(html: &str) -> (document: Html)
    requires
        html@.len() <= MAX_PAGE_CHARS,
    ensures
        document == document_of(html@),
{
    Html::parse_document(html)
}

/// Parses a page, unless it is longer than a page may be.
pub fn document(html: &str) -> (parsed: Option<Html>)
    ensures
        parsed == spec_document(html@),
{
    if html.unicode_len() > MAX_PAGE_CHARS {
        None
    } else {
        Some(parse_document(html))
    }
}

/// The document of a page, or nothing for a page of more than
/// [`MAX_PAGE_CHARS`] characters.
pub open spec fn spec_document(html: Seq<char>) -> Option<Html> {
    if html.len() > MAX_PAGE_CHARS {
        None
    } else {
        Some(document_of(html))
    }
}

/// `scraper::Selector::parse`: compiles a CSS selector, or refuses it. The
/// outcome is a function of the selector text alone.
#[verifier::external_body]
pub(crate) fn compile_selector(css: &str) -> (selector: Option<Selector>)
    ensures
        selector == selector_of(css@),
{
    Selector::parse(css).ok()
}

/// `scraper::Html::select`: the elements of the document that match.
#[verifier::external_body]
pub(crate) fn select_in_document<'a>(document: &'a Html, selector: &Selector) -> (found: Vec<
    ElementRef<'a>,
>)
    ensures
        found@ == selected_in_document(*document, *selector),
{
    document.select(selector).collect()
}

/// `scraper::ElementRef::select`: the descendants of the element that match.
#[verifier::external_body]
pub(crate) fn select_in_element<'a>(element: ElementRef<'a>, selector: &Selector) -> (found: Vec<
    ElementRef<'a>,
>)
    ensures
        found@ == selected_in_element(element, *selector),
{
    element.select(selector).collect()
}

/// `scraper::ElementRef::attr`: the value of the attribute, if it is there.
#[verifier::external_body]
pub(crate) fn element_attribute(element: ElementRef, name: &str) -> (value: Option<String>)
    ensures
        value.deep_view() == attribute_of(element, name@),
{
    element.attr(name).map(|value| value.to_owned())
}

/// `scraper::ElementRef::inner_html`: the markup inside the element.
#[verifier::external_body]
pub(crate) fn element_inner_html(element: ElementRef) -> (html: String)
    ensures
        html@ == inner_html_of(element),
{
    element.inner_html()
}

/// `scraper::ElementRef::text`: the text nodes below the element.
#[verifier::external_body]
pub(crate) fn element_texts(element: ElementRef) -> (texts: Vec<String>)
    ensures
        texts.deep_view() == texts_of(element),
{
    element.text().map(|text| text.to_owned()).collect()
}

/// `scraper::ElementRef::child_elements`: the children that are elements.
#[verifier::external_body]
pub(crate) fn element_children<'a>(element: ElementRef<'a>) -> (children: Vec<ElementRef<'a>>)
    ensures
        children@ == child_elements_of(element),
{
    element.child_elements().collect()
}

} // verus!
