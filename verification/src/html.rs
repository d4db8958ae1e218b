//! The boundary to the HTML engine. Documents, selectors and elements are
//! the engine's own values and stay opaque; what the engine answers about
//! them is named, and the reading of texts from them is built on those
//! names.

use vstd::prelude::*;

verus! {

/// Declares `scraper::Html`, a parsed document, as an opaque type.
#[verifier::external_type_specification]
#[verifier::external_body]
pub struct ExHtml(scraper::Html);

/// Declares `scraper::Selector`, a compiled CSS selector, as an opaque type.
#[verifier::external_type_specification]
#[verifier::external_body]
pub struct ExSelector(scraper::Selector);

/// Declares `scraper::ElementRef`, an element of a document, as an opaque
/// type.
#[verifier::external_type_specification]
#[verifier::external_body]
pub struct ExElementRef<'a>(scraper::ElementRef<'a>);

/// The document that a page's text parses to.
pub uninterp spec fn parsed(body: Seq<char>) -> scraper::Html;

/// The selector that a text compiles to, where it is one.
pub uninterp spec fn compiled(css: Seq<char>) -> Option<scraper::Selector>;

/// The elements of a document that match a selector, in document order.
pub uninterp spec fn document_hits(dom: scraper::Html, selector: scraper::Selector) -> Seq<
    scraper::ElementRef<'static>,
>;

/// The descendants of an element that match a selector, in document order.
pub uninterp spec fn element_hits(
    element: scraper::ElementRef,
    selector: scraper::Selector,
) -> Seq<scraper::ElementRef<'static>>;

/// The value of an attribute of an element, if the element has it.
pub uninterp spec fn attribute(element: scraper::ElementRef, name: Seq<char>) -> Option<Seq<char>>;

/// The markup inside an element, serialised.
pub uninterp spec fn inner_markup(element: scraper::ElementRef) -> Seq<char>;

/// Parses the text of a page into a document.
///
/// Trusted: `scraper::Html::parse_document` accepts any text and depends on
/// the text alone; the document is named, not described.
#[verifier::external_body]
pub(crate) fn parse_document(body: &str) -> (dom: scraper::Html)
    ensures
        dom == parsed(body@),
{
    scraper::Html::parse_document(body)
}

/// Compiles a CSS selector, or `None` where the text is not a selector.
///
/// Trusted: `scraper::Selector::parse` returns an error instead of
/// panicking and depends on the text alone; the selector is named, not
/// described.
#[verifier::external_body]
pub(crate) fn compile_selector(css: &str) -> (selector: Option<scraper::Selector>)
    ensures
        selector == compiled(css@),
{
    scraper::Selector::parse(css).ok()
}

/// The elements of `dom` that match `selector`, in document order.
///
/// Trusted: `scraper::Html::select` yields finitely many elements and
/// depends on document and selector alone; the elements are named, not
/// described.
#[verifier::external_body]
pub(crate) fn document_matches<'a>(dom: &'a scraper::Html, selector: &scraper::Selector) -> (found:
    Vec<scraper::ElementRef<'a>>)
    ensures
        found@ == document_hits(*dom, *selector),
{
    dom.select(selector).collect()
}

/// The descendants of `element` that match `selector`, in document order.
///
/// Trusted: `scraper::ElementRef::select` yields finitely many elements and
/// depends on element and selector alone; the elements are named, not
/// described.
#[verifier::external_body]
pub(crate) fn element_matches<'a>(
    element: &scraper::ElementRef<'a>,
    selector: &scraper::Selector,
) -> (found: Vec<scraper::ElementRef<'a>>)
    ensures
        found@ == element_hits(*element, *selector),
{
    element.select(selector).collect()
}

/// The value of the attribute `name` of `element`, if it has one.
///
/// Trusted: `scraper::ElementRef::attr` returns the stored value or `None`
/// and depends on element and name alone; the value is named, not
/// described.
#[verifier::external_body]
pub(crate) fn element_attr(element: &scraper::ElementRef, name: &str) -> (value: Option<String>)
    ensures
        text_of(value) == attribute(*element, name@),
{
    element.attr(name).map(|value| value.to_string())
}

/// The markup inside `element`, serialised.
///
/// Trusted: `scraper::ElementRef::inner_html` depends on the element alone;
/// the markup is named, not described.
#[verifier::external_body]
pub(crate) fn element_inner_html(element: &scraper::ElementRef) -> (markup: String)
    ensures
        markup@ == inner_markup(*element),
{
    element.inner_html()
}

/// What reading one text from a fragment gave.
#[derive(Debug, Clone)]
pub enum Lookup {
    /// No element matched the selector.
    NoElement,
    /// An element matched, but it lacks the attribute asked for.
    NoValue,
    /// The text that was read.
    Value(String),
}

/// A `Lookup` with its text as a character sequence.
pub enum LookupView {
    NoElement,
    NoValue,
    Value(Seq<char>),
}

impl LookupView {
    /// The text that was read, if any.
    pub open spec fn text(self) -> Option<Seq<char>> {
        match self {
            LookupView::Value(s) => Some(s),
            _ => None,
        }
    }
}

impl View for Lookup {
    type V = LookupView;

    open spec fn view(&self) -> LookupView {
        match self {
            Lookup::NoElement => LookupView::NoElement,
            Lookup::NoValue => LookupView::NoValue,
            Lookup::Value(s) => LookupView::Value(s@),
        }
    }
}

/// The character sequence of an optional string.
pub open spec fn text_of(o: Option<String>) -> Option<Seq<char>> {
    match o {
        Some(s) => Some(s@),
        None => None,
    }
}

/// A result with both of its sides as views.
pub open spec fn outcome<T: View, E: View>(r: Result<T, E>) -> Result<T::V, E::V> {
    match r {
        Ok(value) => Ok(value@),
        Err(error) => Err(error@),
    }
}

/// The views of the values of `s`.
pub open spec fn views<T: View>(s: Seq<T>) -> Seq<T::V> {
    Seq::new(s.len(), |i: int| s[i]@)
}

impl Lookup {
    /// The text that was read, if any.
    pub fn into_text(self) -> (out: Option<String>)
        ensures
            text_of(out) == self@.text(),
    {
        match self {
            Lookup::Value(s) => Some(s),
            _ => None,
        }
    }
}

/// What reading an attribute of an element gives.
pub open spec fn attribute_lookup(element: scraper::ElementRef, name: Seq<char>) -> LookupView {
    match attribute(element, name) {
        None => LookupView::NoValue,
        Some(value) => LookupView::Value(value),
    }
}

/// The elements of a document that match the selector `css`, in document
/// order; none where `css` is no selector.
pub open spec fn hits(dom: scraper::Html, css: Seq<char>) -> Seq<scraper::ElementRef<'static>> {
    match compiled(css) {
        None => Seq::empty(),
        Some(selector) => document_hits(dom, selector),
    }
}

/// The first descendant of an element that matches the selector `css`, if
/// there is one.
pub open spec fn first_hit(element: scraper::ElementRef, css: Seq<char>) -> Option<
    scraper::ElementRef<'static>,
> {
    match compiled(css) {
        None => None,
        Some(selector) => if element_hits(element, selector).len() == 0 {
            None
        } else {
            Some(element_hits(element, selector)[0])
        },
    }
}

/// What reading the attribute `name` from the first descendant that matches
/// `css` gives.
pub open spec fn attr_in(
    element: scraper::ElementRef,
    css: Seq<char>,
    name: Seq<char>,
) -> LookupView {
    match first_hit(element, css) {
        None => LookupView::NoElement,
        Some(hit) => attribute_lookup(hit, name),
    }
}

/// What reading the inner markup of the first descendant that matches `css`
/// gives.
pub open spec fn inner_in(element: scraper::ElementRef, css: Seq<char>) -> LookupView {
    match first_hit(element, css) {
        None => LookupView::NoElement,
        Some(hit) => LookupView::Value(inner_markup(hit)),
    }
}

/// The inner markup of every element of a document that matches `css`, in
/// document order.
pub open spec fn all_inner(dom: scraper::Html, css: Seq<char>) -> Seq<Seq<char>> {
    Seq::new(hits(dom, css).len(), |i: int| inner_markup(hits(dom, css)[i]))
}

/// What reading the inner markup of the first element of a document that
/// matches `css` gives.
pub open spec fn first_inner(dom: scraper::Html, css: Seq<char>) -> LookupView {
    if hits(dom, css).len() == 0 {
        LookupView::NoElement
    } else {
        LookupView::Value(inner_markup(hits(dom, css)[0]))
    }
}

/// What reading the attribute `name` of the first element of a document
/// that matches `css` gives.
pub open spec fn first_attr(dom: scraper::Html, css: Seq<char>, name: Seq<char>) -> LookupView {
    if hits(dom, css).len() == 0 {
        LookupView::NoElement
    } else {
        attribute_lookup(hits(dom, css)[0], name)
    }
}

/// What `read` gives for every element of a document that matches `css`,
/// in document order.
pub open spec fn each_hit<V>(
    dom: scraper::Html,
    css: Seq<char>,
    read: spec_fn(scraper::ElementRef<'static>) -> V,
) -> Seq<V> {
    Seq::new(hits(dom, css).len(), |i: int| read(hits(dom, css)[i]))
}

/// Reads the attribute `name` of `element`.
pub fn read_own_attr(element: &scraper::ElementRef, name: &str) -> (out: Lookup)
    ensures
        out@ == attribute_lookup(*element, name@),
{
    match element_attr(element, name) {
        None => Lookup::NoValue,
        Some(value) => Lookup::Value(value),
    }
}

/// The first descendant of `element` that matches `css`, if there is one.
pub fn first_match<'a>(element: &scraper::ElementRef<'a>, css: &str) -> (hit: Option<
    scraper::ElementRef<'a>,
>)
    ensures
        hit == first_hit(*element, css@),
{
    match compile_selector(css) {
        None => None,
        Some(selector) => {
            let mut found = element_matches(element, &selector);
            if found.len() == 0 {
                None
            } else {
                Some(found.swap_remove(0))
            }
        },
    }
}

/// Reads the attribute `name` from the first descendant of `element` that
/// matches `css`.
pub fn read_attr(element: &scraper::ElementRef, css: &str, name: &str) -> (out: Lookup)
    ensures
        out@ == attr_in(*element, css@, name@),
{
    match first_match(element, css) {
        None => Lookup::NoElement,
        Some(hit) => read_own_attr(&hit, name),
    }
}

/// Reads the inner markup of the first descendant of `element` that matches
/// `css`.
pub fn read_inner(element: &scraper::ElementRef, css: &str) -> (out: Lookup)
    ensures
        out@ == inner_in(*element, css@),
{
    match first_match(element, css) {
        None => Lookup::NoElement,
        Some(hit) => Lookup::Value(element_inner_html(&hit)),
    }
}

/// The elements of `dom` that match `css`, in document order; none where
/// `css` is no selector.
pub fn select_all<'a>(dom: &'a scraper::Html, css: &str) -> (found: Vec<scraper::ElementRef<'a>>)
    ensures
        found@ == hits(*dom, css@),
{
    match compile_selector(css) {
        None => Vec::new(),
        Some(selector) => document_matches(dom, &selector),
    }
}

/// Reads the inner markup of every element of `dom` that matches `css`, in
/// document order.
pub fn read_all_inner(dom: &scraper::Html, css: &str) -> (out: Vec<String>)
    ensures
        views(out@) == all_inner(*dom, css@),
{
    let found = select_all(dom, css);
    let mut out: Vec<String> = Vec::new();
    let mut i: usize = 0;
    while i < found.len()
        invariant
            i <= found.len(),
            found@ == hits(*dom, css@),
            out@.len() == i,
            forall|k: int| 0 <= k < i ==> (#[trigger] out@[k])@ == inner_markup(found@[k]),
        decreases found.len() - i,
    {
        out.push(element_inner_html(&found[i]));
        i += 1;
    }
    out
}

/// Reads the inner markup of the first element of `dom` that matches `css`.
pub fn read_first_inner(dom: &scraper::Html, css: &str) -> (out: Lookup)
    ensures
        out@ == first_inner(*dom, css@),
{
    let found = select_all(dom, css);
    if found.len() == 0 {
        Lookup::NoElement
    } else {
        Lookup::Value(element_inner_html(&found[0]))
    }
}

/// Reads the attribute `name` of the first element of `dom` that matches
/// `css`.
pub fn read_first_attr(dom: &scraper::Html, css: &str, name: &str) -> (out: Lookup)
    ensures
        out@ == first_attr(*dom, css@, name@),
{
    let found = select_all(dom, css);
    if found.len() == 0 {
        Lookup::NoElement
    } else {
        read_own_attr(&found[0], name)
    }
}

} // verus!
