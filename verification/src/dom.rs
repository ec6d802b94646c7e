//! The HTML tree as `scraper` parses and queries it. Everything here is
//! believed, not proved: each function hands one query to `scraper` and gives
//! the answer back as it came.

use scraper::ElementRef;
use scraper::Html;
use scraper::Node;
use scraper::Selector;
use vstd::prelude::*;

verus! {

/// A parsed document: `scraper::Html`.
#[verifier::external_type_specification]
#[verifier::external_body]
pub struct ExHtml(Html);

/// One element of a parsed document: `scraper::ElementRef`.
#[verifier::external_type_specification]
#[verifier::external_body]
pub struct ExElementRef<'a>(ElementRef<'a>);

/// A compiled CSS selector group: `scraper::Selector`.
#[verifier::external_type_specification]
#[verifier::external_body]
pub struct ExSelector(Selector);

/// A child of an element, as far as the extractors tell children apart.
pub enum ChildNode<'a> {
    /// An element.
    Element(ElementRef<'a>),
    /// A run of text.
    Text(String),
    /// A comment or anything else that carries no text.
    Other,
}

/// A `ChildNode` with its text as a sequence of characters.
pub ghost enum ChildShape {
    Element(ElementRef<'static>),
    Text(Seq<char>),
    Other,
}

impl<'a> View for ChildNode<'a> {
    type V = ChildShape;

    open spec fn view(&self) -> ChildShape {
        match *self {
            ChildNode::Element(e) => ChildShape::Element(e),
            ChildNode::Text(t) => ChildShape::Text(t@),
            ChildNode::Other => ChildShape::Other,
        }
    }
}

/// The tree that `Html::parse_document` builds from `text`.
pub uninterp spec fn document_tree(text: Seq<char>) -> Html;

/// The selector that `Selector::parse` compiles from `css`, or `None` where
/// it reports an error.
pub uninterp spec fn compiled_selector(css: Seq<char>) -> Option<Selector>;

/// The elements of `document` that match `selector`, in document order, as
/// `Html::select` yields them.
pub uninterp spec fn document_matches(document: Html, selector: Selector) -> Seq<
    ElementRef<'static>,
>;

/// The descendants of `element` that match `selector`, in document order, as
/// `ElementRef::select` yields them.
pub uninterp spec fn element_matches(element: ElementRef, selector: Selector) -> Seq<
    ElementRef<'static>,
>;

/// The text nodes below `element`, joined in document order: what
/// `ElementRef::text` yields, collected.
pub uninterp spec fn element_text(element: ElementRef) -> Seq<char>;

/// The markup of `element`, itself included: `ElementRef::html`.
pub uninterp spec fn element_markup(element: ElementRef) -> Seq<char>;

/// The value of the attribute `name` of `element`: `ElementRef::attr`.
pub uninterp spec fn element_attr(element: ElementRef, name: Seq<char>) -> Option<Seq<char>>;

/// The tag name of `element`: `Element::name`.
pub uninterp spec fn element_name(element: ElementRef) -> Seq<char>;

/// The children of `element` in document order: `NodeRef::children`.
pub uninterp spec fn element_children(element: ElementRef) -> Seq<ChildShape>;

/// `Html::parse_document`: never fails, and builds its tree from the text
/// alone.
#[verifier::external_body]
pub(crate) fn parse_document(text: &str) -> (r: Html)
    ensures
        r == document_tree(text@),
{
    Html::parse_document(text)
}

/// `Selector::parse`: a selector or an error, by the text alone. The error
/// borrows from the text and is dropped here.
#[verifier::external_body]
pub(crate) fn compile_selector(css: &str) -> (r: Option<Selector>)
    ensures
        r == compiled_selector(css@),
{
    Selector::parse(css).ok()
}

/// `Html::select`, collected.
#[verifier::external_body]
pub(crate) fn select_in_document<'a>(document: &'a Html, selector: &Selector) -> (r: Vec<
    ElementRef<'a>,
>)
    ensures
        r@ == document_matches(*document, *selector),
{
    document.select(selector).collect()
}

/// `ElementRef::select`, collected.
#[verifier::external_body]
pub(crate) fn select_in_element<'a>(element: ElementRef<'a>, selector: &Selector) -> (r: Vec<
    ElementRef<'a>,
>)
    ensures
        r@ == element_matches(element, *selector),
{
    element.select(selector).collect()
}

/// `ElementRef::text`, collected into one string.
#[verifier::external_body]
pub(crate) fn text_of(element: ElementRef) -> (r: String)
    ensures
        r@ == element_text(element),
{
    element.text().collect()
}

/// `ElementRef::html`.
#[verifier::external_body]
pub(crate) fn markup_of(element: ElementRef) -> (r: String)
    ensures
        r@ == element_markup(element),
{
    element.html()
}

/// `ElementRef::attr`, the value copied.
#[verifier::external_body]
pub(crate) fn attr_of(element: ElementRef, name: &str) -> (r: Option<String>)
    ensures
        r.is_some() == element_attr(element, name@).is_some(),
        r matches Some(value) ==> Some(value@) == element_attr(element, name@),
{
    element.attr(name).map(|value| value.to_owned())
}

/// `Element::name` of `ElementRef::value`, copied.
#[verifier::external_body]
pub(crate) fn name_of(element: ElementRef) -> (r: String)
    ensures
        r@ == element_name(element),
{
    element.value().name().to_owned()
}

/// `NodeRef::children`, each child told apart by `ElementRef::wrap` and
/// `Node::Text`.
#[verifier::external_body]
pub(crate) fn children_of<'a>(element: ElementRef<'a>) -> (r: Vec<ChildNode<'a>>)
    ensures
        r@.len() == element_children(element).len(),
        forall|i: int| 0 <= i < r@.len() ==> (#[trigger] r@[i])@ == element_children(element)[i],
{
    element.children().map(
        |child|
            match ElementRef::wrap(child) {
                Some(e) => ChildNode::Element(e),
                None => match child.value() {
                    Node::Text(t) => ChildNode::Text(t.text.to_string()),
                    _ => ChildNode::Other,
                },
            },
    ).collect()
}

} // verus!
