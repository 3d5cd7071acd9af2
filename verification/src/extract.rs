//! The document attribute extractor: given raw HTML text, a CSS selector and
//! an attribute descriptor, parse the document, find the first element in
//! document order that matches the selector, and read the named attribute
//! from it.
//!
//! Parsing, selector compilation and matching are delegated to the `scraper`
//! crate; each is deterministic in its textual inputs, so their outcomes are
//! named by uninterpreted spec functions and the extractor's contract is
//! stated over those names.

use vstd::prelude::*;

verus! {

/// Which attribute of the matching element to read: the literal names
/// `"value"` and `"content"`, or an arbitrary caller-supplied name.
pub enum Attr<'a> {
    Value,
    Content,
    Custom(&'a str),
}

impl<'a> Attr<'a> {
    /// The literal attribute name this descriptor resolves to.
    pub open spec fn spec_name(&self) -> Seq<char> {
        match self {
            Attr::Value => "value"@,
            Attr::Content => "content"@,
            Attr::Custom(s) => s@,
        }
    }

    /// Resolve the descriptor to the attribute name it stands for.
    pub fn as_str(&self) -> (r: &str)
        ensures
            r@ == self.spec_name(),
    {
        match self {
            Attr::Value => "value",
            Attr::Content => "content",
            Attr::Custom(s) => s,
        }
    }
}

/// Declares scraper's parsed-document type; its values are opaque here.
#[verifier::external_type_specification]
#[verifier::external_body]
pub struct ExHtml(scraper::Html);

/// Declares scraper's compiled-selector type; its values are opaque here.
#[verifier::external_type_specification]
#[verifier::external_body]
pub struct ExSelector(scraper::Selector);

/// Whether a CSS selector string is syntactically valid, that is, whether
/// compiling it succeeds. Compilation is a pure function of the string.
pub uninterp spec fn selector_compiles(selector: Seq<char>) -> bool;

/// Whether the document parsed from `doc` contains at least one element
/// matching the compiled form of `selector`. A pure function of the two
/// strings.
pub uninterp spec fn has_match(doc: Seq<char>, selector: Seq<char>) -> bool;

/// The value of attribute `attr` on the first element, in document order, of
/// the document parsed from `doc` that matches the compiled form of
/// `selector`; `None` when no element matches or the attribute is absent.
/// A pure function of the three strings.
pub uninterp spec fn first_match_attr(doc: Seq<char>, selector: Seq<char>, attr: Seq<char>) -> Option<
    Seq<char>,
>;

/// A parsed HTML document, remembering the text it was parsed from.
struct Document {
    inner: scraper::Html,
    source: String,
}

impl View for Document {
    type V = Seq<char>;

    /// The text this document was parsed from.
    closed spec fn view(&self) -> Seq<char> {
        self.source@
    }
}

impl Document {
    /// Relies on scraper::Html::parse_document: parsing recovers from
    /// malformed markup and never fails, so every text yields a document.
    #[verifier::external_body]
    fn parse(body: &str) -> (d: Document)
        ensures
            d@ == body@,
    {
        Document { inner: scraper::Html::parse_document(body), source: body.to_string() }
    }
}

/// A compiled CSS selector, remembering the text it was compiled from.
struct CompiledSelector {
    inner: scraper::Selector,
    source: String,
}

impl View for CompiledSelector {
    type V = Seq<char>;

    /// The text this selector was compiled from.
    closed spec fn view(&self) -> Seq<char> {
        self.source@
    }
}

impl CompiledSelector {
    /// Relies on scraper::Selector::parse: compiling a selector group
    /// succeeds or fails by the string's syntax alone.
    #[verifier::external_body]
    fn parse(selector: &str) -> (r: Option<CompiledSelector>)
        ensures
            r is Some <==> selector_compiles(selector@),
            r matches Some(c) ==> c@ == selector@,
    {
        match scraper::Selector::parse(selector) {
            Ok(inner) => Some(CompiledSelector { inner, source: selector.to_string() }),
            Err(_) => None,
        }
    }
}

/// Relies on scraper's Html::select, Select::next and ElementRef::attr: the
/// iterator yields exactly the elements matching the selector, in document
/// order, and attr reads the named attribute of an element.
#[verifier::external_body]
fn first_matching_attr(doc: &Document, selector: &CompiledSelector, attr_name: &str) -> (r: Option<
    String,
>)
    ensures
        r.deep_view() == first_match_attr(doc@, selector@, attr_name@),
        r is Some ==> has_match(doc@, selector@),
{
    doc.inner.select(&selector.inner).next().and_then(
        |element| element.value().attr(attr_name),
    ).map(|value| value.to_string())
}

/// What extraction yields for a given document text, selector string and
/// attribute name: an invalid selector is indistinguishable from "no match
/// found", and both yield `None`.
pub open spec fn spec_select(doc: Seq<char>, selector: Seq<char>, attr: Seq<char>) -> Option<
    Seq<char>,
> {
    if selector_compiles(selector) {
        first_match_attr(doc, selector, attr)
    } else {
        None
    }
}

/// Parse `body` into a document; compile `selector`; return the attribute
/// named by `attr` of the first element matching the selector, if any.
/// An invalid selector, an absent match and an absent attribute all yield
/// `None`; the result is a pure function of the inputs.
pub fn select_on_document<'a>(body: &str, selector: &str, attr: Attr<'a>) -> (r: Option<String>)
    ensures
        r.deep_view() == spec_select(body@, selector@, attr.spec_name()),
        !selector_compiles(selector@) ==> r is None,
        r is Some ==> has_match(body@, selector@),
{
    let doc = Document::parse(body);
    let compiled = match CompiledSelector::parse(selector) {
        Some(c) => c,
        None => {
            return None;
        },
    };
    first_matching_attr(&doc, &compiled, attr.as_str())
}

/// A syntactically invalid selector yields no value, whatever the document
/// and whatever the attribute.
pub proof fn lemma_invalid_selector_yields_none(
    doc: Seq<char>,
    selector: Seq<char>,
    attr: Seq<char>,
)
    requires
        !selector_compiles(selector),
    ensures
        spec_select(doc, selector, attr) is None,
{
}

/// Extraction is deterministic: any two results that the extraction contract
/// admits for the same document, selector and attribute are equal, so calling
/// the extractor twice on identical inputs yields identical outputs.
pub proof fn lemma_select_deterministic(
    doc: Seq<char>,
    selector: Seq<char>,
    attr: Seq<char>,
    r1: Option<Seq<char>>,
    r2: Option<Seq<char>>,
)
    requires
        r1 == spec_select(doc, selector, attr),
        r2 == spec_select(doc, selector, attr),
    ensures
        r1 == r2,
{
}

} // verus!
