//! How the crawl names the elements of a page.

use vstd::prelude::*;
use vstd::string::StringExecFns;

use crate::text::from_chars;
use crate::text::push_str;

verus! {

/// A way to find elements in the page that the browser shows.
#[derive(Debug, Clone, PartialEq, Eq)]
pub enum Locator {
    /// The element with this `id` attribute.
    Id(String),
    /// The elements that this XPath expression selects.
    XPath(String),
    /// The elements that this CSS selector matches.
    Css(String),
}

/// What a locator says, with its text as characters.
pub enum LocatorView {
    Id(Seq<char>),
    XPath(Seq<char>),
    Css(Seq<char>),
}

impl View for Locator {
    type V = LocatorView;

    open spec fn view(&self) -> LocatorView {
        match self {
            Locator::Id(text) => LocatorView::Id(text@),
            Locator::XPath(text) => LocatorView::XPath(text@),
            Locator::Css(text) => LocatorView::Css(text@),
        }
    }
}

/// One cell of a page: the match number `index` (from 0) of `locator`.
#[derive(Debug, Clone, PartialEq, Eq)]
pub struct CellQuery {
    pub locator: Locator,
    pub index: usize,
}

impl View for CellQuery {
    type V = (LocatorView, usize);

    open spec fn view(&self) -> (LocatorView, usize) {
        (self.locator@, self.index)
    }
}

/// `before`, `middle` and `after` in one text.
pub fn join3(before: &str, middle: &str, after: &str) -> (joined: String)
    ensures
        joined@ == before@ + middle@ + after@,
{
    let mut out: Vec<char> = Vec::new();
    push_str(&mut out, before);
    push_str(&mut out, middle);
    push_str(&mut out, after);
    assert(out@.subrange(0, out.len() as int) == out@);
    from_chars(&out, 0, out.len())
}

/// The locator of the element whose `id` is `id`.
pub fn by_id(id: &str) -> (locator: Locator)
    ensures
        locator@ == LocatorView::Id(id@),
{
    Locator::Id(String::from_str(id))
}

/// The locator for the XPath expression `path`.
pub fn by_xpath(path: &str) -> (locator: Locator)
    ensures
        locator@ == LocatorView::XPath(path@),
{
    Locator::XPath(String::from_str(path))
}

/// The locator for the CSS selector `selector`.
pub fn by_css(selector: &str) -> (locator: Locator)
    ensures
        locator@ == LocatorView::Css(selector@),
{
    Locator::Css(String::from_str(selector))
}

/// The XPath locator whose text is `before`, `key` and `after` in a row.
pub fn xpath_around(before: &str, key: &str, after: &str) -> (locator: Locator)
    ensures
        locator@ == LocatorView::XPath(before@ + key@ + after@),
{
    Locator::XPath(join3(before, key, after))
}

} // verus!
