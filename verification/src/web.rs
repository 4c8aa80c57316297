//! Addresses and HTML listings, as the `url` and `scraper` crates read them.
use vstd::prelude::*;

verus! {

/// What a parsed address exposes: its serialization, the ASCII serialization of
/// its origin, and its path segments (`None` for an address that cannot be a base).
pub struct UrlParts {
    pub href: Seq<char>,
    pub origin: Seq<char>,
    pub path_segments: Option<Seq<Seq<char>>>,
}

/// The outcome of `url::Url::parse` on `input`: the parts of the address, or the
/// text of the parse error.
pub uninterp spec fn url_parse(input: Seq<char>) -> Result<UrlParts, Seq<char>>;

/// The outcome of `scraper::Selector::parse` on `source`: `None` when it parses,
/// else the text of the error.
pub uninterp spec fn selector_parse_error(source: Seq<char>) -> Option<Seq<char>>;

/// For the document `html`, for each element matched by the selector
/// `tree_path`, in `scraper`'s order: each element matched by `sub_path` below
/// it, in order, taken to the value of its `href` attribute, if it has one.
pub uninterp spec fn html_href_groups(
    html: Seq<char>,
    tree_path: Seq<char>,
    sub_path: Seq<char>,
) -> Seq<Seq<Option<Seq<char>>>>;

/// An address that `url::Url::parse` accepted, kept as plain values.
#[derive(Debug)]
pub struct ParsedUrl {
    href: String,
    origin: String,
    path_segments: Option<Vec<String>>,
}

impl View for ParsedUrl {
    type V = UrlParts;

    closed spec fn view(&self) -> UrlParts {
        UrlParts {
            href: self.href@,
            origin: self.origin@,
            path_segments: self.path_segments.deep_view(),
        }
    }
}

impl ParsedUrl {
    /// The serialization of the address.
    pub fn href(&self) -> (r: &str)
        ensures
            r@ == self@.href,
    {
        self.href.as_str()
    }

    /// The ASCII serialization of the address's origin.
    pub fn origin(&self) -> (r: &str)
        ensures
            r@ == self@.origin,
    {
        self.origin.as_str()
    }

    /// Parses an address; the outcome is the named `url_parse` of the input.
    pub fn parse(input: &str) -> (r: Result<ParsedUrl, String>)
        ensures
            parse_outcome(r) == url_parse(input@),
    {
        parse_url(input)
    }

    /// The path segments of the address, `None` when it cannot be a base.
    pub fn path_segments(&self) -> (r: &Option<Vec<String>>)
        ensures
            r.deep_view() == self@.path_segments,
    {
        &self.path_segments
    }
}

/// The outcome of a parse, as plain values.
pub open spec fn parse_outcome(r: Result<ParsedUrl, String>) -> Result<UrlParts, Seq<char>> {
    match r {
        Ok(u) => Ok(u@),
        Err(e) => Err(e@),
    }
}

/// Calls `url::Url::parse` and reads the accepted address's `as_str`, its
/// `origin().ascii_serialization()` and its `path_segments`, or the `Display`
/// text of the `ParseError`. The contract claims that the outcome is the named
/// `url_parse` of the input, which depends on the input alone.
#[verifier::external_body]
pub(crate) fn parse_url(input: &str) -> (r: Result<ParsedUrl, String>)
    ensures
        r is Ok ==> url_parse(input@) == Ok::<UrlParts, Seq<char>>(r->Ok_0@),
        r is Err ==> url_parse(input@) == Err::<UrlParts, Seq<char>>(r->Err_0@),
{
    match url::Url::parse(input) {
        Ok(u) => Ok(ParsedUrl {
            href: u.as_str().to_string(),
            origin: u.origin().ascii_serialization(),
            path_segments: u.path_segments().map(|s| s.map(|p| p.to_string()).collect()),
        }),
        Err(e) => Err(e.to_string()),
    }
}

/// Calls `scraper::Selector::parse` on `source` and keeps only whether it
/// succeeded, with the `Display` text of the `SelectorErrorKind` when it did not.
/// The contract claims that this is the named `selector_parse_error` of the source.
#[verifier::external_body]
pub(crate) fn check_selector(source: &str) -> (r: Option<String>)
    ensures
        r is Some ==> selector_parse_error(source@) == Some(r->Some_0@),
        r is None ==> selector_parse_error(source@) is None,
{
    match scraper::Selector::parse(source) {
        Ok(_) => None,
        Err(e) => Some(e.to_string()),
    }
}

/// Parses the two selectors with `scraper::Selector::parse` (which the
/// `requires` guarantees to succeed), parses `html` with
/// `scraper::Html::parse_document`, and for each element that `Html::select`
/// finds for `tree_path` lists, for each element that `ElementRef::select`
/// finds below it for `sub_path`, what `attr("href")` reads. The contract
/// claims that the result is the named `html_href_groups` of the three
/// strings; what that is, `scraper` decides and nothing here states.
#[verifier::external_body]
pub(crate) fn select_href_groups(html: &str, tree_path: &str, sub_path: &str) -> (r: Vec<
    Vec<Option<String>>,
>)
    requires
        selector_parse_error(tree_path@) is None,
        selector_parse_error(sub_path@) is None,
    ensures
        r.deep_view() == html_href_groups(html@, tree_path@, sub_path@),
{
    let tree = scraper::Selector::parse(tree_path).unwrap();
    let sub = scraper::Selector::parse(sub_path).unwrap();
    let document = scraper::Html::parse_document(html);
    document
        .select(&tree)
        .map(|element| element.select(&sub).map(|found| found.value().attr("href").map(|h| h.to_string())).collect())
        .collect()
}

} // verus!
