//! Absolute URLs as plain values: parsing, reference resolution, and the
//! domain that scopes a crawl. The parsing itself is done by the `url`
//! crate behind trusted wrappers; everything downstream works on the
//! normalized text and the domain they hand back.

use vstd::prelude::*;

verus! {

/// What `url::Url::parse` yields for a string: the normalized serialization
/// of the absolute URL it denotes, or `None` when the string does not parse
/// as an absolute URL.
pub uninterp spec fn parsed_of(s: Seq<char>) -> Option<Seq<char>>;

/// What `url::Url::domain` yields for an absolute URL, given by its
/// normalized serialization: the domain name of its host, or `None` when the
/// URL has no domain (no host at all, as with `mailto:`, or an IP-address
/// host).
pub uninterp spec fn domain_of(u: Seq<char>) -> Option<Seq<char>>;

/// What `url::Url::join` yields: the normalized serialization of `href`
/// resolved against the absolute URL whose serialization is `base`, or
/// `None` when `base` is not an absolute URL or resolution fails.
pub uninterp spec fn join_of(base: Seq<char>, href: Seq<char>) -> Option<Seq<char>>;

/// An absolute URL: its normalized text, and the domain of its host if it
/// has one. Values come from `parse_url` and `resolve`.
pub struct CrawlUrl {
    pub text: String,
    pub domain: Option<String>,
}

impl CrawlUrl {
    /// The domain as a mathematical value.
    pub open spec fn domain_view(&self) -> Option<Seq<char>> {
        match self.domain {
            Option::Some(d) => Option::Some(d@),
            Option::None => Option::None,
        }
    }

    /// The stored domain is exactly the domain of the stored text.
    pub open spec fn wf(&self) -> bool {
        self.domain_view() == domain_of(self.text@)
    }

    /// The URL's normalized text.
    pub fn as_str(&self) -> (r: &str)
        ensures
            r@ == self.text@,
    {
        self.text.as_str()
    }
}

/// Relies on `url::Url::parse` to parse and normalize an absolute URL, and
/// on `url::Url::as_str` and `url::Url::domain` to read the result back as
/// plain values.
#[verifier::external_body]
fn parse_abs(s: &str) -> (r: Option<CrawlUrl>)
    ensures
        r is Some <==> parsed_of(s@) is Some,
        r matches Some(u) ==> Some(u.text@) == parsed_of(s@) && u.domain_view()
            == domain_of(u.text@),
{
    match url::Url::parse(s) {
        Ok(u) => Some(CrawlUrl {
            domain: u.domain().map(|d| d.to_owned()),
            text: u.as_str().to_owned(),
        }),
        Err(_) => None,
    }
}

/// Relies on `url::Url::join` to resolve a reference against a base URL, on
/// a URL's serialization parsing back to the same URL, and on
/// `url::Url::as_str` and `url::Url::domain` to read the result.
#[verifier::external_body]
fn join_abs(base: &CrawlUrl, href: &str) -> (r: Option<CrawlUrl>)
    ensures
        r is Some <==> join_of(base.text@, href@) is Some,
        r matches Some(u) ==> Some(u.text@) == join_of(base.text@, href@)
            && u.domain_view() == domain_of(u.text@),
{
    let b = match url::Url::parse(&base.text) {
        Ok(b) => b,
        Err(_) => return None,
    };
    match b.join(href) {
        Ok(u) => Some(CrawlUrl {
            domain: u.domain().map(|d| d.to_owned()),
            text: u.as_str().to_owned(),
        }),
        Err(_) => None,
    }
}

/// Parse a string as an absolute URL; `None` exactly when it is not one.
pub fn parse_url(s: &str) -> (r: Option<CrawlUrl>)
    ensures
        r is Some <==> parsed_of(s@) is Some,
        r matches Some(u) ==> Some(u.text@) == parsed_of(s@) && u.wf(),
{
    parse_abs(s)
}

/// Resolve a reference against a base URL; `None` exactly when resolution
/// fails.
pub fn resolve(base: &CrawlUrl, href: &str) -> (r: Option<CrawlUrl>)
    ensures
        r is Some <==> join_of(base.text@, href@) is Some,
        r matches Some(u) ==> Some(u.text@) == join_of(base.text@, href@) && u.wf(),
{
    join_abs(base, href)
}

} // verus!
