//! Reading a fetched page: product tiles and anchor targets. The HTML
//! parsing and CSS-selector matching are done by the `scraper` crate behind
//! trusted wrappers; they hand the rest of the library plain values (the raw
//! text of each tile's fields and the `href` of each anchor), and the
//! verified code decides everything from those.

use vstd::prelude::*;
use scraper::Html;
use scraper::Selector;

verus! {

/// The raw material of one product tile, before any trimming or filtering:
/// the visible text of the first match of the name chain, of the first match
/// of the price chain (each empty when no matcher in the chain matched), and
/// the `href` of the first anchor inside the tile, if there is one.
pub struct Tile {
    pub name_text: String,
    pub price_text: String,
    pub href: Option<String>,
}

/// A `Tile` as a mathematical value.
pub struct TileView {
    pub name_text: Seq<char>,
    pub price_text: Seq<char>,
    pub href: Option<Seq<char>>,
}

impl View for Tile {
    type V = TileView;

    open spec fn view(&self) -> TileView {
        TileView {
            name_text: self.name_text@,
            price_text: self.price_text@,
            href: match self.href {
                Option::Some(h) => Option::Some(h@),
                Option::None => Option::None,
            },
        }
    }
}

/// Whether `scraper::Selector::parse` accepts a selector group.
pub uninterp spec fn sel_ok(pattern: Seq<char>) -> bool;

/// What scanning a page for product tiles yields: for each element of the
/// document of `body` that matches `tile_pat`, in document order, the raw
/// name text (first match of `name_pat`), raw price text (first match of
/// `price_pat`) and first anchor `href` inside it.
pub uninterp spec fn tiles_of(
    body: Seq<char>,
    tile_pat: Seq<char>,
    name_pat: Seq<char>,
    price_pat: Seq<char>,
) -> Seq<TileView>;

/// What scanning a page for anchors yields: the `href` attribute of every
/// anchor element of the document of `body` that has one, in document order.
pub uninterp spec fn anchor_hrefs_of(body: Seq<char>) -> Seq<Seq<char>>;

/// What `str::trim` yields: the text with leading and trailing Unicode
/// whitespace removed.
pub uninterp spec fn trimmed_of(s: Seq<char>) -> Seq<char>;

/// Relies on `scraper::Selector::parse`: reports whether it accepts each of
/// the three selector groups.
#[verifier::external_body]
pub(crate) fn selectors_ok(tile_pat: &str, name_pat: &str, price_pat: &str) -> (r: bool)
    ensures
        r == (sel_ok(tile_pat@) && sel_ok(name_pat@) && sel_ok(price_pat@)),
{
    scraper::Selector::parse(tile_pat).is_ok() && scraper::Selector::parse(name_pat).is_ok()
        && scraper::Selector::parse(price_pat).is_ok()
}

/// Relies on `scraper::Html::parse_document` (best-effort, it never fails),
/// on `scraper::Selector::parse` (the callers have checked that the three
/// patterns compile, and the selector `a` always does), and on selector
/// matching, `ElementRef::text` and `ElementRef::attr` to read each tile.
#[verifier::external_body]
pub(crate) fn scan_tiles(body: &str, tile_pat: &str, name_pat: &str, price_pat: &str) -> (r: Vec<
    Tile,
>)
    requires
        sel_ok(tile_pat@),
        sel_ok(name_pat@),
        sel_ok(price_pat@),
    ensures
        r@.map_values(|t: Tile| t@) == tiles_of(body@, tile_pat@, name_pat@, price_pat@),
{
    let doc = Html::parse_document(body);
    let ts = Selector::parse(tile_pat).unwrap();
    let ns = Selector::parse(name_pat).unwrap();
    let ps = Selector::parse(price_pat).unwrap();
    let link = Selector::parse("a").unwrap();
    doc.select(&ts).map(|t| Tile {
        name_text: t.select(&ns).next().map(|e| e.text().collect()).unwrap_or_default(),
        price_text: t.select(&ps).next().map(|e| e.text().collect()).unwrap_or_default(),
        href: t.select(&link).next().and_then(|a| a.attr("href")).map(|h| h.to_owned()),
    }).collect()
}

/// Relies on `scraper::Html::parse_document` (best-effort, it never fails),
/// on `scraper::Selector::parse` of the selector `a` (which always
/// compiles), and on `ElementRef::attr` to read each anchor's `href`.
#[verifier::external_body]
pub(crate) fn scan_hrefs(body: &str) -> (r: Vec<String>)
    ensures
        r@.map_values(|s: String| s@) == anchor_hrefs_of(body@),
{
    let doc = Html::parse_document(body);
    let link = Selector::parse("a").unwrap();
    doc.select(&link).filter_map(|a| a.attr("href").map(|h| h.to_owned())).collect()
}

/// Relies on `str::trim`: the result depends on the characters alone.
#[verifier::external_body]
pub(crate) fn trim_text(s: &str) -> (r: String)
    ensures
        r@ == trimmed_of(s@),
{
    s.trim().to_owned()
}

} // verus!
