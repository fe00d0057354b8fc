//! Per-page product extraction: from the raw tiles a page yields, keep the
//! tiles whose trimmed name and price are both non-empty, resolve each
//! tile's first anchor against the page URL (falling back to the page URL
//! itself), and emit one record per kept tile. A pure function of the page
//! body, the page URL and the matcher patterns.

use vstd::prelude::*;
use crate::html::TileView;
use crate::html::Tile;
use crate::html::tiles_of;
use crate::html::trimmed_of;
use crate::html::sel_ok;
use crate::html::scan_tiles;
use crate::html::selectors_ok;
use crate::html::trim_text;
use crate::urls::CrawlUrl;
use crate::urls::join_of;
use crate::urls::resolve;

verus! {

/// One extracted product: where it was found (or the page it was found on,
/// when its tile carries no resolvable link), its name, and its price, the
/// latter two trimmed and non-empty.
#[derive(Debug, Clone, PartialEq, Eq)]
pub struct Product {
    pub url: String,
    pub name: String,
    pub price: String,
}

/// A `Product` as a mathematical value.
pub struct ProductView {
    pub url: Seq<char>,
    pub name: Seq<char>,
    pub price: Seq<char>,
}

impl View for Product {
    type V = ProductView;

    open spec fn view(&self) -> ProductView {
        ProductView { url: self.url@, name: self.name@, price: self.price@ }
    }
}

/// The default matchers for product tiles. The matcher patterns are
/// configuration, not contract: target markup drifts, so callers may pass
/// their own.
pub fn default_tile_patterns() -> &'static str {
    "div[data-item-id], div[data-automation-id='productTile']"
}

/// The default matchers for a tile's name.
pub fn default_name_patterns() -> &'static str {
    "[data-automation-id='product-title'], a[aria-label], div[data-automation-id='product-title-link']"
}

/// The default matchers for a tile's price.
pub fn default_price_patterns() -> &'static str {
    "[data-automation-id='product-price'], span[aria-hidden='true'], div.price-main span"
}

/// The URL a tile's record carries: its first anchor's `href` resolved
/// against the page URL, and the page URL itself when there is no anchor or
/// resolution fails.
pub open spec fn resolved_product_url(href: Option<Seq<char>>, page_text: Seq<char>) -> Seq<char> {
    match href {
        Option::Some(h) => match join_of(page_text, h) {
            Option::Some(j) => j,
            Option::None => page_text,
        },
        Option::None => page_text,
    }
}

/// The record one tile yields: `None` when its trimmed name or trimmed price
/// is empty, the full record otherwise.
pub open spec fn record_of(t: TileView, page_text: Seq<char>) -> Option<ProductView> {
    let name = trimmed_of(t.name_text);
    let price = trimmed_of(t.price_text);
    if name.len() == 0 || price.len() == 0 {
        Option::None
    } else {
        Option::Some(
            ProductView { url: resolved_product_url(t.href, page_text), name, price },
        )
    }
}

/// The records a sequence of tiles yields, in order, tiles without a record
/// skipped.
pub open spec fn products_of(tiles: Seq<TileView>, page_text: Seq<char>) -> Seq<ProductView> {
    tiles.filter_map(|t: TileView| record_of(t, page_text))
}

/// What `extract` returns: the records of the page's tiles, and nothing at
/// all when one of the matcher patterns is not a valid selector group.
pub open spec fn extract_spec(
    body: Seq<char>,
    page_text: Seq<char>,
    tile_pat: Seq<char>,
    name_pat: Seq<char>,
    price_pat: Seq<char>,
) -> Seq<ProductView> {
    if sel_ok(tile_pat) && sel_ok(name_pat) && sel_ok(price_pat) {
        products_of(tiles_of(body, tile_pat, name_pat, price_pat), page_text)
    } else {
        Seq::empty()
    }
}

/// Law: every record extraction yields has a non-empty name and a non-empty
/// price; a tile missing either yields no record at all.
pub proof fn lemma_extract_fields_nonempty(
    body: Seq<char>,
    page_text: Seq<char>,
    tile_pat: Seq<char>,
    name_pat: Seq<char>,
    price_pat: Seq<char>,
    i: int,
)
    requires
        0 <= i < extract_spec(body, page_text, tile_pat, name_pat, price_pat).len(),
    ensures
        extract_spec(body, page_text, tile_pat, name_pat, price_pat)[i].name.len() > 0,
        extract_spec(body, page_text, tile_pat, name_pat, price_pat)[i].price.len() > 0,
{
    let recs = extract_spec(body, page_text, tile_pat, name_pat, price_pat);
    let rec = |t: TileView| record_of(t, page_text);
    let tiles = tiles_of(body, tile_pat, name_pat, price_pat);
    assert(recs == tiles.filter_map(rec));
    assert(recs.contains(recs[i]));
    tiles.lemma_filter_map_contains(rec, recs[i]);
}

/// Law: extraction is a pure function of the page body, the page URL and the
/// matcher patterns: two extractions from the same inputs yield the same
/// sequence of records.
pub proof fn lemma_extract_idempotent(
    r1: Seq<ProductView>,
    r2: Seq<ProductView>,
    body: Seq<char>,
    page_text: Seq<char>,
    tile_pat: Seq<char>,
    name_pat: Seq<char>,
    price_pat: Seq<char>,
)
    requires
        r1 == extract_spec(body, page_text, tile_pat, name_pat, price_pat),
        r2 == extract_spec(body, page_text, tile_pat, name_pat, price_pat),
    ensures
        r1 == r2,
{
}

/// The URL for one tile's record, as `resolved_product_url` gives it.
fn product_url(href: &Option<String>, page: &CrawlUrl) -> (r: String)
    ensures
        r@ == resolved_product_url(
            match href {
                Option::Some(h) => Option::Some(h@),
                Option::None => Option::None,
            },
            page.text@,
        ),
{
    match href {
        Option::Some(h) => match resolve(page, h.as_str()) {
            Option::Some(u) => u.text,
            Option::None => page.text.clone(),
        },
        Option::None => page.text.clone(),
    }
}

/// Extract the products of one page: parse `body` best-effort, find the
/// tiles matching `tile_pat`, take each tile's name (first match of
/// `name_pat`) and price (first match of `price_pat`), trim both, drop the
/// tile if either is empty, and resolve the tile's first anchor against
/// `page`. An invalid matcher pattern yields no records; malformed markup is
/// never an error.
pub fn extract(
    body: &str,
    page: &CrawlUrl,
    tile_pat: &str,
    name_pat: &str,
    price_pat: &str,
) -> (r: Vec<Product>)
    ensures
        r@.map_values(|p: Product| p@) == extract_spec(
            body@,
            page.text@,
            tile_pat@,
            name_pat@,
            price_pat@,
        ),
        forall|i: int|
            0 <= i < r@.len() ==> (#[trigger] r@[i])@.name.len() > 0 && r@[i]@.price.len() > 0,
{
    let mut out: Vec<Product> = Vec::new();
    if !selectors_ok(tile_pat, name_pat, price_pat) {
        assert(out@.map_values(|p: Product| p@) =~= Seq::<ProductView>::empty());
        return out;
    }
    let tiles = scan_tiles(body, tile_pat, name_pat, price_pat);
    let ghost tvs = tiles@.map_values(|t: Tile| t@);
    let ghost rec = |t: TileView| record_of(t, page.text@);
    let mut i: usize = 0;
    assert(tvs.take(0int).filter_map(rec) =~= Seq::<ProductView>::empty());
    while i < tiles.len()
        invariant
            i <= tiles.len(),
            tvs == tiles@.map_values(|t: Tile| t@),
            rec == (|t: TileView| record_of(t, page.text@)),
            out@.map_values(|p: Product| p@) == tvs.take(i as int).filter_map(rec),
            forall|k: int|
                0 <= k < out@.len() ==> (#[trigger] out@[k])@.name.len() > 0
                    && out@[k]@.price.len() > 0,
        decreases tiles.len() - i,
    {
        let t = &tiles[i];
        let name = trim_text(t.name_text.as_str());
        let price = trim_text(t.price_text.as_str());
        proof {
            tvs.lemma_filter_map_take_succ(rec, i as int);
            assert(tvs[i as int] == tiles@[i as int]@);
        }
        if !name.as_str().is_empty() && !price.as_str().is_empty() {
            let url = product_url(&t.href, page);
            out.push(Product { url, name, price });
            assert(out@.map_values(|p: Product| p@) =~= tvs.take(i as int + 1).filter_map(rec));
        } else {
            assert(out@.map_values(|p: Product| p@) =~= tvs.take(i as int + 1).filter_map(rec));
        }
        i = i + 1;
    }
    proof {
        assert(tvs.take(tiles@.len() as int) =~= tvs);
    }
    out
}

} // verus!
