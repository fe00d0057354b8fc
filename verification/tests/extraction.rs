use product_crawler::extract::default_name_patterns;
use product_crawler::extract::default_price_patterns;
use product_crawler::extract::default_tile_patterns;
use product_crawler::extract::extract;
use product_crawler::urls::parse_url;

fn shop_page_body() -> String {
    let mut b = String::new();
    b.push_str("<html><body>");
    b.push_str("<div data-item-id=\"1\">");
    b.push_str("<a href=\"/item/1\"><span data-automation-id=\"product-title\">Widget</span></a>");
    b.push_str("<span data-automation-id=\"product-price\">$9.99</span>");
    b.push_str("</div>");
    b.push_str("<div data-item-id=\"2\">");
    b.push_str("<span data-automation-id=\"product-title\">NoPrice</span>");
    b.push_str("</div>");
    b.push_str("<div data-item-id=\"3\">");
    b.push_str("<span data-automation-id=\"product-title\">  Gadget  </span>");
    b.push_str("<span data-automation-id=\"product-price\"> $5 </span>");
    b.push_str("</div>");
    b.push_str("</body></html>");
    b
}

#[test]
fn extracts_complete_tiles_only() {
    let page = parse_url("https://shop.example.com/cat").unwrap();
    let body = shop_page_body();
    let records = extract(
        &body,
        &page,
        default_tile_patterns(),
        default_name_patterns(),
        default_price_patterns(),
    );
    assert_eq!(records.len(), 2);
    assert_eq!(records[0].url, "https://shop.example.com/item/1");
    assert_eq!(records[0].name, "Widget");
    assert_eq!(records[0].price, "$9.99");
    // No anchor in the tile: the record falls back to the page URL.
    assert_eq!(records[1].url, "https://shop.example.com/cat");
    assert_eq!(records[1].name, "Gadget");
    assert_eq!(records[1].price, "$5");
}

#[test]
fn every_record_has_nonempty_fields() {
    let page = parse_url("https://shop.example.com/cat").unwrap();
    let body = shop_page_body();
    let records = extract(
        &body,
        &page,
        default_tile_patterns(),
        default_name_patterns(),
        default_price_patterns(),
    );
    for r in &records {
        assert!(!r.name.is_empty());
        assert!(!r.price.is_empty());
    }
}

#[test]
fn extraction_is_idempotent() {
    let page = parse_url("https://shop.example.com/cat").unwrap();
    let body = shop_page_body();
    let first = extract(
        &body,
        &page,
        default_tile_patterns(),
        default_name_patterns(),
        default_price_patterns(),
    );
    let second = extract(
        &body,
        &page,
        default_tile_patterns(),
        default_name_patterns(),
        default_price_patterns(),
    );
    assert_eq!(first, second);
}

#[test]
fn tolerates_malformed_markup() {
    let page = parse_url("https://shop.example.com/cat").unwrap();
    let body = "<div data-item-id=1><<<span data-automation-id='product-title'>Torn<div></a></p>";
    let records = extract(
        body,
        &page,
        default_tile_patterns(),
        default_name_patterns(),
        default_price_patterns(),
    );
    for r in &records {
        assert!(!r.name.is_empty());
        assert!(!r.price.is_empty());
    }
}

#[test]
fn malformed_tile_with_fields_still_extracts() {
    let page = parse_url("https://shop.example.com/cat").unwrap();
    // Unbalanced tags around a tile that still carries a name and a price.
    let body = "<p><div data-item-id=\"7\"><span data-automation-id=\"product-title\">Bolt\
                <span data-automation-id=\"product-price\">$1</span></div>";
    let records = extract(
        body,
        &page,
        default_tile_patterns(),
        default_name_patterns(),
        default_price_patterns(),
    );
    assert_eq!(records.len(), 1);
    assert_eq!(records[0].price, "$1");
}

#[test]
fn invalid_pattern_yields_no_records() {
    let page = parse_url("https://shop.example.com/cat").unwrap();
    let body = shop_page_body();
    let records = extract(&body, &page, "[[[", default_name_patterns(), default_price_patterns());
    assert_eq!(records.len(), 0);
}

#[test]
fn empty_body_yields_no_records() {
    let page = parse_url("https://shop.example.com/cat").unwrap();
    let records = extract(
        "",
        &page,
        default_tile_patterns(),
        default_name_patterns(),
        default_price_patterns(),
    );
    assert_eq!(records.len(), 0);
}
