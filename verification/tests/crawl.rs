use product_crawler::crawler::ConfigError;
use product_crawler::crawler::Crawler;
use product_crawler::extract::default_name_patterns;
use product_crawler::extract::default_price_patterns;
use product_crawler::extract::default_tile_patterns;

fn new_crawler(start: &str, max_pages: usize) -> Result<Crawler, ConfigError> {
    Crawler::new(
        start,
        max_pages,
        default_tile_patterns(),
        default_name_patterns(),
        default_price_patterns(),
    )
}

#[test]
fn invalid_start_url_is_fatal() {
    assert_eq!(new_crawler("not a url", 20).err(), Some(ConfigError::InvalidStartUrl));
}

#[test]
fn invalid_pattern_is_fatal() {
    let r = Crawler::new(
        "https://shop.example.com/",
        20,
        "[[[",
        default_name_patterns(),
        default_price_patterns(),
    );
    assert_eq!(r.err(), Some(ConfigError::InvalidPattern));
}

#[test]
fn single_page_without_links_visits_exactly_one() {
    let mut c = new_crawler("https://shop.example.com/", 20).unwrap();
    let u = c.next_url().expect("the start URL must be yielded");
    assert_eq!(u.as_str(), "https://shop.example.com/");
    let records = c.process_page("<html><body><p>empty shop</p></body></html>", &u);
    assert_eq!(records.len(), 0);
    assert_eq!(c.frontier_len(), 0);
    assert!(c.next_url().is_none());
    assert_eq!(c.pages_visited(), 1);
}

#[test]
fn cap_stops_crawl_before_draining_queue() {
    let mut c = new_crawler("https://shop.example.com/", 1).unwrap();
    let u = c.next_url().unwrap();
    let mut body = String::from("<html><body>");
    for i in 0..10 {
        body.push_str(&format!("<a href=\"/p{i}\">p{i}</a>"));
    }
    body.push_str("</body></html>");
    c.process_page(&body, &u);
    assert_eq!(c.frontier_len(), 10);
    assert!(c.next_url().is_none(), "the cap must stop the crawl");
    assert_eq!(c.pages_visited(), 1);
    assert_eq!(c.frontier_len(), 10, "the queue is not drained when the cap stops the crawl");
}

#[test]
fn cross_domain_and_domainless_links_are_dropped() {
    let mut c = new_crawler("https://shop.example.com/", 20).unwrap();
    let u = c.next_url().unwrap();
    let body = "<html><body>\
        <a href=\"https://other.example.com/x\">other</a>\
        <a href=\"https://shop.example.com/y\">kept</a>\
        <a href=\"mailto:someone@example.com\">mail</a>\
        <a href=\"/z\">kept too</a>\
        <a>no href</a>\
        </body></html>";
    c.process_page(body, &u);
    assert_eq!(c.frontier_len(), 2);
    let first = c.next_url().unwrap();
    assert_eq!(first.as_str(), "https://shop.example.com/y");
    let second = c.next_url().unwrap();
    assert_eq!(second.as_str(), "https://shop.example.com/z");
    assert!(c.next_url().is_none());
}

#[test]
fn visited_urls_are_never_yielded_twice() {
    let mut c = new_crawler("https://shop.example.com/", 20).unwrap();
    let u = c.next_url().unwrap();
    // Two links to one unvisited page, and one back to the visited start.
    let body = "<html><body>\
        <a href=\"/a\">a</a>\
        <a href=\"/a\">a again</a>\
        <a href=\"https://shop.example.com/\">start</a>\
        </body></html>";
    c.process_page(body, &u);
    assert_eq!(c.frontier_len(), 2, "a link back to a visited page is not enqueued");
    let a = c.next_url().unwrap();
    assert_eq!(a.as_str(), "https://shop.example.com/a");
    c.process_page("<html><body></body></html>", &a);
    assert!(c.next_url().is_none(), "the duplicate of a visited URL is skipped");
    assert_eq!(c.pages_visited(), 2);
}

#[test]
fn crawl_extracts_products_page_by_page() {
    let mut c = new_crawler("https://shop.example.com/", 2).unwrap();
    let u = c.next_url().unwrap();
    let body = "<html><body>\
        <div data-item-id=\"1\">\
        <a href=\"/item/1\"><span data-automation-id=\"product-title\">Widget</span></a>\
        <span data-automation-id=\"product-price\">$9.99</span>\
        </div>\
        <a href=\"/more\">more</a>\
        </body></html>";
    let records = c.process_page(body, &u);
    assert_eq!(records.len(), 1);
    assert_eq!(records[0].name, "Widget");
    assert_eq!(records[0].price, "$9.99");
    assert_eq!(records[0].url, "https://shop.example.com/item/1");
    // The product anchor is an in-domain link too, so it is discovered first.
    let item = c.next_url().unwrap();
    assert_eq!(item.as_str(), "https://shop.example.com/item/1");
    let records = c.process_page("<html><body></body></html>", &item);
    assert_eq!(records.len(), 0);
    assert!(c.next_url().is_none(), "the cap stops the crawl with /more still queued");
    assert_eq!(c.pages_visited(), 2);
    assert_eq!(c.frontier_len(), 1);
}

#[test]
fn cap_of_zero_visits_nothing() {
    let mut c = new_crawler("https://shop.example.com/", 0).unwrap();
    assert!(c.next_url().is_none());
    assert_eq!(c.pages_visited(), 0);
    assert_eq!(c.frontier_len(), 1, "the start URL stays queued when the cap is zero");
}

#[test]
fn start_url_without_domain_leaves_crawl_unscoped() {
    let mut c = new_crawler("file:///tmp/listing.html", 20).unwrap();
    let u = c.next_url().unwrap();
    let body = "<html><body><a href=\"https://shop.example.com/y\">y</a></body></html>";
    c.process_page(body, &u);
    assert_eq!(c.frontier_len(), 1, "an unscoped crawl keeps every resolvable link");
    assert_eq!(c.next_url().unwrap().as_str(), "https://shop.example.com/y");
}
