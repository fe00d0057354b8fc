//! The crawl driver's state: a FIFO frontier of URLs still to fetch and the
//! set of URL strings already visited, under a hard cap on visited pages and
//! an exact-domain scope taken from the start URL. The caller owns the
//! fetching: it asks `next_url` for the next page to get, fetches it, and
//! hands the body to `process_page`, which extracts that page's products and
//! enqueues its in-scope, unvisited links.

use vstd::prelude::*;
use std::collections::VecDeque;
use crate::extract::Product;
use crate::extract::extract;
use crate::extract::extract_spec;
use crate::html::anchor_hrefs_of;
use crate::html::scan_hrefs;
use crate::html::sel_ok;
use crate::html::selectors_ok;
use crate::urls::CrawlUrl;
use crate::urls::domain_of;
use crate::urls::join_of;
use crate::urls::parsed_of;
use crate::urls::parse_url;
use crate::urls::resolve;

verus! {

/// Why a crawl cannot be set up: these are the only fatal configuration
/// errors; everything that goes wrong page by page is non-fatal.
#[derive(Clone, Copy, Debug, PartialEq, Eq)]
pub enum ConfigError {
    /// The start URL does not parse as an absolute URL.
    InvalidStartUrl,
    /// One of the matcher patterns is not a valid selector group.
    InvalidPattern,
}

/// Whether a URL's domain falls in the crawl's scope: with a scoped crawl it
/// must equal the scope's domain exactly (a URL without a domain is out of
/// scope); a crawl whose start URL has no domain is unscoped.
pub open spec fn in_scope(d: Option<Seq<char>>, scope: Option<Seq<char>>) -> bool {
    match scope {
        Option::Some(sd) => d == Option::Some(sd),
        Option::None => true,
    }
}

/// Which queued URL a dequeue yields: the first whose string is not yet
/// visited, paired with the queue that remains behind it; `None` when every
/// queued URL is already visited.
pub open spec fn next_pick(q: Seq<CrawlUrl>, vis: Seq<Seq<char>>) -> Option<
    (CrawlUrl, Seq<CrawlUrl>),
>
    decreases q.len(),
{
    if q.len() == 0 {
        Option::None
    } else if vis.contains(q[0].text@) {
        next_pick(q.drop_first(), vis)
    } else {
        Option::Some((q[0], q.drop_first()))
    }
}

/// The URL strings one page adds to the frontier: each anchor `href`
/// resolved against the page, kept exactly when resolution succeeds, the
/// result's domain is in scope, and its string is not yet visited.
pub open spec fn enqueued_texts(
    hrefs: Seq<Seq<char>>,
    page_text: Seq<char>,
    scope: Option<Seq<char>>,
    vis: Seq<Seq<char>>,
) -> Seq<Seq<char>>
    decreases hrefs.len(),
{
    if hrefs.len() == 0 {
        Seq::empty()
    } else {
        let rest = enqueued_texts(hrefs.drop_last(), page_text, scope, vis);
        match join_of(page_text, hrefs.last()) {
            Option::Some(j) => if in_scope(domain_of(j), scope) && !vis.contains(j) {
                rest.push(j)
            } else {
                rest
            },
            Option::None => rest,
        }
    }
}

/// The state of one crawl run.
pub struct Crawler {
    queue: VecDeque<CrawlUrl>,
    visited: Vec<String>,
    domain: Option<String>,
    max_pages: usize,
    tile_pat: String,
    name_pat: String,
    price_pat: String,
}

impl Crawler {
    /// The frontier, front first.
    pub closed spec fn queue_view(&self) -> Seq<CrawlUrl> {
        self.queue@
    }

    /// The frontier's URL strings, front first.
    pub open spec fn queue_texts(&self) -> Seq<Seq<char>> {
        self.queue_view().map_values(|u: CrawlUrl| u.text@)
    }

    /// The visited URL strings, in visiting order.
    pub closed spec fn visited_seq(&self) -> Seq<Seq<char>> {
        self.visited@.map_values(|s: String| s@)
    }

    /// The visited URL strings as a set.
    pub open spec fn visited_set(&self) -> Set<Seq<char>> {
        self.visited_seq().to_set()
    }

    /// The crawl's domain scope: the start URL's domain.
    pub closed spec fn domain_view(&self) -> Option<Seq<char>> {
        match self.domain {
            Option::Some(d) => Option::Some(d@),
            Option::None => Option::None,
        }
    }

    /// The cap on visited pages.
    pub closed spec fn max_pages_spec(&self) -> usize {
        self.max_pages
    }

    /// The three matcher patterns: tiles, names, prices.
    pub closed spec fn patterns(&self) -> (Seq<char>, Seq<char>, Seq<char>) {
        (self.tile_pat@, self.name_pat@, self.price_pat@)
    }

    /// The state invariant: no URL string is visited twice, the visited
    /// count never passes the cap, and every queued URL is well-formed and
    /// in the crawl's domain scope.
    pub closed spec fn inv(&self) -> bool {
        &&& self.visited_seq().no_duplicates()
        &&& self.visited_seq().len() <= self.max_pages
        &&& forall|i: int|
            0 <= i < self.queue@.len() ==> (#[trigger] self.queue@[i]).wf() && in_scope(
                self.queue@[i].domain_view(),
                self.domain_view(),
            )
    }

    /// How many pages have been visited.
    pub fn pages_visited(&self) -> (r: usize)
        ensures
            r == self.visited_seq().len(),
    {
        self.visited.len()
    }

    /// How many URLs wait in the frontier.
    pub fn frontier_len(&self) -> (r: usize)
        ensures
            r == self.queue_view().len(),
    {
        self.queue.len()
    }

    /// Set up a crawl: parse the start URL (rejected as `InvalidStartUrl`
    /// when it is not absolute), check the three matcher patterns (rejected
    /// as `InvalidPattern` when one does not compile), and start with an
    /// empty visited set and the start URL alone in the frontier. The
    /// crawl's scope is the start URL's domain.
    pub fn new(
        start_url: &str,
        max_pages: usize,
        tile_pat: &str,
        name_pat: &str,
        price_pat: &str,
    ) -> (r: Result<Crawler, ConfigError>)
        ensures
            r == Err::<Crawler, ConfigError>(ConfigError::InvalidStartUrl) <==> parsed_of(
                start_url@,
            ) is None,
            r == Err::<Crawler, ConfigError>(ConfigError::InvalidPattern) <==> parsed_of(
                start_url@,
            ) is Some && !(sel_ok(tile_pat@) && sel_ok(name_pat@) && sel_ok(price_pat@)),
            r matches Ok(c) ==> {
                &&& c.inv()
                &&& Some(c.queue_texts()[0]) == parsed_of(start_url@)
                &&& c.queue_view().len() == 1
                &&& c.domain_view() == domain_of(c.queue_texts()[0])
                &&& c.visited_seq() == Seq::<Seq<char>>::empty()
                &&& c.max_pages_spec() == max_pages
                &&& c.patterns() == (tile_pat@, name_pat@, price_pat@)
            },
    {
        let start = match parse_url(start_url) {
            Option::Some(u) => u,
            Option::None => {
                return Err(ConfigError::InvalidStartUrl);
            },
        };
        if !selectors_ok(tile_pat, name_pat, price_pat) {
            return Err(ConfigError::InvalidPattern);
        }
        let domain = match &start.domain {
            Option::Some(d) => Option::Some(d.clone()),
            Option::None => Option::None,
        };
        let mut queue: VecDeque<CrawlUrl> = VecDeque::new();
        queue.push_back(start);
        Ok(
            Crawler {
                queue,
                visited: Vec::new(),
                domain,
                max_pages,
                tile_pat: tile_pat.to_owned(),
                name_pat: name_pat.to_owned(),
                price_pat: price_pat.to_owned(),
            },
        )
    }

    /// The next page to fetch: `None` when the cap on visited pages is
    /// reached (the frontier is left as it is) or the frontier holds nothing
    /// unvisited (the frontier is drained). Otherwise the first unvisited
    /// queued URL, which is marked visited here, before any fetch, so that
    /// it can never be yielded twice.
    pub fn next_url(&mut self) -> (r: Option<CrawlUrl>)
        requires
            old(self).inv(),
        ensures
            final(self).inv(),
            final(self).domain_view() == old(self).domain_view(),
            final(self).max_pages_spec() == old(self).max_pages_spec(),
            final(self).patterns() == old(self).patterns(),
            old(self).visited_seq().len() >= old(self).max_pages_spec() ==> r is None
                && *final(self) == *old(self),
            old(self).visited_seq().len() < old(self).max_pages_spec() ==> match next_pick(
                old(self).queue_view(),
                old(self).visited_seq(),
            ) {
                Option::Some((u, rest)) => {
                    &&& r == Some(u)
                    &&& final(self).queue_view() == rest
                    &&& final(self).visited_seq() == old(self).visited_seq().push(u.text@)
                },
                Option::None => {
                    &&& r is None
                    &&& final(self).queue_view().len() == 0
                    &&& final(self).visited_seq() == old(self).visited_seq()
                },
            },
    {
        if self.visited.len() >= self.max_pages {
            return None;
        }
        loop
            invariant
                self.inv(),
                self.visited_seq().len() < self.max_pages,
                self.visited == old(self).visited,
                self.domain == old(self).domain,
                self.max_pages == old(self).max_pages,
                self.tile_pat == old(self).tile_pat,
                self.name_pat == old(self).name_pat,
                self.price_pat == old(self).price_pat,
                next_pick(self.queue_view(), self.visited_seq()) == next_pick(
                    old(self).queue_view(),
                    old(self).visited_seq(),
                ),
            decreases self.queue@.len(),
        {
            match self.queue.pop_front() {
                Option::None => {
                    return None;
                },
                Option::Some(u) => {
                    if !contains_str(&self.visited, &u.text) {
                        self.visited.push(u.text.clone());
                        assert(self.visited_seq() =~= old(self).visited_seq().push(u.text@));
                        return Some(u);
                    }
                },
            }
        }
    }

    /// Digest one fetched page: extract its product records (an invalid
    /// matcher pattern yields none) and push each anchor's resolved URL onto
    /// the frontier exactly when it is in the crawl's domain scope and not
    /// yet visited. The visited set does not change: only `next_url` visits.
    pub fn process_page(&mut self, body: &str, page: &CrawlUrl) -> (r: Vec<Product>)
        requires
            old(self).inv(),
        ensures
            final(self).inv(),
            final(self).visited_seq() == old(self).visited_seq(),
            final(self).domain_view() == old(self).domain_view(),
            final(self).max_pages_spec() == old(self).max_pages_spec(),
            final(self).patterns() == old(self).patterns(),
            final(self).queue_texts() == old(self).queue_texts() + enqueued_texts(
                anchor_hrefs_of(body@),
                page.text@,
                old(self).domain_view(),
                old(self).visited_seq(),
            ),
            r@.map_values(|p: Product| p@) == extract_spec(
                body@,
                page.text@,
                old(self).patterns().0,
                old(self).patterns().1,
                old(self).patterns().2,
            ),
            forall|i: int|
                0 <= i < r@.len() ==> (#[trigger] r@[i])@.name.len() > 0 && r@[i]@.price.len() > 0,
    {
        let products = extract(
            body,
            page,
            self.tile_pat.as_str(),
            self.name_pat.as_str(),
            self.price_pat.as_str(),
        );
        let hrefs = scan_hrefs(body);
        let ghost hvs = hrefs@.map_values(|s: String| s@);
        let ghost scope0 = old(self).domain_view();
        let ghost vis0 = old(self).visited_seq();
        let mut i: usize = 0;
        assert(self.queue_texts() =~= old(self).queue_texts() + enqueued_texts(
            hvs.take(0int),
            page.text@,
            scope0,
            vis0,
        ));
        while i < hrefs.len()
            invariant
                i <= hrefs.len(),
                hvs == hrefs@.map_values(|s: String| s@),
                scope0 == old(self).domain_view(),
                vis0 == old(self).visited_seq(),
                self.inv(),
                self.visited == old(self).visited,
                self.domain == old(self).domain,
                self.max_pages == old(self).max_pages,
                self.tile_pat == old(self).tile_pat,
                self.name_pat == old(self).name_pat,
                self.price_pat == old(self).price_pat,
                self.queue_texts() == old(self).queue_texts() + enqueued_texts(
                    hvs.take(i as int),
                    page.text@,
                    scope0,
                    vis0,
                ),
            decreases hrefs.len() - i,
        {
            let h = &hrefs[i];
            proof {
                assert(hvs.take(i as int + 1).drop_last() =~= hvs.take(i as int));
                assert(hvs.take(i as int + 1).last() == hvs[i as int]);
                assert(hvs[i as int] == h@);
            }
            match resolve(page, h.as_str()) {
                Option::Some(u) => {
                    if in_scope_exec(&u.domain, &self.domain) && !contains_str(
                        &self.visited,
                        &u.text,
                    ) {
                        let ghost j = u.text@;
                        let ghost q0 = self.queue@;
                        let ghost t0 = self.queue_texts();
                        proof {
                            assert(join_of(page.text@, hvs[i as int]) == Some(j));
                            assert(in_scope(domain_of(j), scope0));
                            assert(!vis0.contains(j));
                            assert(enqueued_texts(hvs.take(i as int + 1), page.text@, scope0, vis0)
                                =~= enqueued_texts(
                                hvs.take(i as int),
                                page.text@,
                                scope0,
                                vis0,
                            ).push(j));
                        }
                        self.queue.push_back(u);
                        proof {
                            assert(self.queue@ == q0.push(self.queue@.last()));
                            assert(self.queue_texts() =~= t0.push(j));
                        }
                        assert(self.queue_texts() =~= old(self).queue_texts() + enqueued_texts(
                            hvs.take(i as int + 1),
                            page.text@,
                            scope0,
                            vis0,
                        ));
                    } else {
                        assert(self.queue_texts() =~= old(self).queue_texts() + enqueued_texts(
                            hvs.take(i as int + 1),
                            page.text@,
                            scope0,
                            vis0,
                        ));
                    }
                },
                Option::None => {
                    assert(self.queue_texts() =~= old(self).queue_texts() + enqueued_texts(
                        hvs.take(i as int + 1),
                        page.text@,
                        scope0,
                        vis0,
                    ));
                },
            }
            i = i + 1;
        }
        proof {
            assert(hvs.take(hrefs@.len() as int) =~= hvs);
        }
        products
    }
}

/// Whether a URL string is among the visited ones.
fn contains_str(v: &Vec<String>, s: &String) -> (r: bool)
    ensures
        r == v@.map_values(|t: String| t@).contains(s@),
{
    let mut i: usize = 0;
    while i < v.len()
        invariant
            i <= v.len(),
            forall|k: int| 0 <= k < i ==> (#[trigger] v@[k])@ != s@,
        decreases v.len() - i,
    {
        if v[i].eq(s) {
            assert(v@.map_values(|t: String| t@)[i as int] == s@);
            return true;
        }
        i = i + 1;
    }
    proof {
        let m = v@.map_values(|t: String| t@);
        if m.contains(s@) {
            let k = choose|k: int| 0 <= k < m.len() && m[k] == s@;
            assert((v@[k])@ == s@);
            assert(false);
        }
    }
    false
}

/// Whether a domain falls in the crawl's scope, as `in_scope` states it.
fn in_scope_exec(d: &Option<String>, scope: &Option<String>) -> (r: bool)
    ensures
        r == in_scope(
            match d {
                Option::Some(x) => Option::Some(x@),
                Option::None => Option::None,
            },
            match scope {
                Option::Some(x) => Option::Some(x@),
                Option::None => Option::None,
            },
        ),
{
    match scope {
        Option::None => true,
        Option::Some(sd) => match d {
            Option::Some(dd) => dd.eq(sd),
            Option::None => false,
        },
    }
}

/// Law: the visited set never holds more than `max_pages` URLs; in
/// particular this bounds it when a crawl terminates.
pub proof fn lemma_visited_within_cap(c: &Crawler)
    requires
        c.inv(),
    ensures
        c.visited_set().len() <= c.max_pages_spec(),
{
    c.visited_seq().unique_seq_to_set();
}

/// Law: no URL string appears twice among the visited URLs.
pub proof fn lemma_visited_no_repeats(c: &Crawler, i: int, j: int)
    requires
        c.inv(),
        0 <= i < c.visited_seq().len(),
        0 <= j < c.visited_seq().len(),
        i != j,
    ensures
        c.visited_seq()[i] != c.visited_seq()[j],
{
}

/// Law: every URL a page contributes to the frontier was resolved from one
/// of the page's anchors, its domain is in the crawl's scope (with a scoped
/// crawl, equal to the start URL's domain), and it was not yet visited;
/// cross-domain links never reach the frontier.
pub proof fn lemma_enqueued_links_in_scope(
    hrefs: Seq<Seq<char>>,
    page_text: Seq<char>,
    scope: Option<Seq<char>>,
    vis: Seq<Seq<char>>,
    i: int,
)
    requires
        0 <= i < enqueued_texts(hrefs, page_text, scope, vis).len(),
    ensures
        in_scope(domain_of(enqueued_texts(hrefs, page_text, scope, vis)[i]), scope),
        !vis.contains(enqueued_texts(hrefs, page_text, scope, vis)[i]),
        exists|k: int|
            0 <= k < hrefs.len() && join_of(page_text, #[trigger] hrefs[k]) == Some(
                enqueued_texts(hrefs, page_text, scope, vis)[i],
            ),
    decreases hrefs.len(),
{
    let out = enqueued_texts(hrefs, page_text, scope, vis);
    let front = hrefs.drop_last();
    let rest = enqueued_texts(front, page_text, scope, vis);
    match join_of(page_text, hrefs.last()) {
        Option::Some(j) => {
            if in_scope(domain_of(j), scope) && !vis.contains(j) && i == rest.len() {
                assert(out[i] == j);
                assert(join_of(page_text, hrefs[hrefs.len() - 1]) == Some(out[i]));
            } else {
                lemma_enqueued_links_in_scope(front, page_text, scope, vis, i);
                let k = choose|k: int|
                    0 <= k < front.len() && join_of(page_text, #[trigger] front[k]) == Some(
                        out[i],
                    );
                assert(join_of(page_text, hrefs[k]) == Some(out[i]));
            }
        },
        Option::None => {
            lemma_enqueued_links_in_scope(front, page_text, scope, vis, i);
            let k = choose|k: int|
                0 <= k < front.len() && join_of(page_text, #[trigger] front[k]) == Some(out[i]);
            assert(join_of(page_text, hrefs[k]) == Some(out[i]));
        },
    }
}

/// Law: every URL in the frontier is well-formed and its domain is in the
/// crawl's scope.
pub proof fn lemma_frontier_in_scope(c: &Crawler, i: int)
    requires
        c.inv(),
        0 <= i < c.queue_view().len(),
    ensures
        c.queue_view()[i].wf(),
        in_scope(c.queue_view()[i].domain_view(), c.domain_view()),
{
}

} // verus!
