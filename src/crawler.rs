//! The crawl frontier: which URLs have been visited, at what depth, and which
//! are still to be fetched. The fetching itself is done by the caller, who
//! hands each page back; any number of fetches may be in flight at once.
use vstd::prelude::*;
use crate::client::{HttpResponse, is_html_response};
use crate::text::{cut_before, prefix_before, str_eq};
use crate::types::ShadowProbeError;
use crate::urls::{host_of, join_url, joined_url, normalize_url, url_host, url_serialization};

verus! {

/// The value of the attribute `attr` on each element of `html` that matches
/// the CSS selector `selector`, in document order (empty for an element
/// without it).
pub uninterp spec fn selected_attrs(html: Seq<char>, selector: Seq<char>, attr: Seq<char>) -> Seq<Seq<char>>;

/// Relies on `scraper::Html::parse_document`, `Selector::parse`,
/// `Html::select` and `Element::attr`: the attribute value of each matching
/// element, in document order; none when the selector does not parse.
#[verifier::external_body]
fn select_attr_values(html: &str, selector: &str, attr: &str) -> (r: Vec<String>)
    ensures
        r@.map_values(|s: String| s@) == selected_attrs(html@, selector@, attr@),
{
    let doc = scraper::Html::parse_document(html);
    match scraper::Selector::parse(selector) {
        Ok(sel) => doc.select(&sel).map(|e| e.value().attr(attr).unwrap_or_default().to_string()).collect(),
        Err(_) => Vec::new(),
    }
}

/// A link resolved against `base` with its fragment removed, when that leaves
/// anything.
pub open spec fn clean_link(base: Seq<char>, href: Seq<char>) -> Option<Seq<char>> {
    match joined_url(base, href) {
        Some(abs) => if prefix_before(abs, '#').len() > 0 {
            Some(prefix_before(abs, '#'))
        } else {
            None
        },
        None => None,
    }
}

pub open spec fn clean_links(base: Seq<char>, hrefs: Seq<Seq<char>>) -> Seq<Seq<char>>
    decreases hrefs.len(),
{
    if hrefs.len() == 0 {
        Seq::empty()
    } else {
        let rest = clean_links(base, hrefs.drop_last());
        match clean_link(base, hrefs.last()) {
            Some(c) => rest.push(c),
            None => rest,
        }
    }
}

/// The links of a page: anchor and link `href`, form `action` and script
/// `src` values, resolved against the page's URL, fragments removed.
pub open spec fn page_links(html: Seq<char>, base: Seq<char>) -> Seq<Seq<char>> {
    clean_links(base, selected_attrs(html, "a[href]"@, "href"@)) + clean_links(
        base,
        selected_attrs(html, "form[action]"@, "action"@),
    ) + clean_links(base, selected_attrs(html, "script[src]"@, "src"@)) + clean_links(
        base,
        selected_attrs(html, "link[href]"@, "href"@),
    )
}

fn push_clean_links(base: &str, hrefs: &Vec<String>, out: &mut Vec<String>)
    ensures
        final(out)@.map_values(|s: String| s@) == old(out)@.map_values(|s: String| s@)
            + clean_links(base@, hrefs@.map_values(|s: String| s@)),
{
    let ghost hv = hrefs@.map_values(|s: String| s@);
    let ghost start = out@.map_values(|s: String| s@);
    let mut i: usize = 0;
    while i < hrefs.len()
        invariant
            0 <= i <= hrefs.len(),
            hv == hrefs@.map_values(|s: String| s@),
            out@.map_values(|s: String| s@) == start + clean_links(base@, hv.subrange(0, i as int)),
        decreases hrefs.len() - i,
    {
        proof {
            assert(hv.subrange(0, i + 1).drop_last() =~= hv.subrange(0, i as int));
            assert(hv.subrange(0, i + 1).last() == hrefs@[i as int]@);
        }
        let ghost prev = out@;
        match join_url(base, hrefs[i].as_str()) {
            Some(abs) => {
                let clean = cut_before(abs.as_str(), '#');
                if clean.unicode_len() > 0 {
                    out.push(clean);
                    assert(out@.map_values(|s: String| s@) =~= prev.map_values(|s: String| s@).push(
                        clean@,
                    ));
                }
            },
            None => {},
        }
        proof {
            assert(out@.map_values(|s: String| s@) =~= start + clean_links(base@, hv.subrange(0, i + 1)));
        }
        i += 1;
    }
    assert(hv.subrange(0, hrefs.len() as int) =~= hv);
}

/// The links of the HTML page `html` found at `base`, in selector order
/// (anchors, forms, scripts, links) and document order within each.
pub fn extract_links(html: &str, base: &str) -> (r: Vec<String>)
    ensures
        r@.map_values(|s: String| s@) == page_links(html@, base@),
{
    let mut links: Vec<String> = Vec::new();
    let a = select_attr_values(html, "a[href]", "href");
    push_clean_links(base, &a, &mut links);
    let f = select_attr_values(html, "form[action]", "action");
    push_clean_links(base, &f, &mut links);
    let s = select_attr_values(html, "script[src]", "src");
    push_clean_links(base, &s, &mut links);
    let l = select_attr_values(html, "link[href]", "href");
    push_clean_links(base, &l, &mut links);
    assert(links@.map_values(|s: String| s@) =~= page_links(html@, base@));
    links
}

/// Mathematical state of a frontier: the visited URLs in order of first visit,
/// the depth at which each was reached, and the entry whose page linked to it.
pub ghost struct FrontierView {
    pub visited: Seq<Seq<char>>,
    pub depths: Seq<nat>,
    pub parents: Seq<int>,
}

/// Whether a link at `depth` enters the crawl: within the depth bound, not yet
/// visited, and on the seed's host.
pub open spec fn admits(
    v: FrontierView,
    url: Seq<char>,
    depth: nat,
    max_depth: nat,
    host: Option<Seq<char>>,
) -> bool {
    &&& depth <= max_depth
    &&& !v.visited.contains(url)
    &&& host is Some
    &&& url_host(url) == host
}

pub open spec fn offer(
    v: FrontierView,
    url: Seq<char>,
    depth: nat,
    parent: int,
    max_depth: nat,
    host: Option<Seq<char>>,
) -> FrontierView {
    if admits(v, url, depth, max_depth, host) && v.visited.len() + 1 < usize::MAX {
        FrontierView {
            visited: v.visited.push(url),
            depths: v.depths.push(depth),
            parents: v.parents.push(parent),
        }
    } else {
        v
    }
}

/// Offers each of `urls` in turn. A frontier holding `usize::MAX - 1` entries
/// takes no more.
pub open spec fn offer_all(
    v: FrontierView,
    urls: Seq<Seq<char>>,
    depth: nat,
    parent: int,
    max_depth: nat,
    host: Option<Seq<char>>,
) -> FrontierView
    decreases urls.len(),
{
    if urls.len() == 0 {
        v
    } else {
        offer(
            offer_all(v, urls.drop_last(), depth, parent, max_depth, host),
            urls.last(),
            depth,
            parent,
            max_depth,
            host,
        )
    }
}

/// The state invariants of a crawl: each URL is visited at most once, no
/// entry is deeper than the bound, each entry but the seed was linked from an
/// earlier entry one level up, and every entry is on the seed's host.
pub open spec fn frontier_ok(v: FrontierView, max_depth: nat, host: Option<Seq<char>>) -> bool {
    &&& v.visited.len() >= 1
    &&& v.depths.len() == v.visited.len()
    &&& v.parents.len() == v.visited.len()
    &&& v.visited.no_duplicates()
    &&& v.depths[0] == 0
    &&& forall|i: int| 0 <= i < v.depths.len() ==> #[trigger] v.depths[i] <= max_depth
    &&& forall|i: int|
        0 < i < v.parents.len() ==> 0 <= #[trigger] v.parents[i] < i && v.depths[i] == v.depths[v.parents[i]]
            + 1
    &&& forall|i: int| 0 <= i < v.visited.len() ==> url_host(#[trigger] v.visited[i]) == host
}

pub struct CrawlFrontier {
    seed_host: Option<String>,
    max_depth: usize,
    visited: Vec<String>,
    depths: Vec<usize>,
    parents: Ghost<Seq<int>>,
    next: usize,
}

impl View for CrawlFrontier {
    type V = FrontierView;

    closed spec fn view(&self) -> FrontierView {
        FrontierView {
            visited: self.visited@.map_values(|s: String| s@),
            depths: self.depths@.map_values(|d: usize| d as nat),
            parents: self.parents@,
        }
    }
}

impl CrawlFrontier {
    pub closed spec fn host_view(&self) -> Option<Seq<char>> {
        match self.seed_host {
            Some(h) => Some(h@),
            None => None,
        }
    }

    pub closed spec fn max_depth_view(&self) -> nat {
        self.max_depth as nat
    }

    /// Entries handed out for fetching so far; the rest wait.
    pub closed spec fn handed_out(&self) -> nat {
        self.next as nat
    }

    pub closed spec fn wf(&self) -> bool {
        &&& frontier_ok(self@, self.max_depth as nat, self.host_view())
        &&& self.next <= self.visited@.len()
        &&& self.visited@.len() < usize::MAX
    }

    /// A crawl of `seed` down to `max_depth` link hops. The seed is normalized
    /// and visited at depth 0; a seed that does not parse is the one error.
    pub fn new(seed: &str, max_depth: usize) -> (r: Result<CrawlFrontier, ShadowProbeError>)
        ensures
            r is Err <==> url_serialization(seed@) is None,
            r matches Err(e) ==> e is InvalidUrl,
            r matches Ok(f) ==> {
                &&& f.wf()
                &&& f@.visited == seq![url_serialization(seed@)->Some_0]
                &&& f.host_view() == url_host(url_serialization(seed@)->Some_0)
                &&& f.max_depth_view() == max_depth
                &&& f.handed_out() == 0
            },
    {
        match normalize_url(seed) {
            Err(msg) => Err(ShadowProbeError::InvalidUrl(msg)),
            Ok(u) => {
                let host = host_of(u.as_str());
                let mut visited: Vec<String> = Vec::new();
                visited.push(u);
                let mut depths: Vec<usize> = Vec::new();
                depths.push(0);
                let ghost parents = seq![0int];
                let f = CrawlFrontier {
                    seed_host: host,
                    max_depth,
                    visited,
                    depths,
                    parents: Ghost(parents),
                    next: 0,
                };
                assert(f@.visited =~= seq![url_serialization(seed@)->Some_0]);
                assert(f@.visited.no_duplicates());
                Ok(f)
            },
        }
    }

    /// The visited URLs, in order of first visit. Every one of them is also a
    /// discovered endpoint.
    pub fn get_discovered_urls(&self) -> (r: Vec<String>)
        ensures
            r@.map_values(|s: String| s@) == self@.visited,
    {
        let mut out: Vec<String> = Vec::new();
        let mut i: usize = 0;
        while i < self.visited.len()
            invariant
                0 <= i <= self.visited@.len(),
                out@.map_values(|s: String| s@) == self@.visited.subrange(0, i as int),
            decreases self.visited@.len() - i,
        {
            let ghost prev = out@;
            out.push(self.visited[i].clone());
            assert(out@.map_values(|s: String| s@) =~= prev.map_values(|s: String| s@).push(
                self@.visited[i as int],
            ));
            assert(out@.map_values(|s: String| s@) =~= self@.visited.subrange(0, i + 1));
            i += 1;
        }
        assert(self@.visited.subrange(0, self.visited@.len() as int) =~= self@.visited);
        out
    }

    pub fn len(&self) -> (r: usize)
        ensures
            r == self@.visited.len(),
    {
        self.visited.len()
    }

    /// Hands out the next URL to fetch with its index, or `None` when every
    /// visited URL has been handed out.
    pub fn next_fetch(&mut self) -> (r: Option<(usize, String)>)
        requires
            old(self).wf(),
        ensures
            final(self).wf(),
            final(self)@ == old(self)@,
            final(self).host_view() == old(self).host_view(),
            final(self).max_depth_view() == old(self).max_depth_view(),
            old(self).handed_out() < old(self)@.visited.len() ==> {
                &&& r matches Some(p)
                &&& p.0 == old(self).handed_out()
                &&& p.1@ == old(self)@.visited[p.0 as int]
                &&& final(self).handed_out() == old(self).handed_out() + 1
            },
            old(self).handed_out() >= old(self)@.visited.len() ==> r is None && final(self).handed_out()
                == old(self).handed_out(),
    {
        if self.next < self.visited.len() {
            let i = self.next;
            self.next = i + 1;
            Some((i, self.visited[i].clone()))
        } else {
            None
        }
    }

    /// Whether nothing waits to be handed out.
    pub fn is_drained(&self) -> (r: bool)
        ensures
            r == (self.handed_out() >= self@.visited.len()),
    {
        self.next >= self.visited.len()
    }

    fn contains(&self, url: &str) -> (r: bool)
        ensures
            r == self@.visited.contains(url@),
    {
        let mut i: usize = 0;
        while i < self.visited.len()
            invariant
                0 <= i <= self.visited@.len(),
                forall|k: int| 0 <= k < i ==> self@.visited[k] != url@,
            decreases self.visited@.len() - i,
        {
            if str_eq(self.visited[i].as_str(), url) {
                assert(self@.visited[i as int] == url@);
                return true;
            }
            i += 1;
        }
        false
    }

    /// Whether `url` is on the seed's host.
    pub fn is_same_domain(&self, url: &str) -> (r: bool)
        ensures
            r == (self.host_view() is Some && url_host(url@) == self.host_view()),
    {
        match &self.seed_host {
            Some(h) => match host_of(url) {
                Some(uh) => str_eq(uh.as_str(), h.as_str()),
                None => false,
            },
            None => false,
        }
    }

    /// Offers one link found on the page of entry `parent`.
    fn offer_link(&mut self, url: String, parent: usize)
        requires
            old(self).wf(),
            parent < old(self)@.visited.len(),
        ensures
            final(self).wf(),
            final(self)@ == offer(
                old(self)@,
                url@,
                old(self)@.depths[parent as int] + 1,
                parent as int,
                old(self).max_depth_view(),
                old(self).host_view(),
            ),
            final(self).host_view() == old(self).host_view(),
            final(self).max_depth_view() == old(self).max_depth_view(),
            final(self).handed_out() == old(self).handed_out(),
    {
        let d = self.depths[parent];
        if d < self.max_depth && !self.contains(url.as_str()) && self.is_same_domain(url.as_str())
            && self.visited.len() < usize::MAX - 1 {
            let ghost old_v = self@;
            self.visited.push(url);
            self.depths.push(d + 1);
            self.parents = Ghost(self.parents@.push(parent as int));
            proof {
                assert(self@.visited =~= old_v.visited.push(url@));
                assert(self@.depths =~= old_v.depths.push((d + 1) as nat));
                assert forall|i: int, j: int|
                    0 <= i < self@.visited.len() && 0 <= j < self@.visited.len() && i != j implies
                    self@.visited[i] != self@.visited[j] by {
                    if i < old_v.visited.len() && j < old_v.visited.len() {
                        assert(old_v.visited.no_duplicates());
                    } else if i == old_v.visited.len() {
                        assert(old_v.visited[j] == self@.visited[j]);
                    } else {
                        assert(old_v.visited[i] == self@.visited[i]);
                    }
                }
            }
        }
    }
}


impl CrawlFrontier {
    /// Hands back the outcome of fetching entry `index`: `None` when the fetch
    /// failed. A page that is not HTML, or a failed fetch, is a leaf; the
    /// links of an HTML page are offered one level deeper, in page order.
    pub fn complete(&mut self, index: usize, outcome: Option<&HttpResponse>)
        requires
            old(self).wf(),
            index < old(self)@.visited.len(),
        ensures
            final(self).wf(),
            final(self).host_view() == old(self).host_view(),
            final(self).max_depth_view() == old(self).max_depth_view(),
            final(self).handed_out() == old(self).handed_out(),
            final(self)@ == match outcome {
                Some(resp) => if is_html_response(*resp) {
                    offer_all(
                        old(self)@,
                        page_links(resp.body@, old(self)@.visited[index as int]),
                        old(self)@.depths[index as int] + 1,
                        index as int,
                        old(self).max_depth_view(),
                        old(self).host_view(),
                    )
                } else {
                    old(self)@
                },
                None => old(self)@,
            },
    {
        match outcome {
            Some(resp) => {
                if resp.is_html() {
                    let links = extract_links(resp.body.as_str(), self.visited[index].as_str());
                    self.offer_links(index, links);
                }
            },
            None => {},
        }
    }

    fn offer_links(&mut self, index: usize, links: Vec<String>)
        requires
            old(self).wf(),
            index < old(self)@.visited.len(),
        ensures
            final(self).wf(),
            final(self).host_view() == old(self).host_view(),
            final(self).max_depth_view() == old(self).max_depth_view(),
            final(self).handed_out() == old(self).handed_out(),
            final(self)@ == offer_all(
                old(self)@,
                links@.map_values(|s: String| s@),
                old(self)@.depths[index as int] + 1,
                index as int,
                old(self).max_depth_view(),
                old(self).host_view(),
            ),
    {
        let ghost start = self@;
        let ghost lv = links@.map_values(|s: String| s@);
        let ghost d = self@.depths[index as int] + 1;
        let mut i: usize = 0;
        while i < links.len()
            invariant
                0 <= i <= links.len(),
                lv == links@.map_values(|s: String| s@),
                self.wf(),
                index < self@.visited.len(),
                self@.depths[index as int] + 1 == d,
                self.host_view() == old(self).host_view(),
                self.max_depth_view() == old(self).max_depth_view(),
                self.handed_out() == old(self).handed_out(),
                self@ == offer_all(
                    start,
                    lv.subrange(0, i as int),
                    d,
                    index as int,
                    self.max_depth_view(),
                    self.host_view(),
                ),
            decreases links.len() - i,
        {
            proof {
                assert(lv.subrange(0, i + 1).drop_last() =~= lv.subrange(0, i as int));
                assert(lv.subrange(0, i + 1).last() == links@[i as int]@);
            }
            self.offer_link(links[i].clone(), index);
            i += 1;
        }
        assert(lv.subrange(0, links.len() as int) =~= lv);
    }
}

/// Offering a link keeps the crawl invariants.
pub proof fn lemma_offer_keeps_invariants(
    v: FrontierView,
    url: Seq<char>,
    parent: int,
    max_depth: nat,
    host: Option<Seq<char>>,
)
    requires
        frontier_ok(v, max_depth, host),
        0 <= parent < v.visited.len(),
    ensures
        frontier_ok(offer(v, url, v.depths[parent] + 1, parent, max_depth, host), max_depth, host),
{
    let w = offer(v, url, v.depths[parent] + 1, parent, max_depth, host);
    if w != v {
        assert forall|i: int, j: int|
            0 <= i < w.visited.len() && 0 <= j < w.visited.len() && i != j implies w.visited[i]
            != w.visited[j] by {
            if i < v.visited.len() && j < v.visited.len() {
                assert(v.visited[i] == w.visited[i] && v.visited[j] == w.visited[j]);
            } else if i == v.visited.len() {
                assert(v.visited[j] == w.visited[j]);
            } else {
                assert(v.visited[i] == w.visited[i]);
            }
        }
        assert forall|i: int| 0 <= i < w.visited.len() implies url_host(#[trigger] w.visited[i]) == host by {
            if i < v.visited.len() {
                assert(v.visited[i] == w.visited[i]);
            }
        }
    }
}

/// Offering a run of links from one page keeps the crawl invariants.
pub proof fn lemma_offer_all_keeps_invariants(
    v: FrontierView,
    urls: Seq<Seq<char>>,
    parent: int,
    max_depth: nat,
    host: Option<Seq<char>>,
)
    requires
        frontier_ok(v, max_depth, host),
        0 <= parent < v.visited.len(),
    ensures
        frontier_ok(offer_all(v, urls, v.depths[parent] + 1, parent, max_depth, host), max_depth, host),
        offer_all(v, urls, v.depths[parent] + 1, parent, max_depth, host).visited.len() >= v.visited.len(),
        v.depths =~= offer_all(v, urls, v.depths[parent] + 1, parent, max_depth, host).depths.subrange(
            0,
            v.depths.len() as int,
        ),
    decreases urls.len(),
{
    if urls.len() > 0 {
        lemma_offer_all_keeps_invariants(v, urls.drop_last(), parent, max_depth, host);
        let w = offer_all(v, urls.drop_last(), v.depths[parent] + 1, parent, max_depth, host);
        assert(w.depths[parent] == v.depths[parent]);
        lemma_offer_keeps_invariants(w, urls.last(), parent, max_depth, host);
    }
}

/// Each URL is visited at most once, however many pages link to it.
pub proof fn lemma_visited_once(f: &CrawlFrontier)
    requires
        f.wf(),
    ensures
        forall|i: int, j: int|
            0 <= i < f@.visited.len() && 0 <= j < f@.visited.len() && f@.visited[i] == f@.visited[j]
                ==> i == j,
{
    assert(f@.visited.no_duplicates());
}

/// No entry lies deeper than the bound, and each entry but the seed was
/// reached from an earlier entry exactly one level up: entry `i` lies at the
/// end of a chain of `depths[i]` links from the seed.
pub proof fn lemma_depth_bound(f: &CrawlFrontier)
    requires
        f.wf(),
    ensures
        f@.depths[0] == 0,
        forall|i: int| 0 <= i < f@.depths.len() ==> #[trigger] f@.depths[i] <= f.max_depth_view(),
        forall|i: int|
            0 < i < f@.visited.len() ==> 0 <= #[trigger] f@.parents[i] < i && f@.depths[i] == f@.depths[f@.parents[i]]
                + 1,
{
}

/// Every visited URL is on the seed's host.
pub proof fn lemma_same_host(f: &CrawlFrontier)
    requires
        f.wf(),
    ensures
        forall|i: int| 0 <= i < f@.visited.len() ==> url_host(#[trigger] f@.visited[i]) == url_host(f@.visited[0]),
{
}

/// Two links to one document that differ only in their fragments, found on
/// two pages, enter the crawl as a single fragment-free entry.
pub proof fn lemma_fragments_merge(
    v: FrontierView,
    page1: int,
    base1: Seq<char>,
    href1: Seq<char>,
    page2: int,
    base2: Seq<char>,
    href2: Seq<char>,
    max_depth: nat,
    host: Option<Seq<char>>,
)
    requires
        frontier_ok(v, max_depth, host),
        0 <= page1 < v.visited.len(),
        0 <= page2 < v.visited.len(),
        joined_url(base1, href1) is Some,
        joined_url(base2, href2) is Some,
        prefix_before(joined_url(base1, href1)->Some_0, '#') == prefix_before(
            joined_url(base2, href2)->Some_0,
            '#',
        ),
        prefix_before(joined_url(base1, href1)->Some_0, '#').len() > 0,
    ensures
        ({
            let c = prefix_before(joined_url(base1, href1)->Some_0, '#');
            let w1 = offer(v, clean_link(base1, href1)->Some_0, v.depths[page1] + 1, page1, max_depth, host);
            let w2 = offer(w1, clean_link(base2, href2)->Some_0, w1.depths[page2] + 1, page2, max_depth, host);
            &&& clean_link(base1, href1) == Some(c)
            &&& clean_link(base2, href2) == Some(c)
            &&& !c.contains('#')
            &&& forall|i: int, j: int|
                0 <= i < w2.visited.len() && 0 <= j < w2.visited.len() && w2.visited[i] == c && w2.visited[j]
                    == c ==> i == j
        }),
{
    let c = prefix_before(joined_url(base1, href1)->Some_0, '#');
    crate::text::lemma_prefix_before_has_no(joined_url(base1, href1)->Some_0, '#');
    let w1 = offer(v, c, v.depths[page1] + 1, page1, max_depth, host);
    lemma_offer_keeps_invariants(v, c, page1, max_depth, host);
    assert(w1.depths[page2] == v.depths[page2]);
    lemma_offer_keeps_invariants(w1, c, page2, max_depth, host);
    let w2 = offer(w1, c, w1.depths[page2] + 1, page2, max_depth, host);
    assert(w2.visited.no_duplicates());
}
} // verus!
