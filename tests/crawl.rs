use shadowprobe::{CrawlFrontier, HttpResponse};

fn html(body: &str) -> HttpResponse {
    HttpResponse {
        status: 200,
        headers: vec![("content-type".to_string(), "text/html; charset=utf-8".to_string())],
        body: body.to_string(),
        response_time_ms: 5,
    }
}

#[test]
fn seed_is_normalized_and_invalid_seed_fails() {
    let f = CrawlFrontier::new("http://a.test", 2).unwrap();
    assert_eq!(f.get_discovered_urls(), vec!["http://a.test/".to_string()]);
    assert!(CrawlFrontier::new("not a url", 2).is_err());
}

#[test]
fn failed_seed_fetch_is_a_leaf() {
    let mut f = CrawlFrontier::new("http://127.0.0.1:9/", 3).unwrap();
    let (i, _) = f.next_fetch().unwrap();
    f.complete(i, None);
    assert!(f.next_fetch().is_none());
    assert_eq!(f.get_discovered_urls(), vec!["http://127.0.0.1:9/".to_string()]);
}

#[test]
fn fragments_are_stripped_and_merged() {
    let mut f = CrawlFrontier::new("http://a/", 3).unwrap();
    let (i, _) = f.next_fetch().unwrap();
    f.complete(i, Some(&html("<a href=\"/x#frag1\">1</a><a href=\"/p\">p</a>")));
    let (j, u) = f.next_fetch().unwrap();
    assert_eq!(u, "http://a/x");
    f.complete(j, Some(&html("<a href=\"http://a/x#frag2\">2</a>")));
    let urls = f.get_discovered_urls();
    assert_eq!(urls, vec!["http://a/".to_string(), "http://a/x".to_string(), "http://a/p".to_string()]);
}

#[test]
fn other_hosts_and_deep_links_are_not_followed() {
    let mut f = CrawlFrontier::new("http://a/", 1).unwrap();
    let (i, _) = f.next_fetch().unwrap();
    f.complete(
        i,
        Some(&html(
            "<a href=\"http://b/\">b</a><form action=\"/f\"></form><script src=\"/s.js\"></script><link href=\"/c.css\">",
        )),
    );
    assert_eq!(f.len(), 4);
    let (j, _) = f.next_fetch().unwrap();
    f.complete(j, Some(&html("<a href=\"/deeper\">d</a>")));
    assert_eq!(f.len(), 4);
    assert!(!f.is_same_domain("http://b/"));
    assert!(f.is_same_domain("http://a/z"));
}

#[test]
fn non_html_page_is_a_leaf() {
    let mut f = CrawlFrontier::new("http://a/", 2).unwrap();
    let (i, _) = f.next_fetch().unwrap();
    let mut r = html("<a href=\"/x\">x</a>");
    r.headers = vec![("content-type".to_string(), "application/json".to_string())];
    f.complete(i, Some(&r));
    assert_eq!(f.len(), 1);
    assert!(f.is_drained());
}
