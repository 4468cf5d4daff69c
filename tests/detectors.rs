use shadowprobe::scanners::injection::{build_probe_url, is_open_redirect};
use shadowprobe::{
    CorsScanner, Detector, HttpResponse, ScannerEngine, Severity, SqlInjectionScanner, VulnerabilityType, XssScanner,
    XxeScanner,
};

fn response(status: u16, headers: &[(&str, &str)], body: &str) -> HttpResponse {
    HttpResponse {
        status,
        headers: headers.iter().map(|(k, v)| (k.to_string(), v.to_string())).collect(),
        body: body.to_string(),
        response_time_ms: 10,
    }
}

#[test]
fn sqli_probe_matching_body_gives_critical_finding() {
    let d = Detector::SqlInjection(SqlInjectionScanner::new());
    let target = "http://t/a";
    let probes = d.plan(target);
    assert_eq!(probes.len(), 25);
    assert_eq!(probes[0].url, "http://t/a?id=%27%20OR%20%271%27%3D%271");
    let mut outcomes = vec![None; probes.len()];
    outcomes[0] = Some(response(200, &[], "mysql syntax error"));
    let found = d.scan_outcomes(target, &probes, &outcomes);
    assert_eq!(found.len(), 1);
    let f = &found[0];
    assert_eq!(f.vuln_type, VulnerabilityType::SQLInjection);
    assert_eq!(f.severity, Severity::Critical);
    assert_eq!(f.parameter.as_deref(), Some("id"));
    let poc = f.poc.clone().unwrap();
    assert!(!poc.is_empty());
    assert!(poc.contains(&probes[0].url));
    assert_eq!(f.evidence, "mysql syntax error");
}

#[test]
fn query_parameters_replace_defaults() {
    let d = Detector::Xss(XssScanner::new());
    let probes = d.plan("http://t/s?term=1");
    assert_eq!(probes.len(), 5);
    assert!(probes[0].url.starts_with("http://t/s?term=1&term="));
}

#[test]
fn cors_reflection_with_credentials_is_critical() {
    let c = CorsScanner::new();
    let target = "http://t/";
    let probes = c.plan(target);
    assert_eq!(probes.len(), 4);
    let resp = response(
        200,
        &[
            ("access-control-allow-origin", "https://evil.com"),
            ("access-control-allow-credentials", "true"),
        ],
        "",
    );
    let v = c.assess(target, &probes[0], &resp, "id".to_string(), 0).unwrap();
    assert_eq!(v.severity, Severity::Critical);
    assert_eq!(v.payload, "Origin: https://evil.com");
    let plain = response(200, &[("access-control-allow-origin", "https://evil.com")], "");
    assert_eq!(c.assess(target, &probes[0], &plain, "id".to_string(), 0).unwrap().severity, Severity::Medium);
    let wild = response(200, &[("access-control-allow-origin", "*")], "");
    assert_eq!(c.assess(target, &probes[1], &wild, "id".to_string(), 0).unwrap().severity, Severity::High);
    let safe = response(200, &[("access-control-allow-origin", "https://t")], "");
    assert!(c.assess(target, &probes[1], &safe, "id".to_string(), 0).is_none());
}

#[test]
fn engine_reports_matches_in_registration_order() {
    let engine = ScannerEngine::new();
    assert_eq!(engine.scanner_count(), 9);
    let target = "http://t/upload";
    let plans = engine.plan(target);
    let mut outcomes: Vec<Vec<Option<HttpResponse>>> = plans.iter().map(|p| vec![None; p.len()]).collect();
    outcomes[0][1] = Some(response(200, &[], "a sql error"));
    outcomes[7][2] = Some(response(200, &[("access-control-allow-origin", "null")], ""));
    let found = engine.scan_outcomes(target, &plans, &outcomes);
    assert_eq!(found.len(), 2);
    assert_eq!(found[0].vuln_type, VulnerabilityType::SQLInjection);
    assert_eq!(found[1].vuln_type, VulnerabilityType::CORS);
    assert_eq!(found[1].severity, Severity::High);
}

#[test]
fn all_failed_probes_give_nothing() {
    let engine = ScannerEngine::new();
    let plans = engine.plan("http://t/");
    let found = engine.scan_outcomes("http://t/", &plans, &Vec::new());
    assert!(found.is_empty());
}

#[test]
fn xxe_only_probes_xml_endpoints() {
    let x = XxeScanner::new();
    assert!(x.plan("http://t/page").is_empty());
    let probes = x.plan("http://t/api/soap");
    assert_eq!(probes.len(), 5);
    let v = x.assess("http://t/api/soap", &probes[0], &response(200, &[], "root:x:0:0"), "i".to_string(), 1).unwrap();
    assert_eq!(v.severity, Severity::High);
    assert!(v.poc.unwrap().contains("\\n<!DOCTYPE foo"));
    assert!(x.assess("http://t/api/soap", &probes[2], &response(200, &[], "root:"), "i".to_string(), 1).is_none());
}

#[test]
fn open_redirect_policy() {
    let loc = |l: &str| response(302, &[("location", l)], "");
    assert!(is_open_redirect(&loc("//evil.com"), "x", "http://t/"));
    assert!(is_open_redirect(&loc("javascript:alert(1)"), "x", "http://t/"));
    assert!(is_open_redirect(&loc("https://other.test/"), "x", "http://t/"));
    assert!(!is_open_redirect(&loc("http://t/home"), "x", "http://t/"));
    assert!(!is_open_redirect(&loc("/home"), "x", "http://t/"));
    assert!(!is_open_redirect(&response(200, &[("location", "//evil.com")], ""), "x", "http://t/"));
    assert_eq!(build_probe_url("http://t/?a=1", "next", "//e"), "http://t/?a=1&next=%2F%2Fe");
}

#[test]
fn response_classification() {
    let r = response(404, &[("content-type", "application/json")], "{}");
    assert!(r.is_client_error() && !r.is_success() && !r.is_redirect() && !r.is_server_error());
    assert!(r.is_json() && !r.is_html());
    assert_eq!(r.content_type(), Some("application/json".to_string()));
}
