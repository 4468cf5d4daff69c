//! The parameter-injection detectors: each puts every payload of its class
//! into every candidate query parameter and judges the responses.
use vstd::prelude::*;
use vstd::utf8::encode_utf8;
use crate::client::{header_lookup, headers_view, HttpResponse};
use crate::payloads::{payloads_view, strs_view, Payload, PayloadSet, PayloadView};
use crate::scanners::probe::{Probe, ProbeView, probes_view};
use crate::text::{
    contains_any, contains_any_of, decimal, excerpt, format_decimal, make_excerpt, opt_chars,
    seq_contains, str_contains, str_starts_with,
};
use crate::types::{FindingView, HttpMethod, Severity, VulnKind, Vulnerability, VulnerabilityType};
use crate::urls::{host_of, percent_encode, query_keys, query_param_names, url_encode, url_host};

verus! {

/// The classes probed through query parameters.
#[derive(Debug, Clone, Copy, PartialEq, Eq, Structural)]
pub enum InjectionClass {
    SqlInjection,
    Xss,
    Ssrf,
    Lfi,
    Ssti,
    CommandInjection,
    OpenRedirect,
}

pub open spec fn class_kind(c: InjectionClass) -> VulnKind {
    match c {
        InjectionClass::SqlInjection => VulnKind::SQLInjection,
        InjectionClass::Xss => VulnKind::XSS,
        InjectionClass::Ssrf => VulnKind::SSRF,
        InjectionClass::Lfi => VulnKind::LFI,
        InjectionClass::Ssti => VulnKind::SSTI,
        InjectionClass::CommandInjection => VulnKind::CommandInjection,
        InjectionClass::OpenRedirect => VulnKind::OpenRedirect,
    }
}

/// Default severity of each class.
pub open spec fn class_severity(c: InjectionClass) -> Severity {
    match c {
        InjectionClass::SqlInjection => Severity::Critical,
        InjectionClass::Xss => Severity::High,
        InjectionClass::Ssrf => Severity::High,
        InjectionClass::Lfi => Severity::High,
        InjectionClass::Ssti => Severity::Critical,
        InjectionClass::CommandInjection => Severity::Critical,
        InjectionClass::OpenRedirect => Severity::Medium,
    }
}

/// Commonly vulnerable parameter names, tried when a URL has no query.
pub open spec fn class_default_params(c: InjectionClass) -> Seq<Seq<char>> {
    match c {
        InjectionClass::SqlInjection => seq!["id"@, "user"@, "username"@, "search"@, "query"@],
        InjectionClass::Xss => seq!["q"@, "search"@, "query"@, "name"@, "message"@],
        InjectionClass::Ssrf => seq!["url"@, "uri"@, "link"@, "src"@, "callback"@],
        InjectionClass::Lfi => seq!["file"@, "path"@, "page"@, "include"@, "template"@],
        InjectionClass::Ssti => seq!["template"@, "view"@, "name"@, "message"@, "content"@],
        InjectionClass::CommandInjection => seq!["cmd"@, "exec"@, "command"@, "ip"@, "host"@],
        InjectionClass::OpenRedirect => seq![
            "redirect"@,
            "url"@,
            "next"@,
            "return"@,
            "dest"@,
            "destination"@,
            "redir"@,
            "redirect_uri"@,
        ],
    }
}

/// Characters of response body quoted as evidence.
pub open spec fn class_evidence_len(c: InjectionClass) -> nat {
    match c {
        InjectionClass::Ssti => 200,
        _ => 300,
    }
}

pub open spec fn class_intro(c: InjectionClass) -> Seq<char> {
    match c {
        InjectionClass::SqlInjection => "SQL Injection detected using "@,
        InjectionClass::Xss => "Cross-Site Scripting (XSS) detected using "@,
        InjectionClass::Ssrf => "Server-Side Request Forgery (SSRF) detected using "@,
        InjectionClass::Lfi => "Local File Inclusion (LFI) detected using "@,
        InjectionClass::Ssti => "Server-Side Template Injection (SSTI) detected using "@,
        InjectionClass::CommandInjection => "Command Injection detected using "@,
        InjectionClass::OpenRedirect => "Open Redirect vulnerability detected using "@,
    }
}

pub open spec fn class_outro(c: InjectionClass) -> Seq<char> {
    match c {
        InjectionClass::SqlInjection => ". The application is vulnerable to SQL injection attacks."@,
        InjectionClass::Xss => ". The application reflects user input without proper sanitization."@,
        InjectionClass::Ssrf => ". The application fetches attacker-controlled URLs."@,
        InjectionClass::Lfi => ". The application may allow reading arbitrary files."@,
        InjectionClass::Ssti => ". This can lead to Remote Code Execution."@,
        InjectionClass::CommandInjection => ". The application runs injected shell commands."@,
        InjectionClass::OpenRedirect => ". The application redirects to user-controlled URLs."@,
    }
}

pub open spec fn class_remediation(c: InjectionClass) -> Seq<char> {
    match c {
        InjectionClass::SqlInjection => "Use parameterized queries or prepared statements. Never directly concatenate user input into SQL queries. Implement proper input validation and sanitization."@,
        InjectionClass::Xss => "Encode all user input before rendering in HTML context. Use Content Security Policy (CSP). Never trust user input."@,
        InjectionClass::Ssrf => "Validate and whitelist outbound request destinations. Block requests to internal addresses and cloud metadata endpoints."@,
        InjectionClass::Lfi => "Use a whitelist of allowed files. Never directly use user input in file paths. Implement proper access controls."@,
        InjectionClass::Ssti => "Use a safe templating engine. Never use user input directly in templates. Implement sandboxing for template rendering."@,
        InjectionClass::CommandInjection => "Never pass user input to a shell. Use process APIs that take argument lists and validate all input strictly."@,
        InjectionClass::OpenRedirect => "Use a whitelist of allowed redirect destinations. Validate all redirect URLs. Avoid using user input directly in redirect targets."@,
    }
}

impl InjectionClass {
    pub fn kind(&self) -> (r: VulnerabilityType)
        ensures
            r@ == class_kind(*self),
    {
        match self {
            InjectionClass::SqlInjection => VulnerabilityType::SQLInjection,
            InjectionClass::Xss => VulnerabilityType::XSS,
            InjectionClass::Ssrf => VulnerabilityType::SSRF,
            InjectionClass::Lfi => VulnerabilityType::LFI,
            InjectionClass::Ssti => VulnerabilityType::SSTI,
            InjectionClass::CommandInjection => VulnerabilityType::CommandInjection,
            InjectionClass::OpenRedirect => VulnerabilityType::OpenRedirect,
        }
    }

    pub fn severity(&self) -> (r: Severity)
        ensures
            r == class_severity(*self),
    {
        match self {
            InjectionClass::SqlInjection => Severity::Critical,
            InjectionClass::Xss => Severity::High,
            InjectionClass::Ssrf => Severity::High,
            InjectionClass::Lfi => Severity::High,
            InjectionClass::Ssti => Severity::Critical,
            InjectionClass::CommandInjection => Severity::Critical,
            InjectionClass::OpenRedirect => Severity::Medium,
        }
    }

    pub fn default_params(&self) -> (r: Vec<&'static str>)
        ensures
            strs_view(r@) == class_default_params(*self),
    {
        let r = match self {
            InjectionClass::SqlInjection => vec!["id", "user", "username", "search", "query"],
            InjectionClass::Xss => vec!["q", "search", "query", "name", "message"],
            InjectionClass::Ssrf => vec!["url", "uri", "link", "src", "callback"],
            InjectionClass::Lfi => vec!["file", "path", "page", "include", "template"],
            InjectionClass::Ssti => vec!["template", "view", "name", "message", "content"],
            InjectionClass::CommandInjection => vec!["cmd", "exec", "command", "ip", "host"],
            InjectionClass::OpenRedirect => vec![
                "redirect",
                "url",
                "next",
                "return",
                "dest",
                "destination",
                "redir",
                "redirect_uri",
            ],
        };
        assert(strs_view(r@) =~= class_default_params(*self));
        r
    }

    pub fn evidence_len(&self) -> (r: usize)
        ensures
            r == class_evidence_len(*self),
    {
        match self {
            InjectionClass::Ssti => 200,
            _ => 300,
        }
    }

    pub fn intro(&self) -> (r: &'static str)
        ensures
            r@ == class_intro(*self),
    {
        match self {
            InjectionClass::SqlInjection => "SQL Injection detected using ",
            InjectionClass::Xss => "Cross-Site Scripting (XSS) detected using ",
            InjectionClass::Ssrf => "Server-Side Request Forgery (SSRF) detected using ",
            InjectionClass::Lfi => "Local File Inclusion (LFI) detected using ",
            InjectionClass::Ssti => "Server-Side Template Injection (SSTI) detected using ",
            InjectionClass::CommandInjection => "Command Injection detected using ",
            InjectionClass::OpenRedirect => "Open Redirect vulnerability detected using ",
        }
    }

    pub fn outro(&self) -> (r: &'static str)
        ensures
            r@ == class_outro(*self),
    {
        match self {
            InjectionClass::SqlInjection => ". The application is vulnerable to SQL injection attacks.",
            InjectionClass::Xss => ". The application reflects user input without proper sanitization.",
            InjectionClass::Ssrf => ". The application fetches attacker-controlled URLs.",
            InjectionClass::Lfi => ". The application may allow reading arbitrary files.",
            InjectionClass::Ssti => ". This can lead to Remote Code Execution.",
            InjectionClass::CommandInjection => ". The application runs injected shell commands.",
            InjectionClass::OpenRedirect => ". The application redirects to user-controlled URLs.",
        }
    }

    pub fn remediation(&self) -> (r: &'static str)
        ensures
            r@ == class_remediation(*self),
    {
        match self {
            InjectionClass::SqlInjection => "Use parameterized queries or prepared statements. Never directly concatenate user input into SQL queries. Implement proper input validation and sanitization.",
            InjectionClass::Xss => "Encode all user input before rendering in HTML context. Use Content Security Policy (CSP). Never trust user input.",
            InjectionClass::Ssrf => "Validate and whitelist outbound request destinations. Block requests to internal addresses and cloud metadata endpoints.",
            InjectionClass::Lfi => "Use a whitelist of allowed files. Never directly use user input in file paths. Implement proper access controls.",
            InjectionClass::Ssti => "Use a safe templating engine. Never use user input directly in templates. Implement sandboxing for template rendering.",
            InjectionClass::CommandInjection => "Never pass user input to a shell. Use process APIs that take argument lists and validate all input strictly.",
            InjectionClass::OpenRedirect => "Use a whitelist of allowed redirect destinations. Validate all redirect URLs. Avoid using user input directly in redirect targets.",
        }
    }
}

/// The URL that carries `value` in the query parameter `param`: appended
/// with `&` when `base` already has a query, with `?` otherwise.
pub open spec fn probe_url(base: Seq<char>, param: Seq<char>, value: Seq<char>) -> Seq<char> {
    base + (if seq_contains(base, "?"@) {
        "&"@
    } else {
        "?"@
    }) + param + "="@ + percent_encode(encode_utf8(value))
}

pub fn build_probe_url(base: &str, param: &str, value: &str) -> (r: String)
    ensures
        r@ == probe_url(base@, param@, value@),
{
    let mut u = String::from_str(base);
    if str_contains(base, "?") {
        u.append("&");
    } else {
        u.append("?");
    }
    u.append(param);
    u.append("=");
    let enc = url_encode(value);
    u.append(enc.as_str());
    u
}

/// Parameters to probe: those of the URL's query, or the class's defaults
/// when it has none.
pub open spec fn candidate_params(c: InjectionClass, target: Seq<char>) -> Seq<Seq<char>> {
    if query_keys(target).len() == 0 {
        class_default_params(c)
    } else {
        query_keys(target)
    }
}

pub fn extract_parameters(c: InjectionClass, target: &str) -> (r: Vec<String>)
    ensures
        r@.map_values(|s: String| s@) == candidate_params(c, target@),
{
    let keys = query_param_names(target);
    if keys.len() == 0 {
        let d = c.default_params();
        crate::payloads::to_strings(&d)
    } else {
        keys
    }
}

pub open spec fn injection_probe(target: Seq<char>, param: Seq<char>, p: PayloadView) -> ProbeView {
    ProbeView {
        method: HttpMethod::GET,
        url: probe_url(target, param, p.value),
        headers: Seq::empty(),
        body: None,
        parameter: Some(param),
        payload: p,
    }
}

/// Every (parameter, payload) pair, parameters outermost, both in order.
pub open spec fn injection_probes(target: Seq<char>, params: Seq<Seq<char>>, payloads: Seq<PayloadView>) -> Seq<ProbeView>
    decreases params.len(),
{
    if params.len() == 0 {
        Seq::empty()
    } else {
        injection_probes(target, params.drop_last(), payloads) + payloads.map_values(
            |p: PayloadView| injection_probe(target, params.last(), p),
        )
    }
}

fn make_probe(target: &str, param: &str, p: &Payload) -> (r: Probe)
    ensures
        r@ == injection_probe(target@, param@, p@),
{
    let url = build_probe_url(target, param, p.value.as_str());
    let r = Probe {
        method: HttpMethod::GET,
        url,
        headers: Vec::new(),
        body: None,
        parameter: Some(String::from_str(param)),
        payload: p.duplicate(),
    };
    assert(r@.headers =~= Seq::<(Seq<char>, Seq<char>)>::empty());
    r
}

/// The probes of `payloads` against `target` for class `c`.
pub fn plan_injection(c: InjectionClass, target: &str, payloads: &PayloadSet) -> (r: Vec<Probe>)
    ensures
        probes_view(r@) == injection_probes(target@, candidate_params(c, target@), payloads_view(payloads.payloads@)),
{
    let params = extract_parameters(c, target);
    let ghost pv = params@.map_values(|s: String| s@);
    let ghost ps = payloads_view(payloads.payloads@);
    let mut out: Vec<Probe> = Vec::new();
    let mut i: usize = 0;
    while i < params.len()
        invariant
            0 <= i <= params.len(),
            pv == params@.map_values(|s: String| s@),
            ps == payloads_view(payloads.payloads@),
            probes_view(out@) == injection_probes(target@, pv.subrange(0, i as int), ps),
        decreases params.len() - i,
    {
        let ghost before = probes_view(out@);
        let mut j: usize = 0;
        while j < payloads.payloads.len()
            invariant
                0 <= i < params.len(),
                0 <= j <= payloads.payloads.len(),
                pv == params@.map_values(|s: String| s@),
                ps == payloads_view(payloads.payloads@),
                probes_view(out@) == before + ps.subrange(0, j as int).map_values(
                    |p: PayloadView| injection_probe(target@, pv[i as int], p),
                ),
            decreases payloads.payloads.len() - j,
        {
            let ghost prev = out@;
            let pr = make_probe(target, params[i].as_str(), &payloads.payloads[j]);
            out.push(pr);
            assert(probes_view(out@) =~= probes_view(prev).push(pr@));
            assert(ps.subrange(0, j + 1).map_values(|p: PayloadView| injection_probe(target@, pv[i as int], p))
                =~= ps.subrange(0, j as int).map_values(
                |p: PayloadView| injection_probe(target@, pv[i as int], p),
            ).push(injection_probe(target@, pv[i as int], ps[j as int])));
            j += 1;
        }
        assert(ps.subrange(0, payloads.payloads.len() as int) =~= ps);
        assert(pv.subrange(0, i + 1).drop_last() =~= pv.subrange(0, i as int));
        i += 1;
    }
    assert(pv.subrange(0, params.len() as int) =~= pv);
    out
}

pub open spec fn location_of(resp: HttpResponse) -> Option<Seq<char>> {
    header_lookup(headers_view(resp.headers@), "location"@)
}

/// A redirect whose `Location` is protocol-relative, a `javascript:` URL,
/// carries the payload, or names a host other than the target's.
pub open spec fn redirect_hit(resp: HttpResponse, payload: Seq<char>, target: Seq<char>) -> bool {
    &&& 300 <= resp.status < 400
    &&& location_of(resp) is Some
    &&& {
        let loc = location_of(resp)->Some_0;
        ||| seq_contains(loc, payload)
        ||| "//"@.is_prefix_of(loc)
        ||| "javascript:"@.is_prefix_of(loc)
        ||| (url_host(loc) is Some && url_host(loc) != url_host(target))
    }
}

pub open spec fn injection_hit(c: InjectionClass, probe: ProbeView, resp: HttpResponse, target: Seq<char>) -> bool {
    if c == InjectionClass::OpenRedirect {
        redirect_hit(resp, probe.payload.value, target)
    } else {
        contains_any(resp.body@, probe.payload.patterns)
    }
}

pub open spec fn injection_evidence(c: InjectionClass, resp: HttpResponse) -> Seq<char> {
    if c == InjectionClass::OpenRedirect {
        "Status: "@ + decimal(resp.status as nat) + ", Location: "@ + match location_of(resp) {
            Some(l) => l,
            None => "N/A"@,
        }
    } else {
        excerpt(resp.body@, class_evidence_len(c))
    }
}

/// The finding, if any, that a response to an injection probe reveals.
pub open spec fn injection_finding(c: InjectionClass, probe: ProbeView, resp: HttpResponse, target: Seq<char>) -> Option<FindingView> {
    if injection_hit(c, probe, resp, target) {
        Some(
            FindingView {
                vuln_type: class_kind(c),
                severity: class_severity(c),
                url: probe.url,
                method: HttpMethod::GET,
                parameter: probe.parameter,
                payload: probe.payload.value,
                evidence: injection_evidence(c, resp),
                description: class_intro(c) + probe.payload.description + class_outro(c),
                remediation: class_remediation(c),
                poc: Some("curl -v '"@ + probe.url + "'"@),
            },
        )
    } else {
        None
    }
}

/// Whether any of `patterns` occurs in `body`.
pub fn is_vulnerable(body: &str, patterns: &Vec<String>) -> (r: bool)
    ensures
        r == contains_any(body@, patterns@.map_values(|p: String| p@)),
{
    contains_any_of(body, patterns)
}

/// Whether the response to a probe carrying `payload` against `target` is an
/// open redirect.
pub fn is_open_redirect(resp: &HttpResponse, payload: &str, target: &str) -> (r: bool)
    ensures
        r == redirect_hit(*resp, payload@, target@),
{
    if !resp.is_redirect() {
        return false;
    }
    match resp.header("location") {
        Some(loc) => {
            if str_contains(loc.as_str(), payload) || str_starts_with(loc.as_str(), "//")
                || str_starts_with(loc.as_str(), "javascript:") {
                true
            } else {
                match host_of(loc.as_str()) {
                    Some(h) => match host_of(target) {
                        Some(t) => !crate::text::str_eq(h.as_str(), t.as_str()),
                        None => true,
                    },
                    None => false,
                }
            }
        },
        None => false,
    }
}

fn redirect_evidence(resp: &HttpResponse) -> (r: String)
    ensures
        r@ == injection_evidence(InjectionClass::OpenRedirect, *resp),
{
    let mut e = String::from_str("Status: ");
    let code = format_decimal(resp.status as u64);
    e.append(code.as_str());
    e.append(", Location: ");
    match resp.header("location") {
        Some(l) => e.append(l.as_str()),
        None => e.append("N/A"),
    }
    e
}

/// Judges the response to an injection probe; the finding gets `id` and
/// `timestamp`.
pub fn assess_injection(
    c: InjectionClass,
    target: &str,
    probe: &Probe,
    resp: &HttpResponse,
    id: String,
    timestamp: i64,
) -> (r: Option<Vulnerability>)
    ensures
        match r {
            Some(v) => injection_finding(c, probe@, *resp, target@) == Some(v.finding()) && v.id == id
                && v.timestamp == timestamp && v.ai_confidence is None && v.ai_analysis is None,
            None => injection_finding(c, probe@, *resp, target@) is None,
        },
{
    let hit = if c == InjectionClass::OpenRedirect {
        is_open_redirect(resp, probe.payload.value.as_str(), target)
    } else {
        is_vulnerable(resp.body.as_str(), &probe.payload.detection_patterns)
    };
    if !hit {
        return None;
    }
    let evidence = if c == InjectionClass::OpenRedirect {
        redirect_evidence(resp)
    } else {
        make_excerpt(resp.body.as_str(), c.evidence_len())
    };
    let mut description = String::from_str(c.intro());
    description.append(probe.payload.description.as_str());
    description.append(c.outro());
    let mut poc = String::from_str("curl -v '");
    poc.append(probe.url.as_str());
    poc.append("'");
    let parameter = match &probe.parameter {
        Some(p) => Some(p.clone()),
        None => None,
    };
    Some(
        Vulnerability {
            id,
            vuln_type: c.kind(),
            severity: c.severity(),
            url: probe.url.clone(),
            method: HttpMethod::GET,
            parameter,
            payload: probe.payload.value.clone(),
            evidence,
            description,
            remediation: String::from_str(c.remediation()),
            poc: Some(poc),
            ai_confidence: None,
            ai_analysis: None,
            timestamp,
        },
    )
}

} // verus!
