//! The CORS detector: sends foreign `Origin` headers and inspects the
//! `Access-Control-Allow-*` headers of the responses.
use vstd::prelude::*;
use crate::client::{header_lookup, headers_view, HttpResponse};
use crate::payloads::{Payload, PayloadView};
use crate::scanners::probe::{Probe, ProbeView, probes_view};
use crate::text::{seq_contains, str_contains, str_eq};
use crate::types::{FindingView, HttpMethod, Severity, VulnKind, Vulnerability, VulnerabilityType};

verus! {

/// The origins that the detector claims to come from.
pub open spec fn test_origins() -> Seq<Seq<char>> {
    seq!["https://evil.com"@, "http://attacker.com"@, "null"@, "http://localhost"@]
}

pub open spec fn cors_probe(target: Seq<char>, origin: Seq<char>) -> ProbeView {
    ProbeView {
        method: HttpMethod::GET,
        url: target,
        headers: seq![("Origin"@, origin)],
        body: None,
        parameter: None,
        payload: PayloadView { value: origin, description: origin, patterns: Seq::empty() },
    }
}

pub open spec fn cors_probes(target: Seq<char>) -> Seq<ProbeView> {
    test_origins().map_values(|o: Seq<char>| cors_probe(target, o))
}

pub open spec fn allow_origin(resp: HttpResponse) -> Option<Seq<char>> {
    header_lookup(headers_view(resp.headers@), "access-control-allow-origin"@)
}

/// `Access-Control-Allow-Credentials: true` is present.
pub open spec fn allows_credentials(resp: HttpResponse) -> bool {
    header_lookup(headers_view(resp.headers@), "access-control-allow-credentials"@) == Some("true"@)
}

/// The allowed origin is a wildcard, `null`, or reflects the probed origin.
pub open spec fn cors_hit(resp: HttpResponse, origin: Seq<char>) -> bool {
    allow_origin(resp) matches Some(a) && (a == "*"@ || a == origin || a == "null"@ || seq_contains(a, origin))
}

/// Critical with credentials; otherwise High for a wildcard or `null`, Medium
/// for a reflected origin.
pub open spec fn cors_severity(a: Seq<char>, credentials: bool) -> Severity {
    if credentials {
        Severity::Critical
    } else if a == "*"@ || a == "null"@ {
        Severity::High
    } else {
        Severity::Medium
    }
}

pub open spec fn cors_description(a: Seq<char>, origin: Seq<char>, credentials: bool) -> Seq<char> {
    if credentials && (a == "*"@ || a == origin) {
        "Critical CORS misconfiguration: Access-Control-Allow-Origin is '"@ + a
            + "' with credentials enabled. This allows any origin to access sensitive data."@
    } else if a == "*"@ {
        "CORS misconfiguration: Access-Control-Allow-Origin is set to wildcard (*), allowing any origin to access resources."@
    } else {
        "CORS misconfiguration: Origin '"@ + origin + "' is reflected in Access-Control-Allow-Origin header."@
    }
}

pub open spec fn cors_remediation() -> Seq<char> {
    "Use a whitelist of allowed origins. Never use wildcard (*) with credentials. Properly validate the Origin header."@
}

pub open spec fn cors_finding(probe: ProbeView, resp: HttpResponse, target: Seq<char>) -> Option<FindingView> {
    let origin = probe.payload.value;
    if cors_hit(resp, origin) {
        let a = allow_origin(resp)->Some_0;
        let creds = allows_credentials(resp);
        Some(
            FindingView {
                vuln_type: VulnKind::CORS,
                severity: cors_severity(a, creds),
                url: target,
                method: HttpMethod::GET,
                parameter: None,
                payload: "Origin: "@ + origin,
                evidence: "Access-Control-Allow-Origin: "@ + a + "\nAccess-Control-Allow-Credentials: "@ + if creds {
                    "true"@
                } else {
                    "false"@
                },
                description: cors_description(a, origin, creds),
                remediation: cors_remediation(),
                poc: Some("curl -H 'Origin: "@ + origin + "' -v '"@ + target + "'"@),
            },
        )
    } else {
        None
    }
}

pub struct CorsScanner;

impl CorsScanner {
    pub fn new() -> CorsScanner {
        CorsScanner
    }

    pub fn name(&self) -> (r: &'static str)
        ensures
            r@ == "CORS Misconfiguration Scanner"@,
    {
        "CORS Misconfiguration Scanner"
    }

    pub fn vuln_type(&self) -> (r: VulnerabilityType)
        ensures
            r@ == VulnKind::CORS,
    {
        VulnerabilityType::CORS
    }

    fn probe(target: &str, origin: &str) -> (r: Probe)
        ensures
            r@ == cors_probe(target@, origin@),
    {
        let mut headers: Vec<(String, String)> = Vec::new();
        headers.push((String::from_str("Origin"), String::from_str(origin)));
        let r = Probe {
            method: HttpMethod::GET,
            url: String::from_str(target),
            headers,
            body: None,
            parameter: None,
            payload: Payload {
                value: String::from_str(origin),
                description: String::from_str(origin),
                detection_patterns: Vec::new(),
            },
        };
        assert(r@.headers =~= seq![("Origin"@, origin@)]);
        assert(r@.payload.patterns =~= Seq::<Seq<char>>::empty());
        r
    }

    /// One GET per test origin, carrying it in an `Origin` header.
    pub fn plan(&self, target: &str) -> (r: Vec<Probe>)
        ensures
            probes_view(r@) == cors_probes(target@),
    {
        let mut out: Vec<Probe> = Vec::new();
        out.push(CorsScanner::probe(target, "https://evil.com"));
        out.push(CorsScanner::probe(target, "http://attacker.com"));
        out.push(CorsScanner::probe(target, "null"));
        out.push(CorsScanner::probe(target, "http://localhost"));
        assert(probes_view(out@) =~= cors_probes(target@));
        out
    }

    /// Whether the allowed origin of `resp` contains `origin`.
    pub fn is_reflected_origin(&self, resp: &HttpResponse, origin: &str) -> (r: bool)
        ensures
            r == (allow_origin(*resp) matches Some(a) && seq_contains(a, origin@)),
    {
        match resp.header("access-control-allow-origin") {
            Some(v) => str_contains(v.as_str(), origin),
            None => false,
        }
    }

    /// Judges the response to a CORS probe; the finding gets `id` and `timestamp`.
    pub fn assess(&self, target: &str, probe: &Probe, resp: &HttpResponse, id: String, timestamp: i64) -> (r: Option<
        Vulnerability,
    >)
        ensures
            match r {
                Some(v) => cors_finding(probe@, *resp, target@) == Some(v.finding()) && v.id == id
                    && v.timestamp == timestamp,
                None => cors_finding(probe@, *resp, target@) is None,
            },
    {
        let origin = probe.payload.value.as_str();
        let acao = match resp.header("access-control-allow-origin") {
            Some(a) => a,
            None => {
                return None;
            },
        };
        let a = acao.as_str();
        let wildcard = str_eq(a, "*");
        let null = str_eq(a, "null");
        let same = str_eq(a, origin);
        if !(wildcard || same || null || self.is_reflected_origin(resp, origin)) {
            return None;
        }
        let creds = match resp.header("access-control-allow-credentials") {
            Some(v) => str_eq(v.as_str(), "true"),
            None => false,
        };
        let severity = if creds {
            Severity::Critical
        } else if wildcard || null {
            Severity::High
        } else {
            Severity::Medium
        };
        let description = if creds && (wildcard || same) {
            let mut d = String::from_str("Critical CORS misconfiguration: Access-Control-Allow-Origin is '");
            d.append(a);
            d.append("' with credentials enabled. This allows any origin to access sensitive data.");
            d
        } else if wildcard {
            String::from_str(
                "CORS misconfiguration: Access-Control-Allow-Origin is set to wildcard (*), allowing any origin to access resources.",
            )
        } else {
            let mut d = String::from_str("CORS misconfiguration: Origin '");
            d.append(origin);
            d.append("' is reflected in Access-Control-Allow-Origin header.");
            d
        };
        let mut payload = String::from_str("Origin: ");
        payload.append(origin);
        let mut evidence = String::from_str("Access-Control-Allow-Origin: ");
        evidence.append(a);
        evidence.append("\nAccess-Control-Allow-Credentials: ");
        evidence.append(if creds { "true" } else { "false" });
        let mut poc = String::from_str("curl -H 'Origin: ");
        poc.append(origin);
        poc.append("' -v '");
        poc.append(target);
        poc.append("'");
        Some(
            Vulnerability {
                id,
                vuln_type: VulnerabilityType::CORS,
                severity,
                url: String::from_str(target),
                method: HttpMethod::GET,
                parameter: None,
                payload,
                evidence,
                description,
                remediation: String::from_str(
                    "Use a whitelist of allowed origins. Never use wildcard (*) with credentials. Properly validate the Origin header.",
                ),
                poc: Some(poc),
                ai_confidence: None,
                ai_analysis: None,
                timestamp,
            },
        )
    }
}

/// A response that reflects the probed origin and allows credentials gives a
/// Critical finding, above the class's usual High or Medium.
pub proof fn lemma_cors_credentials_escalate(probe: ProbeView, resp: HttpResponse, target: Seq<char>)
    requires
        allow_origin(resp) == Some(probe.payload.value),
        allows_credentials(resp),
    ensures
        cors_finding(probe, resp, target) is Some,
        cors_finding(probe, resp, target)->Some_0.severity == Severity::Critical,
{
}

} // verus!
