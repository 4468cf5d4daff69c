use vstd::prelude::*;

verus! {

/// HTTP request methods that probes can use.
#[derive(Debug, Clone, Copy, PartialEq, Eq, Structural)]
pub enum HttpMethod {
    GET,
    POST,
    PUT,
    DELETE,
    PATCH,
    HEAD,
    OPTIONS,
}

pub open spec fn method_name(m: HttpMethod) -> Seq<char> {
    match m {
        HttpMethod::GET => "GET"@,
        HttpMethod::POST => "POST"@,
        HttpMethod::PUT => "PUT"@,
        HttpMethod::DELETE => "DELETE"@,
        HttpMethod::PATCH => "PATCH"@,
        HttpMethod::HEAD => "HEAD"@,
        HttpMethod::OPTIONS => "OPTIONS"@,
    }
}

impl HttpMethod {
    pub fn as_str(&self) -> (r: &'static str)
        ensures
            r@ == method_name(*self),
    {
        match self {
            HttpMethod::GET => "GET",
            HttpMethod::POST => "POST",
            HttpMethod::PUT => "PUT",
            HttpMethod::DELETE => "DELETE",
            HttpMethod::PATCH => "PATCH",
            HttpMethod::HEAD => "HEAD",
            HttpMethod::OPTIONS => "OPTIONS",
        }
    }
}

/// Finding severity. Variants are declared from least to most severe, so the
/// derived order has `Critical > High > Medium > Low > Info`.
#[derive(Debug, Clone, Copy, PartialEq, Eq, Structural, PartialOrd, Ord, Hash)]
pub enum Severity {
    Info,
    Low,
    Medium,
    High,
    Critical,
}

/// Numeric rank of a severity: a larger rank is more severe.
pub open spec fn severity_rank(s: Severity) -> int {
    match s {
        Severity::Info => 0,
        Severity::Low => 1,
        Severity::Medium => 2,
        Severity::High => 3,
        Severity::Critical => 4,
    }
}

pub open spec fn severity_name(s: Severity) -> Seq<char> {
    match s {
        Severity::Critical => "CRITICAL"@,
        Severity::High => "HIGH"@,
        Severity::Medium => "MEDIUM"@,
        Severity::Low => "LOW"@,
        Severity::Info => "INFO"@,
    }
}

pub open spec fn severity_color(s: Severity) -> Seq<char> {
    match s {
        Severity::Critical => "\x1b[1;35m"@,
        Severity::High => "\x1b[1;31m"@,
        Severity::Medium => "\x1b[1;33m"@,
        Severity::Low => "\x1b[1;36m"@,
        Severity::Info => "\x1b[1;37m"@,
    }
}

impl Severity {
    pub fn as_str(&self) -> (r: &'static str)
        ensures
            r@ == severity_name(*self),
    {
        match self {
            Severity::Critical => "CRITICAL",
            Severity::High => "HIGH",
            Severity::Medium => "MEDIUM",
            Severity::Low => "LOW",
            Severity::Info => "INFO",
        }
    }

    /// ANSI terminal escape that colours text of this severity.
    pub fn color_code(&self) -> (r: &'static str)
        ensures
            r@ == severity_color(*self),
            r@.len() > 0,
    {
        proof {
            reveal_strlit("\x1b[1;35m");
            reveal_strlit("\x1b[1;31m");
            reveal_strlit("\x1b[1;33m");
            reveal_strlit("\x1b[1;36m");
            reveal_strlit("\x1b[1;37m");
        }
        match self {
            Severity::Critical => "\x1b[1;35m",
            Severity::High => "\x1b[1;31m",
            Severity::Medium => "\x1b[1;33m",
            Severity::Low => "\x1b[1;36m",
            Severity::Info => "\x1b[1;37m",
        }
    }

    /// Whether `self` is strictly more severe than `other`.
    pub fn is_above(&self, other: &Severity) -> (r: bool)
        ensures
            r == (severity_rank(*self) > severity_rank(*other)),
    {
        self.rank() > other.rank()
    }

    pub fn rank(&self) -> (r: u8)
        ensures
            r as int == severity_rank(*self),
    {
        match self {
            Severity::Info => 0,
            Severity::Low => 1,
            Severity::Medium => 2,
            Severity::High => 3,
            Severity::Critical => 4,
        }
    }
}

/// Vulnerability classes.
#[derive(Debug, Clone)]
pub enum VulnerabilityType {
    SQLInjection,
    XSS,
    SSRF,
    LFI,
    RFI,
    CommandInjection,
    SSTI,
    XXE,
    OpenRedirect,
    PathTraversal,
    CORS,
    CSRF,
    Deserialization,
    Authentication,
    Authorization,
    InformationDisclosure,
    Custom(String),
}

/// Mathematical form of a vulnerability class: the custom name as characters.
pub ghost enum VulnKind {
    SQLInjection,
    XSS,
    SSRF,
    LFI,
    RFI,
    CommandInjection,
    SSTI,
    XXE,
    OpenRedirect,
    PathTraversal,
    CORS,
    CSRF,
    Deserialization,
    Authentication,
    Authorization,
    InformationDisclosure,
    Custom(Seq<char>),
}

impl View for VulnerabilityType {
    type V = VulnKind;

    open spec fn view(&self) -> VulnKind {
        match self {
            VulnerabilityType::SQLInjection => VulnKind::SQLInjection,
            VulnerabilityType::XSS => VulnKind::XSS,
            VulnerabilityType::SSRF => VulnKind::SSRF,
            VulnerabilityType::LFI => VulnKind::LFI,
            VulnerabilityType::RFI => VulnKind::RFI,
            VulnerabilityType::CommandInjection => VulnKind::CommandInjection,
            VulnerabilityType::SSTI => VulnKind::SSTI,
            VulnerabilityType::XXE => VulnKind::XXE,
            VulnerabilityType::OpenRedirect => VulnKind::OpenRedirect,
            VulnerabilityType::PathTraversal => VulnKind::PathTraversal,
            VulnerabilityType::CORS => VulnKind::CORS,
            VulnerabilityType::CSRF => VulnKind::CSRF,
            VulnerabilityType::Deserialization => VulnKind::Deserialization,
            VulnerabilityType::Authentication => VulnKind::Authentication,
            VulnerabilityType::Authorization => VulnKind::Authorization,
            VulnerabilityType::InformationDisclosure => VulnKind::InformationDisclosure,
            VulnerabilityType::Custom(n) => VulnKind::Custom(n@),
        }
    }
}

pub open spec fn kind_name(k: VulnKind) -> Seq<char> {
    match k {
        VulnKind::SQLInjection => "SQL Injection"@,
        VulnKind::XSS => "Cross-Site Scripting (XSS)"@,
        VulnKind::SSRF => "Server-Side Request Forgery (SSRF)"@,
        VulnKind::LFI => "Local File Inclusion (LFI)"@,
        VulnKind::RFI => "Remote File Inclusion (RFI)"@,
        VulnKind::CommandInjection => "Command Injection"@,
        VulnKind::SSTI => "Server-Side Template Injection (SSTI)"@,
        VulnKind::XXE => "XML External Entity (XXE)"@,
        VulnKind::OpenRedirect => "Open Redirect"@,
        VulnKind::PathTraversal => "Path Traversal"@,
        VulnKind::CORS => "CORS Misconfiguration"@,
        VulnKind::CSRF => "Cross-Site Request Forgery (CSRF)"@,
        VulnKind::Deserialization => "Insecure Deserialization"@,
        VulnKind::Authentication => "Authentication Bypass"@,
        VulnKind::Authorization => "Authorization Bypass"@,
        VulnKind::InformationDisclosure => "Information Disclosure"@,
        VulnKind::Custom(n) => n,
    }
}

impl VulnerabilityType {
    pub fn as_str(&self) -> (r: &str)
        ensures
            r@ == kind_name(self@),
    {
        match self {
            VulnerabilityType::SQLInjection => "SQL Injection",
            VulnerabilityType::XSS => "Cross-Site Scripting (XSS)",
            VulnerabilityType::SSRF => "Server-Side Request Forgery (SSRF)",
            VulnerabilityType::LFI => "Local File Inclusion (LFI)",
            VulnerabilityType::RFI => "Remote File Inclusion (RFI)",
            VulnerabilityType::CommandInjection => "Command Injection",
            VulnerabilityType::SSTI => "Server-Side Template Injection (SSTI)",
            VulnerabilityType::XXE => "XML External Entity (XXE)",
            VulnerabilityType::OpenRedirect => "Open Redirect",
            VulnerabilityType::PathTraversal => "Path Traversal",
            VulnerabilityType::CORS => "CORS Misconfiguration",
            VulnerabilityType::CSRF => "Cross-Site Request Forgery (CSRF)",
            VulnerabilityType::Deserialization => "Insecure Deserialization",
            VulnerabilityType::Authentication => "Authentication Bypass",
            VulnerabilityType::Authorization => "Authorization Bypass",
            VulnerabilityType::InformationDisclosure => "Information Disclosure",
            VulnerabilityType::Custom(name) => name.as_str(),
        }
    }

    /// A copy of this class with the same mathematical value.
    pub fn duplicate(&self) -> (r: VulnerabilityType)
        ensures
            r@ == self@,
    {
        match self {
            VulnerabilityType::Custom(name) => VulnerabilityType::Custom(name.clone()),
            VulnerabilityType::SQLInjection => VulnerabilityType::SQLInjection,
            VulnerabilityType::XSS => VulnerabilityType::XSS,
            VulnerabilityType::SSRF => VulnerabilityType::SSRF,
            VulnerabilityType::LFI => VulnerabilityType::LFI,
            VulnerabilityType::RFI => VulnerabilityType::RFI,
            VulnerabilityType::CommandInjection => VulnerabilityType::CommandInjection,
            VulnerabilityType::SSTI => VulnerabilityType::SSTI,
            VulnerabilityType::XXE => VulnerabilityType::XXE,
            VulnerabilityType::OpenRedirect => VulnerabilityType::OpenRedirect,
            VulnerabilityType::PathTraversal => VulnerabilityType::PathTraversal,
            VulnerabilityType::CORS => VulnerabilityType::CORS,
            VulnerabilityType::CSRF => VulnerabilityType::CSRF,
            VulnerabilityType::Deserialization => VulnerabilityType::Deserialization,
            VulnerabilityType::Authentication => VulnerabilityType::Authentication,
            VulnerabilityType::Authorization => VulnerabilityType::Authorization,
            VulnerabilityType::InformationDisclosure => VulnerabilityType::InformationDisclosure,
        }
    }
}

impl PartialEq for VulnerabilityType {
    fn eq(&self, o: &VulnerabilityType) -> (r: bool) {
        match self {
            VulnerabilityType::Custom(a) => match o {
                VulnerabilityType::Custom(b) => a.eq(b),
                _ => false,
            },
            _ => self.tag() == o.tag(),
        }
    }
}

impl vstd::std_specs::cmp::PartialEqSpecImpl for VulnerabilityType {
    open spec fn obeys_eq_spec() -> bool {
        true
    }

    open spec fn eq_spec(&self, o: &VulnerabilityType) -> bool {
        self@ == o@
    }
}

impl Eq for VulnerabilityType {}

pub open spec fn kind_tag(k: VulnKind) -> int {
    match k {
        VulnKind::SQLInjection => 0,
        VulnKind::XSS => 1,
        VulnKind::SSRF => 2,
        VulnKind::LFI => 3,
        VulnKind::RFI => 4,
        VulnKind::CommandInjection => 5,
        VulnKind::SSTI => 6,
        VulnKind::XXE => 7,
        VulnKind::OpenRedirect => 8,
        VulnKind::PathTraversal => 9,
        VulnKind::CORS => 10,
        VulnKind::CSRF => 11,
        VulnKind::Deserialization => 12,
        VulnKind::Authentication => 13,
        VulnKind::Authorization => 14,
        VulnKind::InformationDisclosure => 15,
        VulnKind::Custom(_) => 16,
    }
}

impl VulnerabilityType {
    fn tag(&self) -> (r: u8)
        ensures
            r as int == kind_tag(self@),
    {
        match self {
            VulnerabilityType::SQLInjection => 0,
            VulnerabilityType::XSS => 1,
            VulnerabilityType::SSRF => 2,
            VulnerabilityType::LFI => 3,
            VulnerabilityType::RFI => 4,
            VulnerabilityType::CommandInjection => 5,
            VulnerabilityType::SSTI => 6,
            VulnerabilityType::XXE => 7,
            VulnerabilityType::OpenRedirect => 8,
            VulnerabilityType::PathTraversal => 9,
            VulnerabilityType::CORS => 10,
            VulnerabilityType::CSRF => 11,
            VulnerabilityType::Deserialization => 12,
            VulnerabilityType::Authentication => 13,
            VulnerabilityType::Authorization => 14,
            VulnerabilityType::InformationDisclosure => 15,
            VulnerabilityType::Custom(_) => 16,
        }
    }
}

/// Lifecycle of a scan.
#[derive(Debug, Clone, Copy, PartialEq, Eq, Structural)]
pub enum ScanStatus {
    Running,
    Completed,
    Failed,
    Paused,
}

/// Errors of the scan core. Transport and per-probe failures never surface
/// here: only an unusable seed URL or an explicit failure of a collaborator.
#[derive(Debug, Clone)]
pub enum ShadowProbeError {
    HttpError(String),
    ParseError(String),
    InvalidUrl(String),
    AIError(String),
    IoError(String),
    SerializationError(String),
}

/// A detected vulnerability. `ai_confidence` is a percentage (0 to 100) and
/// `timestamp` is milliseconds since the Unix epoch.
#[derive(Debug, Clone)]
pub struct Vulnerability {
    pub id: String,
    pub vuln_type: VulnerabilityType,
    pub severity: Severity,
    pub url: String,
    pub method: HttpMethod,
    pub parameter: Option<String>,
    pub payload: String,
    pub evidence: String,
    pub description: String,
    pub remediation: String,
    pub poc: Option<String>,
    pub ai_confidence: Option<u8>,
    pub ai_analysis: Option<String>,
    pub timestamp: i64,
}

/// What a detector decides about a finding: everything but its random
/// identifier, its creation time and the later enrichment.
pub ghost struct FindingView {
    pub vuln_type: VulnKind,
    pub severity: Severity,
    pub url: Seq<char>,
    pub method: HttpMethod,
    pub parameter: Option<Seq<char>>,
    pub payload: Seq<char>,
    pub evidence: Seq<char>,
    pub description: Seq<char>,
    pub remediation: Seq<char>,
    pub poc: Option<Seq<char>>,
}

impl Vulnerability {
    pub open spec fn finding(&self) -> FindingView {
        FindingView {
            vuln_type: self.vuln_type@,
            severity: self.severity,
            url: self.url@,
            method: self.method,
            parameter: crate::text::opt_chars(self.parameter),
            payload: self.payload@,
            evidence: self.evidence@,
            description: self.description@,
            remediation: self.remediation@,
            poc: crate::text::opt_chars(self.poc),
        }
    }
}

pub open spec fn findings_view(v: Seq<Vulnerability>) -> Seq<FindingView> {
    v.map_values(|f: Vulnerability| f.finding())
}

/// Outcome of one whole scan.
#[derive(Debug, Clone)]
pub struct ScanResult {
    pub target_url: String,
    pub scan_id: String,
    pub start_time: i64,
    pub end_time: Option<i64>,
    pub vulnerabilities: Vec<Vulnerability>,
    pub endpoints_discovered: Vec<String>,
    pub total_requests: u64,
    pub status: ScanStatus,
}

} // verus!
