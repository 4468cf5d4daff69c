//! Scan profiles, scan settings and global configuration, as plain values.
use vstd::prelude::*;
use std::collections::HashMap;
use crate::types::{VulnKind, VulnerabilityType};

verus! {

/// Lower-case form of a string, by Unicode's case mapping.
pub uninterp spec fn lowercase_of(s: Seq<char>) -> Seq<char>;

/// Relies on `str::to_lowercase`: the lower-case mapping of every character.
#[verifier::external_body]
fn to_lowercase(s: &str) -> (r: String)
    ensures
        r@ == lowercase_of(s@),
{
    s.to_lowercase()
}

/// Settings of one kind of scan.
#[derive(Debug, Clone)]
pub struct ScanProfile {
    pub name: String,
    pub description: String,
    pub max_depth: usize,
    pub max_concurrent_requests: usize,
    pub timeout_seconds: u64,
    pub follow_redirects: bool,
    pub user_agent: String,
    pub custom_headers: HashMap<String, String>,
    pub enabled_scanners: Vec<String>,
    pub enable_ai_analysis: bool,
    pub aggressive_mode: bool,
    pub use_evasion_techniques: bool,
    pub rate_limit_ms: Option<u64>,
}

/// The numeric and switch settings of a profile:
/// (depth, concurrency, timeout, AI analysis, aggressive, evasion, pacing).
pub open spec fn profile_settings(p: ScanProfile) -> (usize, usize, u64, bool, bool, bool, Option<u64>) {
    (
        p.max_depth,
        p.max_concurrent_requests,
        p.timeout_seconds,
        p.enable_ai_analysis,
        p.aggressive_mode,
        p.use_evasion_techniques,
        p.rate_limit_ms,
    )
}

fn names(v: Vec<&str>) -> (r: Vec<String>)
    ensures
        r@.map_values(|s: String| s@) == v@.map_values(|s: &str| s@),
{
    crate::payloads::to_strings(&v)
}

impl ScanProfile {
    /// Quick reconnaissance with minimal payloads.
    pub fn fast() -> (r: ScanProfile)
        ensures
            r.name@ == "fast"@,
            profile_settings(r) == (2usize, 100usize, 5u64, false, false, false, Some(100u64)),
            r.follow_redirects,
            r.description@ == "Quick scan with minimal payloads"@,
            r.user_agent@ == "ShadowProbe/0.1.0 (Fast)"@,
            r.enabled_scanners@.map_values(|s: String| s@) == seq!["xss"@, "sqli"@],
    {
        ScanProfile {
            name: String::from_str("fast"),
            description: String::from_str("Quick scan with minimal payloads"),
            max_depth: 2,
            max_concurrent_requests: 100,
            timeout_seconds: 5,
            follow_redirects: true,
            user_agent: String::from_str("ShadowProbe/0.1.0 (Fast)"),
            custom_headers: HashMap::new(),
            enabled_scanners: names(vec!["xss", "sqli"]),
            enable_ai_analysis: false,
            aggressive_mode: false,
            use_evasion_techniques: false,
            rate_limit_ms: Some(100),
        }
    }

    /// The default: moderate coverage.
    pub fn balanced() -> (r: ScanProfile)
        ensures
            r.name@ == "balanced"@,
            profile_settings(r) == (3usize, 50usize, 10u64, true, false, false, None::<u64>),
            r.follow_redirects,
            r.description@ == "Balanced scan with moderate coverage"@,
            r.user_agent@ == "ShadowProbe/0.1.0"@,
            r.enabled_scanners@.map_values(|s: String| s@) == seq!["sqli"@, "xss"@, "ssrf"@, "lfi"@],
    {
        ScanProfile {
            name: String::from_str("balanced"),
            description: String::from_str("Balanced scan with moderate coverage"),
            max_depth: 3,
            max_concurrent_requests: 50,
            timeout_seconds: 10,
            follow_redirects: true,
            user_agent: String::from_str("ShadowProbe/0.1.0"),
            custom_headers: HashMap::new(),
            enabled_scanners: names(vec!["sqli", "xss", "ssrf", "lfi"]),
            enable_ai_analysis: true,
            aggressive_mode: false,
            use_evasion_techniques: false,
            rate_limit_ms: None,
        }
    }

    /// Comprehensive testing with every technique.
    pub fn deep() -> (r: ScanProfile)
        ensures
            r.name@ == "deep"@,
            profile_settings(r) == (5usize, 30usize, 15u64, true, true, true, None::<u64>),
            r.follow_redirects,
            r.description@ == "Comprehensive scan with all techniques"@,
            r.user_agent@ == "ShadowProbe/0.1.0 (Deep)"@,
            r.enabled_scanners@.map_values(|s: String| s@) == seq!["sqli"@, "xss"@, "ssrf"@, "lfi"@, "ssti"@],
    {
        ScanProfile {
            name: String::from_str("deep"),
            description: String::from_str("Comprehensive scan with all techniques"),
            max_depth: 5,
            max_concurrent_requests: 30,
            timeout_seconds: 15,
            follow_redirects: true,
            user_agent: String::from_str("ShadowProbe/0.1.0 (Deep)"),
            custom_headers: HashMap::new(),
            enabled_scanners: names(vec!["sqli", "xss", "ssrf", "lfi", "ssti"]),
            enable_ai_analysis: true,
            aggressive_mode: true,
            use_evasion_techniques: true,
            rate_limit_ms: None,
        }
    }

    /// Slow and quiet, with a browser's headers.
    pub fn stealth() -> (r: ScanProfile)
        ensures
            r.name@ == "stealth"@,
            profile_settings(r) == (3usize, 5usize, 20u64, true, false, true, Some(2000u64)),
            r.follow_redirects,
            r.description@ == "Slow and stealthy scan to evade detection"@,
            r.user_agent@ == "Mozilla/5.0 (Windows NT 10.0; Win64; x64) AppleWebKit/537.36"@,
            r.enabled_scanners@.map_values(|s: String| s@) == seq!["sqli"@, "xss"@],
    {
        let mut headers: HashMap<String, String> = HashMap::new();
        headers.insert(String::from_str("Accept"), String::from_str("text/html,application/xhtml+xml"));
        headers.insert(String::from_str("Accept-Language"), String::from_str("en-US,en;q=0.9"));
        ScanProfile {
            name: String::from_str("stealth"),
            description: String::from_str("Slow and stealthy scan to evade detection"),
            max_depth: 3,
            max_concurrent_requests: 5,
            timeout_seconds: 20,
            follow_redirects: true,
            user_agent: String::from_str("Mozilla/5.0 (Windows NT 10.0; Win64; x64) AppleWebKit/537.36"),
            custom_headers: headers,
            enabled_scanners: names(vec!["sqli", "xss"]),
            enable_ai_analysis: true,
            aggressive_mode: false,
            use_evasion_techniques: true,
            rate_limit_ms: Some(2000),
        }
    }

    /// The profile named exactly `lower` (already in lower case).
    pub fn by_lower_name(lower: &str) -> (r: Option<ScanProfile>)
        ensures
            r is Some <==> (lower@ == "fast"@ || lower@ == "balanced"@ || lower@ == "deep"@ || lower@
                == "stealth"@),
            r matches Some(p) ==> p.name@ == lower@,
    {
        if crate::text::str_eq(lower, "fast") {
            Some(ScanProfile::fast())
        } else if crate::text::str_eq(lower, "balanced") {
            Some(ScanProfile::balanced())
        } else if crate::text::str_eq(lower, "deep") {
            Some(ScanProfile::deep())
        } else if crate::text::str_eq(lower, "stealth") {
            Some(ScanProfile::stealth())
        } else {
            None
        }
    }

    /// The profile whose name is `name` in any letter case.
    pub fn by_name(name: &str) -> (r: Option<ScanProfile>)
        ensures
            ({
                let l = lowercase_of(name@);
                r is Some <==> (l == "fast"@ || l == "balanced"@ || l == "deep"@ || l == "stealth"@)
            }),
            r matches Some(p) ==> p.name@ == lowercase_of(name@),
    {
        let lower = to_lowercase(name);
        ScanProfile::by_lower_name(lower.as_str())
    }
}

impl Default for ScanProfile {
    fn default() -> (r: ScanProfile)
        ensures
            r.name@ == "balanced"@,
    {
        ScanProfile::balanced()
    }
}

/// Global settings.
#[derive(Debug, Clone)]
pub struct Config {
    pub default_profile: String,
    pub output_directory: String,
    pub enable_logging: bool,
    pub log_level: String,
    pub api_keys: HashMap<String, String>,
    pub custom_wordlists: HashMap<String, String>,
}

impl Default for Config {
    fn default() -> (r: Config)
        ensures
            r.default_profile@ == "balanced"@,
            r.output_directory@ == "./output"@,
            r.enable_logging,
            r.log_level@ == "info"@,
    {
        Config {
            default_profile: String::from_str("balanced"),
            output_directory: String::from_str("./output"),
            enable_logging: true,
            log_level: String::from_str("info"),
            api_keys: HashMap::new(),
            custom_wordlists: HashMap::new(),
        }
    }
}

/// What to scan and how.
#[derive(Debug, Clone)]
pub struct ScanConfig {
    pub target: String,
    pub max_depth: usize,
    pub max_concurrent_requests: usize,
    pub timeout_seconds: u64,
    pub follow_redirects: bool,
    pub user_agent: String,
    pub custom_headers: HashMap<String, String>,
    pub scan_types: Vec<VulnerabilityType>,
    pub enable_ai_analysis: bool,
    pub aggressive_mode: bool,
}

impl Default for ScanConfig {
    fn default() -> (r: ScanConfig)
        ensures
            r.target@ == Seq::<char>::empty(),
            r.max_depth == 3,
            r.max_concurrent_requests == 50,
            r.timeout_seconds == 10,
            r.follow_redirects,
            r.user_agent@ == "ShadowProbe/0.1.0"@,
            r.scan_types@.map_values(|t: VulnerabilityType| t@) == seq![
                VulnKind::SQLInjection,
                VulnKind::XSS,
                VulnKind::SSRF,
            ],
            r.enable_ai_analysis,
            !r.aggressive_mode,
    {
        let mut scan_types: Vec<VulnerabilityType> = Vec::new();
        scan_types.push(VulnerabilityType::SQLInjection);
        scan_types.push(VulnerabilityType::XSS);
        scan_types.push(VulnerabilityType::SSRF);
        assert(scan_types@.map_values(|t: VulnerabilityType| t@) =~= seq![
            VulnKind::SQLInjection,
            VulnKind::XSS,
            VulnKind::SSRF,
        ]);
        ScanConfig {
            target: String::new(),
            max_depth: 3,
            max_concurrent_requests: 50,
            timeout_seconds: 10,
            follow_redirects: true,
            user_agent: String::from_str("ShadowProbe/0.1.0"),
            custom_headers: HashMap::new(),
            scan_types,
            enable_ai_analysis: true,
            aggressive_mode: false,
        }
    }
}

/// One request target with its method, headers, query parameters and body.
#[derive(Debug, Clone)]
pub struct Target {
    pub url: String,
    pub method: crate::types::HttpMethod,
    pub headers: HashMap<String, String>,
    pub params: HashMap<String, String>,
    pub body: Option<String>,
}

} // verus!
